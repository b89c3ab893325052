use anitable::date::{
    decode_optional_date, decode_timestamp, encode_optional_date, encode_timestamp, is_no_date,
    Date, DecodeError, Timestamp,
};

fn day(year: i32, month: u32, day: u32) -> Date {
    Date { year, month, day }
}

#[test]
fn optional_date_reads_digits() {
    assert_eq!(decode_optional_date("20191013"), Some(day(2019, 10, 13)));
    assert_eq!(decode_optional_date("20200229"), Some(day(2020, 2, 29)));
    assert_eq!(decode_optional_date("00010101"), Some(day(1, 1, 1)));
}

#[test]
fn optional_date_zero_is_none() {
    assert_eq!(decode_optional_date("00000000"), None);
    let text = encode_optional_date(None);
    assert_eq!(text, "00000000");
    assert_eq!(decode_optional_date(&text), None);
}

#[test]
fn optional_date_garbage_is_none() {
    assert_eq!(decode_optional_date("garbage"), None);
    assert_eq!(decode_optional_date(""), None);
    assert_eq!(decode_optional_date("20191301"), None);
    assert_eq!(decode_optional_date("20190229"), None);
}

#[test]
fn optional_date_writes_digits() {
    assert_eq!(encode_optional_date(Some(day(2019, 10, 13))), "20191013");
    assert_eq!(encode_optional_date(Some(day(5, 1, 2))), "00050102");
}

#[test]
fn optional_date_round_trip() {
    for s in ["20191013", "20200229", "20190229", "99991231", "00001301"] {
        let once = decode_optional_date(s);
        let text = encode_optional_date(once);
        assert_eq!(decode_optional_date(&text), once);
    }
    assert_eq!(encode_optional_date(decode_optional_date("20191013")), "20191013");
}

#[test]
fn no_date_text_is_exact() {
    assert!(is_no_date("00000000"));
    assert!(!is_no_date("0000000"));
    assert!(!is_no_date("000000000"));
    assert!(!is_no_date("00000001"));
}

#[test]
fn timestamp_reads_digits() {
    let t = decode_timestamp("20200101120000").unwrap();
    assert_eq!(
        t,
        Timestamp { year: 2020, month: 1, day: 1, hour: 12, minute: 0, second: 0 }
    );
}

#[test]
fn timestamp_garbage_fails() {
    assert_eq!(decode_timestamp("garbage"), Err(DecodeError));
    assert_eq!(decode_timestamp("00000000000000"), Err(DecodeError));
    assert_eq!(decode_timestamp("20200101250000"), Err(DecodeError));
}

#[test]
fn timestamp_writes_digits() {
    let t = Timestamp { year: 2020, month: 1, day: 1, hour: 12, minute: 0, second: 0 };
    assert_eq!(encode_timestamp(t), "20200101120000");
    let early = Timestamp { year: 987, month: 6, day: 5, hour: 4, minute: 3, second: 2 };
    assert_eq!(encode_timestamp(early), "09870605040302");
}

#[test]
fn timestamp_round_trip() {
    let ts = [
        Timestamp { year: 2020, month: 1, day: 1, hour: 12, minute: 0, second: 0 },
        Timestamp { year: 2019, month: 10, day: 13, hour: 23, minute: 59, second: 59 },
        Timestamp { year: 0, month: 2, day: 29, hour: 0, minute: 0, second: 0 },
    ];
    for t in ts {
        assert_eq!(decode_timestamp(&encode_timestamp(t)), Ok(t));
    }
}
