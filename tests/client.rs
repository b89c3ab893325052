use anitable::anitable::{
    captions_from_response, decode_captions, schedule_from_response, Anitable, FetchError,
    RawAnime, RawCaption, Weekday,
};
use anitable::date::{Date, DecodeError, Timestamp};
use anitable::types::Tabletype;

fn raw_anime(id: i32, subject: &str, time: &str, genre: &str, link: &str, sd: &str, ed: &str) -> RawAnime {
    RawAnime {
        alive: true,
        end_date: ed.to_string(),
        genre: genre.to_string(),
        id,
        link: link.to_string(),
        subject: subject.to_string(),
        start_date: sd.to_string(),
        time: time.to_string(),
    }
}

fn list_fixture() -> Vec<RawAnime> {
    vec![
        raw_anime(
            4469,
            "소드 아트 온라인 앨리시제이션 War of Underworld",
            "0000",
            "판타지 / 액션",
            "https://sao-alicization.net    ",
            "20191013",
            "00000000",
        ),
        raw_anime(
            4502,
            "우리는 공부를 못해 2기",
            "0030",
            "코미디 / 학원물",
            "https://boku-ben.com  ",
            "20191006",
            "00000000",
        ),
    ]
}

fn raw_caption(date: &str) -> RawCaption {
    RawCaption {
        link: "http://x".to_string(),
        date: date.to_string(),
        author: "author1".to_string(),
        episode: "ep1".to_string(),
    }
}

#[test]
fn test_anitable_list() {
    let data = schedule_from_response(200, Some(list_fixture())).unwrap();
    assert_eq!(4469, data[0].id);
    assert_eq!(Some(Date { year: 2019, month: 10, day: 13 }), data[0].start_date);
}

#[test]
fn list_fixture_decodes_every_field() {
    let data = schedule_from_response(200, Some(list_fixture())).unwrap();
    assert_eq!(data.len(), 2);
    assert_eq!(data[0].id, 4469);
    assert_eq!(data[0].start_date, Some(Date { year: 2019, month: 10, day: 13 }));
    assert_eq!(data[0].end_date, None);
    assert!(data[0].alive);
    assert_eq!(data[0].subject, "소드 아트 온라인 앨리시제이션 War of Underworld");
    assert_eq!(data[0].time, "0000");
    assert_eq!(data[1].id, 4502);
    assert_eq!(data[1].start_date, Some(Date { year: 2019, month: 10, day: 6 }));
    assert_eq!(data[1].genre, "코미디 / 학원물");
}

#[test]
fn list_bad_dates_are_absent() {
    let raws = vec![raw_anime(1, "a", "1200", "g", "l", "garbage", "20191399")];
    let data = schedule_from_response(200, Some(raws)).unwrap();
    assert_eq!(data[0].start_date, None);
    assert_eq!(data[0].end_date, None);
}

#[test]
fn cap_fixture_decodes_timestamp() {
    let caps = captions_from_response(200, Some(vec![raw_caption("20200101120000")])).unwrap();
    assert_eq!(caps.len(), 1);
    assert_eq!(
        caps[0].date,
        Timestamp { year: 2020, month: 1, day: 1, hour: 12, minute: 0, second: 0 }
    );
    assert_eq!(caps[0].link, "http://x");
    assert_eq!(caps[0].author, "author1");
    assert_eq!(caps[0].episode, "ep1");
}

#[test]
fn server_error_is_request_error() {
    assert_eq!(
        schedule_from_response(500, Some(list_fixture())).unwrap_err(),
        FetchError::Request
    );
    assert_eq!(schedule_from_response(500, None).unwrap_err(), FetchError::Request);
    assert_eq!(captions_from_response(404, None).unwrap_err(), FetchError::Request);
}

#[test]
fn malformed_body_is_decode_error() {
    assert_eq!(schedule_from_response(200, None).unwrap_err(), FetchError::Decode);
    assert_eq!(captions_from_response(200, None).unwrap_err(), FetchError::Decode);
}

#[test]
fn one_bad_timestamp_fails_the_whole_list() {
    let raws = vec![raw_caption("20200101120000"), raw_caption("garbage")];
    assert_eq!(decode_captions(raws.clone()).unwrap_err(), DecodeError);
    assert_eq!(captions_from_response(200, Some(raws)).unwrap_err(), FetchError::Decode);
}

#[test]
fn empty_lists_decode() {
    assert_eq!(schedule_from_response(200, Some(vec![])).unwrap().len(), 0);
    assert_eq!(captions_from_response(204, Some(vec![])).unwrap().len(), 0);
}

#[test]
fn requests_name_endpoint_and_field() {
    let client = Anitable::new_with_host("http://localhost:1234");
    let r = client.list_request(Weekday::Mon);
    assert_eq!(r.url, "http://localhost:1234/list");
    assert_eq!(r.name, "w");
    assert_eq!(r.value, 1);
    let r = client.cap_request(4469);
    assert_eq!(r.url, "http://localhost:1234/cap");
    assert_eq!(r.name, "i");
    assert_eq!(r.value, 4469);
    assert_eq!(Anitable::new().host_url(), "https://www.anissia.net/anitime/");
}

#[test]
fn selectors_have_stable_numbers() {
    assert_eq!(Weekday::Sun.ordinal(), 0);
    assert_eq!(Weekday::Sat.ordinal(), 6);
    assert_eq!(Weekday::Etc.ordinal(), 7);
    assert_eq!(Weekday::New.ordinal(), 8);
    assert_eq!(Weekday::from_ordinal(3), Some(Weekday::Wed));
    assert_eq!(Weekday::from_ordinal(9), None);
    assert_eq!(Tabletype::New.ordinal(), 8);
    assert_eq!(Tabletype::from_ordinal(0), Some(Tabletype::Sun));
    assert_eq!(Tabletype::from_ordinal(200), None);
    assert_eq!(Tabletype::Fri.weekday(), Weekday::Fri);
}
