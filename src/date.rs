use chrono::{Datelike, NaiveDate, TimeZone, Timelike, Utc};
use vstd::prelude::*;

verus! {

/// Smallest year that a calendar date may carry.
pub const MIN_YEAR: i32 = -262143;

/// Largest year that a calendar date may carry.
pub const MAX_YEAR: i32 = 262142;

pub open spec fn is_leap_year(y: int) -> bool {
    (y % 4 == 0 && y % 100 != 0) || y % 400 == 0
}

pub open spec fn days_in_month(y: int, m: int) -> int {
    if m == 2 {
        if is_leap_year(y) { 29 } else { 28 }
    } else if m == 4 || m == 6 || m == 9 || m == 11 {
        30
    } else {
        31
    }
}

/// A proleptic Gregorian calendar day.
pub open spec fn valid_ymd(y: int, m: int, d: int) -> bool {
    MIN_YEAR <= y <= MAX_YEAR && 1 <= m <= 12 && 1 <= d <= days_in_month(y, m)
}

pub open spec fn valid_hms(h: int, mi: int, s: int) -> bool {
    0 <= h < 24 && 0 <= mi < 60 && 0 <= s < 60
}

pub open spec fn is_digit(c: char) -> bool {
    '0' <= c && c <= '9'
}

pub open spec fn digit_value(c: char) -> int {
    c as int - '0' as int
}

pub open spec fn digit_char(d: int) -> char {
    ((d + 48) as u8) as char
}

pub open spec fn all_digits(s: Seq<char>) -> bool {
    forall|i: int| 0 <= i < s.len() ==> is_digit(#[trigger] s[i])
}

/// The number that a string of decimal digits denotes.
pub open spec fn number_of(s: Seq<char>) -> int
    decreases s.len(),
{
    if s.len() == 0 {
        0
    } else {
        number_of(s.drop_last()) * 10 + digit_value(s.last())
    }
}

/// The last `n` decimal digits of `v`, padded with zeros on the left.
pub open spec fn digits(v: int, n: nat) -> Seq<char>
    decreases n,
{
    if n == 0 {
        Seq::empty()
    } else {
        digits(v / 10, (n - 1) as nat).push(digit_char(v % 10))
    }
}

pub open spec fn pow10(n: nat) -> int
    decreases n,
{
    if n == 0 { 1 } else { 10 * pow10((n - 1) as nat) }
}

pub proof fn lemma_digit_round_trip(d: int)
    requires
        0 <= d < 10,
    ensures
        digit_value(digit_char(d)) == d,
        is_digit(digit_char(d)),
{
}


pub proof fn lemma_digits_shape(v: int, n: nat)
    requires
        v >= 0,
    ensures
        digits(v, n).len() == n,
        all_digits(digits(v, n)),
    decreases n,
{
    if n > 0 {
        lemma_digits_shape(v / 10, (n - 1) as nat);
        lemma_digit_round_trip(v % 10);
        let s = digits(v, n);
        assert forall|i: int| 0 <= i < s.len() implies is_digit(#[trigger] s[i]) by {
            if i < n - 1 {
                assert(s[i] == digits(v / 10, (n - 1) as nat)[i]);
            }
        }
    }
}

/// Reading back the digits of a number that fits them gives the number.
pub proof fn lemma_number_of_digits(v: int, n: nat)
    requires
        0 <= v < pow10(n),
    ensures
        number_of(digits(v, n)) == v,
    decreases n,
{
    if n > 0 {
        let s = digits(v, n);
        assert(s.drop_last() =~= digits(v / 10, (n - 1) as nat));
        lemma_number_of_digits(v / 10, (n - 1) as nat);
        lemma_digit_round_trip(v % 10);
    }
}

/// Writing out the number that a digit string denotes, at the string's width,
/// gives the string back.
pub proof fn lemma_digits_of_number(s: Seq<char>)
    requires
        all_digits(s),
    ensures
        0 <= number_of(s) < pow10(s.len()),
        digits(number_of(s), s.len()) =~= s,
    decreases s.len(),
{
    if s.len() > 0 {
        let init = s.drop_last();
        assert(all_digits(init)) by {
            assert forall|i: int| 0 <= i < init.len() implies is_digit(#[trigger] init[i]) by {
                assert(init[i] == s[i]);
            }
        }
        lemma_digits_of_number(init);
        let c = s.last();
        assert(is_digit(c));
        let v = number_of(s);
        assert(v / 10 == number_of(init) && v % 10 == digit_value(c));
        assert(digit_char(digit_value(c)) == c);
    }
}


/// A calendar day.
#[derive(Clone, Copy, Debug, PartialEq, Eq, Structural)]
pub struct Date {
    pub year: i32,
    pub month: u32,
    pub day: u32,
}

impl Date {
    pub open spec fn wf(self) -> bool {
        valid_ymd(self.year as int, self.month as int, self.day as int)
    }

    /// Whether the fields name a calendar day.
    pub fn is_valid(&self) -> (r: bool)
        ensures
            r == self.wf(),
    {
        is_valid_ymd(self.year, self.month, self.day)
    }
}

fn month_length(y: i32, m: u32) -> (r: u32)
    ensures
        r == days_in_month(y as int, m as int),
{
    if m == 2 {
        if (y % 4 == 0 && y % 100 != 0) || y % 400 == 0 {
            29
        } else {
            28
        }
    } else if m == 4 || m == 6 || m == 9 || m == 11 {
        30
    } else {
        31
    }
}

fn is_valid_ymd(y: i32, m: u32, d: u32) -> (r: bool)
    ensures
        r == valid_ymd(y as int, m as int, d as int),
{
    MIN_YEAR <= y && y <= MAX_YEAR && 1 <= m && m <= 12 && 1 <= d && d <= month_length(y, m)
}

/// An instant in UTC, to the second.
#[derive(Clone, Copy, Debug, PartialEq, Eq, Structural)]
pub struct Timestamp {
    pub year: i32,
    pub month: u32,
    pub day: u32,
    pub hour: u32,
    pub minute: u32,
    pub second: u32,
}

impl Timestamp {
    pub open spec fn wf(self) -> bool {
        valid_ymd(self.year as int, self.month as int, self.day as int) && valid_hms(
            self.hour as int,
            self.minute as int,
            self.second as int,
        )
    }

    /// Whether the fields name a calendar day and a time of day.
    pub fn is_valid(&self) -> (r: bool)
        ensures
            r == self.wf(),
    {
        is_valid_ymd(self.year, self.month, self.day) && self.hour < 24 && self.minute < 60
            && self.second < 60
    }
}

/// A mandatory timestamp field could not be read.
#[derive(Clone, Copy, Debug, PartialEq, Eq, Structural)]
pub struct DecodeError;

/// The wire text that stands for "no date".
pub open spec fn no_date_text() -> Seq<char> {
    seq!['0', '0', '0', '0', '0', '0', '0', '0']
}

pub open spec fn field(s: Seq<char>, lo: int, hi: int) -> int {
    number_of(s.subrange(lo, hi))
}

/// Eight decimal digits, `YYYYMMDD`.
pub open spec fn is_date_text(s: Seq<char>) -> bool {
    s.len() == 8 && all_digits(s)
}

/// Fourteen decimal digits, `YYYYMMDDHHMMSS`, with a seconds field below 60.
pub open spec fn is_timestamp_text(s: Seq<char>) -> bool {
    s.len() == 14 && all_digits(s) && field(s, 12, 14) < 60
}

/// Empty, or beginning with an ASCII letter: no digit where the year must start.
pub open spec fn starts_unreadable(s: Seq<char>) -> bool {
    s.len() == 0 || ('a' <= s[0] && s[0] <= 'z') || ('A' <= s[0] && s[0] <= 'Z')
}

/// The day that eight digits name, if they name one.
pub open spec fn date_from_digits(s: Seq<char>) -> Option<Date> {
    let y = field(s, 0, 4);
    let m = field(s, 4, 6);
    let d = field(s, 6, 8);
    if valid_ymd(y, m, d) {
        Some(Date { year: y as i32, month: m as u32, day: d as u32 })
    } else {
        None
    }
}

/// The instant that fourteen digits name, if they name one.
pub open spec fn timestamp_from_digits(s: Seq<char>) -> Option<Timestamp> {
    let y = field(s, 0, 4);
    let m = field(s, 4, 6);
    let d = field(s, 6, 8);
    let h = field(s, 8, 10);
    let mi = field(s, 10, 12);
    let sec = field(s, 12, 14);
    if valid_ymd(y, m, d) && valid_hms(h, mi, sec) {
        Some(
            Timestamp {
                year: y as i32,
                month: m as u32,
                day: d as u32,
                hour: h as u32,
                minute: mi as u32,
                second: sec as u32,
            },
        )
    } else {
        None
    }
}

pub open spec fn date_text(d: Date) -> Seq<char> {
    digits(d.year as int, 4) + digits(d.month as int, 2) + digits(d.day as int, 2)
}

pub open spec fn timestamp_text(t: Timestamp) -> Seq<char> {
    digits(t.year as int, 4) + digits(t.month as int, 2) + digits(t.day as int, 2) + digits(
        t.hour as int,
        2,
    ) + digits(t.minute as int, 2) + digits(t.second as int, 2)
}

/// What chrono's `%Y%m%d` parser makes of a string.
pub uninterp spec fn parsed_date(s: Seq<char>) -> Option<Date>;

/// What chrono's `%Y%m%d` formatter writes for a day.
pub uninterp spec fn formatted_date(d: Date) -> Seq<char>;

/// What chrono's `%Y%m%d%H%M%S` parser makes of a string, read in UTC.
pub uninterp spec fn parsed_timestamp(s: Seq<char>) -> Option<Timestamp>;

/// What chrono's `%Y%m%d%H%M%S` formatter writes for an instant in UTC.
pub uninterp spec fn formatted_timestamp(t: Timestamp) -> Seq<char>;

/// The value of an optional date field: the all-zero text and anything that
/// does not parse stand for no date.
pub open spec fn optional_date_of(s: Seq<char>) -> Option<Date> {
    if s == no_date_text() {
        None
    } else if is_date_text(s) {
        date_from_digits(s)
    } else if starts_unreadable(s) {
        None
    } else {
        parsed_date(s)
    }
}

pub open spec fn encoded_date(d: Date) -> Seq<char> {
    if 0 <= d.year <= 9999 {
        date_text(d)
    } else {
        formatted_date(d)
    }
}

pub open spec fn encoded_optional_date(d: Option<Date>) -> Seq<char> {
    match d {
        None => no_date_text(),
        Some(d) => encoded_date(d),
    }
}

/// The value of a mandatory timestamp field, if it has one.
pub open spec fn timestamp_of(s: Seq<char>) -> Option<Timestamp> {
    if is_timestamp_text(s) {
        timestamp_from_digits(s)
    } else if starts_unreadable(s) {
        None
    } else {
        parsed_timestamp(s)
    }
}

pub open spec fn encoded_timestamp(t: Timestamp) -> Seq<char> {
    if 0 <= t.year <= 9999 {
        timestamp_text(t)
    } else {
        formatted_timestamp(t)
    }
}

/// Relies on chrono's `NaiveDate::parse_from_str` with `%Y%m%d`: on eight ASCII
/// digits it reads four for the year and two each for month and day, and fails
/// unless they name a calendar day; text that is empty or begins with an ASCII
/// letter fails, as the year must start with a sign or a digit; any date it
/// returns is a valid one.
#[verifier::external_body]
fn parse_date(s: &str) -> (r: Option<Date>)
    ensures
        r == parsed_date(s@),
        match r {
            Some(d) => d.wf(),
            None => true,
        },
        is_date_text(s@) ==> r == date_from_digits(s@),
        starts_unreadable(s@) ==> r is None,
{
    match NaiveDate::parse_from_str(s, "%Y%m%d") {
        Ok(d) => Some(Date { year: d.year(), month: d.month(), day: d.day() }),
        Err(_) => None,
    }
}

/// Relies on chrono's `NaiveDate::from_ymd_opt`, which accepts every valid day,
/// and its `format` with `%Y%m%d`, which writes a year from 0 to 9999 as four
/// zero-padded digits and month and day as two.
#[verifier::external_body]
fn format_date(d: Date) -> (r: String)
    requires
        d.wf(),
    ensures
        r@ == formatted_date(d),
        0 <= d.year <= 9999 ==> r@ == date_text(d),
{
    NaiveDate::from_ymd_opt(d.year, d.month, d.day).unwrap().format("%Y%m%d").to_string()
}

/// Relies on chrono's `TimeZone::datetime_from_str` for `Utc` with
/// `%Y%m%d%H%M%S`: on fourteen ASCII digits with seconds below 60 it reads
/// four for the year and two for each other field, and fails unless they name
/// a valid day and time of day; text that is empty or begins with an ASCII
/// letter fails, as the year must start with a sign or a digit; any instant it
/// returns reads back as a valid one.
#[verifier::external_body]
#[allow(deprecated)]
fn parse_timestamp(s: &str) -> (r: Option<Timestamp>)
    ensures
        r == parsed_timestamp(s@),
        match r {
            Some(t) => t.wf(),
            None => true,
        },
        is_timestamp_text(s@) ==> r == timestamp_from_digits(s@),
        starts_unreadable(s@) ==> r is None,
{
    match Utc.datetime_from_str(s, "%Y%m%d%H%M%S") {
        Ok(t) => Some(Timestamp {
            year: t.year(),
            month: t.month(),
            day: t.day(),
            hour: t.hour(),
            minute: t.minute(),
            second: t.second(),
        }),
        Err(_) => None,
    }
}

/// Relies on chrono's `TimeZone::with_ymd_and_hms` for `Utc`, which gives one
/// instant for every valid day and time, and its `format` with
/// `%Y%m%d%H%M%S`, which writes a year from 0 to 9999 as four zero-padded
/// digits and every other field as two.
#[verifier::external_body]
fn format_timestamp(t: Timestamp) -> (r: String)
    requires
        t.wf(),
    ensures
        r@ == formatted_timestamp(t),
        0 <= t.year <= 9999 ==> r@ == timestamp_text(t),
{
    let dt = Utc.with_ymd_and_hms(t.year, t.month, t.day, t.hour, t.minute, t.second).unwrap();
    dt.format("%Y%m%d%H%M%S").to_string()
}

proof fn lemma_digit_fields(s: Seq<char>, lo: int, hi: int)
    requires
        all_digits(s),
        0 <= lo <= hi <= s.len(),
    ensures
        0 <= field(s, lo, hi) < pow10((hi - lo) as nat),
        digits(field(s, lo, hi), (hi - lo) as nat) =~= s.subrange(lo, hi),
{
    let t = s.subrange(lo, hi);
    assert(all_digits(t)) by {
        assert forall|i: int| 0 <= i < t.len() implies is_digit(#[trigger] t[i]) by {
            assert(t[i] == s[lo + i]);
        }
    }
    lemma_digits_of_number(t);
}

proof fn lemma_pow10_small()
    ensures
        pow10(2) == 100,
        pow10(4) == 10000,
{
    reveal_with_fuel(pow10, 5);
}

/// Writing a day decoded from eight digits gives the same eight digits.
proof fn lemma_date_text_of_digits(s: Seq<char>)
    requires
        is_date_text(s),
        date_from_digits(s) is Some,
    ensures
        encoded_date(date_from_digits(s)->Some_0) == s,
{
    let d = date_from_digits(s)->Some_0;
    lemma_pow10_small();
    lemma_digit_fields(s, 0, 4);
    lemma_digit_fields(s, 4, 6);
    lemma_digit_fields(s, 6, 8);
    assert(date_text(d) =~= s);
}

/// Decoding an optional date field, writing the result back and decoding that
/// again gives the first result.
pub proof fn lemma_optional_date_round_trip(s: Seq<char>)
    requires
        is_date_text(s),
        s != no_date_text(),
    ensures
        optional_date_of(encoded_optional_date(optional_date_of(s))) == optional_date_of(s),
{
    match date_from_digits(s) {
        Some(d) => {
            lemma_date_text_of_digits(s);
        },
        None => {},
    }
}

/// Decoding the text that a valid timestamp with a four-digit year is written
/// as gives the timestamp back.
pub proof fn lemma_timestamp_round_trip(t: Timestamp)
    requires
        t.wf(),
        0 <= t.year <= 9999,
    ensures
        timestamp_of(encoded_timestamp(t)) == Some(t),
{
    let s = timestamp_text(t);
    lemma_pow10_small();
    lemma_digits_shape(t.year as int, 4);
    lemma_digits_shape(t.month as int, 2);
    lemma_digits_shape(t.day as int, 2);
    lemma_digits_shape(t.hour as int, 2);
    lemma_digits_shape(t.minute as int, 2);
    lemma_digits_shape(t.second as int, 2);
    lemma_number_of_digits(t.year as int, 4);
    lemma_number_of_digits(t.month as int, 2);
    lemma_number_of_digits(t.day as int, 2);
    lemma_number_of_digits(t.hour as int, 2);
    lemma_number_of_digits(t.minute as int, 2);
    lemma_number_of_digits(t.second as int, 2);
    assert(s.subrange(0, 4) =~= digits(t.year as int, 4));
    assert(s.subrange(4, 6) =~= digits(t.month as int, 2));
    assert(s.subrange(6, 8) =~= digits(t.day as int, 2));
    assert(s.subrange(8, 10) =~= digits(t.hour as int, 2));
    assert(s.subrange(10, 12) =~= digits(t.minute as int, 2));
    assert(s.subrange(12, 14) =~= digits(t.second as int, 2));
    assert(all_digits(s)) by {
        assert forall|i: int| 0 <= i < s.len() implies is_digit(#[trigger] s[i]) by {
            if i < 4 {
                assert(s[i] == s.subrange(0, 4)[i]);
            } else if i < 6 {
                assert(s[i] == s.subrange(4, 6)[i - 4]);
            } else if i < 8 {
                assert(s[i] == s.subrange(6, 8)[i - 6]);
            } else if i < 10 {
                assert(s[i] == s.subrange(8, 10)[i - 8]);
            } else if i < 12 {
                assert(s[i] == s.subrange(10, 12)[i - 10]);
            } else {
                assert(s[i] == s.subrange(12, 14)[i - 12]);
            }
        }
    }
}

/// Whether `s` is the all-zero text that stands for "no date".
pub fn is_no_date(s: &str) -> (r: bool)
    ensures
        r == (s@ == no_date_text()),
{
    let n = s.unicode_len();
    if n != 8 {
        return false;
    }
    let mut i: usize = 0;
    while i < 8
        invariant
            n == 8,
            s@.len() == 8,
            0 <= i <= 8,
            forall|j: int| 0 <= j < i ==> s@[j] == '0',
        decreases 8 - i,
    {
        if s.get_char(i) != '0' {
            return false;
        }
        i += 1;
    }
    assert(s@ =~= no_date_text());
    true
}

/// Reads an optional date field: the all-zero text, and any text that is not
/// a calendar day in the form `YYYYMMDD`, give `None`.
pub fn decode_optional_date(s: &str) -> (r: Option<Date>)
    ensures
        r == optional_date_of(s@),
        match r {
            Some(d) => d.wf(),
            None => true,
        },
{
    if is_no_date(s) {
        None
    } else {
        parse_date(s)
    }
}

/// Writes an optional date field: `00000000` for `None`, else `YYYYMMDD`.
pub fn encode_optional_date(d: Option<Date>) -> (r: String)
    requires
        match d {
            Some(d) => d.wf(),
            None => true,
        },
    ensures
        r@ == encoded_optional_date(d),
{
    match d {
        None => {
            proof {
                reveal_strlit("00000000");
            }
            let r = String::from_str("00000000");
            assert(r@ =~= no_date_text());
            r
        },
        Some(d) => format_date(d),
    }
}

/// Reads a mandatory `YYYYMMDDHHMMSS` timestamp field, in UTC.
pub fn decode_timestamp(s: &str) -> (r: Result<Timestamp, DecodeError>)
    ensures
        r == match timestamp_of(s@) {
            Some(t) => Ok::<Timestamp, DecodeError>(t),
            None => Err(DecodeError),
        },
        match r {
            Ok(t) => t.wf(),
            Err(_) => true,
        },
{
    match parse_timestamp(s) {
        Some(t) => Ok(t),
        None => Err(DecodeError),
    }
}

/// Writes a timestamp as `YYYYMMDDHHMMSS`, in UTC.
pub fn encode_timestamp(t: Timestamp) -> (r: String)
    requires
        t.wf(),
    ensures
        r@ == encoded_timestamp(t),
{
    format_timestamp(t)
}

} // verus!
