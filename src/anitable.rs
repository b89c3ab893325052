use crate::date::{
    decode_optional_date, decode_timestamp, optional_date_of, timestamp_of, Date, DecodeError,
    Timestamp,
};
use vstd::prelude::*;

verus! {

/// Which day's schedule, or which special list, to ask for.
#[derive(Clone, Copy, Debug, PartialEq, Eq, Structural)]
pub enum Weekday {
    /// Sunday.
    Sun,
    /// Monday.
    Mon,
    /// Tuesday.
    Tue,
    /// Wednesday.
    Wed,
    /// Thursday.
    Thu,
    /// Friday.
    Fri,
    /// Saturday.
    Sat,
    /// Anything without a weekly slot.
    Etc,
    /// Newly announced series.
    New,
}

impl Weekday {
    /// The number that stands for the selector on the wire.
    pub open spec fn spec_ordinal(self) -> u8 {
        match self {
            Weekday::Sun => 0,
            Weekday::Mon => 1,
            Weekday::Tue => 2,
            Weekday::Wed => 3,
            Weekday::Thu => 4,
            Weekday::Fri => 5,
            Weekday::Sat => 6,
            Weekday::Etc => 7,
            Weekday::New => 8,
        }
    }

    pub fn ordinal(&self) -> (r: u8)
        ensures
            r == self.spec_ordinal(),
    {
        match self {
            Weekday::Sun => 0,
            Weekday::Mon => 1,
            Weekday::Tue => 2,
            Weekday::Wed => 3,
            Weekday::Thu => 4,
            Weekday::Fri => 5,
            Weekday::Sat => 6,
            Weekday::Etc => 7,
            Weekday::New => 8,
        }
    }

    /// The selector with wire number `n`, if there is one.
    pub fn from_ordinal(n: u8) -> (r: Option<Weekday>)
        ensures
            r is Some <==> n <= 8,
            match r {
                Some(w) => w.spec_ordinal() == n,
                None => true,
            },
    {
        match n {
            0 => Some(Weekday::Sun),
            1 => Some(Weekday::Mon),
            2 => Some(Weekday::Tue),
            3 => Some(Weekday::Wed),
            4 => Some(Weekday::Thu),
            5 => Some(Weekday::Fri),
            6 => Some(Weekday::Sat),
            7 => Some(Weekday::Etc),
            8 => Some(Weekday::New),
            _ => None,
        }
    }
}

/// One series in a schedule.
#[derive(Clone, Debug)]
pub struct AnimeData {
    /// Whether the series is still airing.
    pub alive: bool,
    /// Last broadcast day, if known.
    pub end_date: Option<Date>,
    pub genre: String,
    pub id: i32,
    /// Official site.
    pub link: String,
    /// Title.
    pub subject: String,
    /// First broadcast day, if known.
    pub start_date: Option<Date>,
    /// Broadcast time of day, `HHMM`.
    pub time: String,
}

/// One subtitle release for a series.
#[derive(Clone, Debug)]
pub struct CaptionData {
    /// Download page.
    pub link: String,
    /// When the release was last updated.
    pub date: Timestamp,
    pub author: String,
    /// Latest episode covered.
    pub episode: String,
}

/// A schedule entry as it comes over the wire, dates still in text.
#[derive(Clone, Debug)]
pub struct RawAnime {
    pub alive: bool,
    pub end_date: String,
    pub genre: String,
    pub id: i32,
    pub link: String,
    pub subject: String,
    pub start_date: String,
    pub time: String,
}

/// A subtitle entry as it comes over the wire, its timestamp still in text.
#[derive(Clone, Debug)]
pub struct RawCaption {
    pub link: String,
    pub date: String,
    pub author: String,
    pub episode: String,
}

/// Why a fetch failed.
#[derive(Clone, Copy, Debug, PartialEq, Eq, Structural)]
pub enum FetchError {
    /// The request did not get a successful answer.
    Request,
    /// The answer did not have the expected shape.
    Decode,
}

pub open spec fn anime_of(raw: RawAnime) -> AnimeData {
    AnimeData {
        alive: raw.alive,
        end_date: optional_date_of(raw.end_date@),
        genre: raw.genre,
        id: raw.id,
        link: raw.link,
        subject: raw.subject,
        start_date: optional_date_of(raw.start_date@),
        time: raw.time,
    }
}

pub open spec fn schedule_of(raws: Seq<RawAnime>) -> Seq<AnimeData> {
    raws.map_values(|x: RawAnime| anime_of(x))
}

pub open spec fn caption_of(raw: RawCaption) -> CaptionData {
    CaptionData {
        link: raw.link,
        date: timestamp_of(raw.date@)->Some_0,
        author: raw.author,
        episode: raw.episode,
    }
}

pub open spec fn caption_readable(raw: RawCaption) -> bool {
    timestamp_of(raw.date@) is Some
}

pub open spec fn captions_readable(raws: Seq<RawCaption>) -> bool {
    forall|i: int| 0 <= i < raws.len() ==> caption_readable(#[trigger] raws[i])
}

pub open spec fn captions_of(raws: Seq<RawCaption>) -> Seq<CaptionData> {
    raws.map_values(|x: RawCaption| caption_of(x))
}

/// An HTTP status in the success class.
pub open spec fn is_success(status: u16) -> bool {
    200 <= status < 300
}

/// Turns a wire entry into a record, decoding its optional dates.
pub fn anime_from_raw(raw: RawAnime) -> (r: AnimeData)
    ensures
        r == anime_of(raw),
{
    let end_date = decode_optional_date(raw.end_date.as_str());
    let start_date = decode_optional_date(raw.start_date.as_str());
    AnimeData {
        alive: raw.alive,
        end_date,
        genre: raw.genre,
        id: raw.id,
        link: raw.link,
        subject: raw.subject,
        start_date,
        time: raw.time,
    }
}

/// Turns every wire entry of a schedule into a record, in order.
pub fn decode_schedule(raws: Vec<RawAnime>) -> (r: Vec<AnimeData>)
    ensures
        r@ == schedule_of(raws@),
{
    let ghost all = raws@;
    let mut rest = raws;
    let mut out: Vec<AnimeData> = Vec::new();
    while rest.len() > 0
        invariant
            out@.len() + rest@.len() == all.len(),
            rest@ == all.subrange(out@.len() as int, all.len() as int),
            out@ == schedule_of(all.subrange(0, out@.len() as int)),
        decreases rest.len(),
    {
        let raw = rest.remove(0);
        out.push(anime_from_raw(raw));
        assert(schedule_of(all.subrange(0, out@.len() as int)) =~= schedule_of(
            all.subrange(0, out@.len() - 1),
        ).push(anime_of(raw)));
    }
    assert(all.subrange(0, all.len() as int) =~= all);
    out
}

/// Turns a wire entry into a subtitle record; fails if its timestamp cannot be read.
pub fn caption_from_raw(raw: RawCaption) -> (r: Result<CaptionData, DecodeError>)
    ensures
        caption_readable(raw) ==> r == Ok::<CaptionData, DecodeError>(caption_of(raw)),
        !caption_readable(raw) ==> r == Err::<CaptionData, DecodeError>(DecodeError),
{
    match decode_timestamp(raw.date.as_str()) {
        Ok(date) => Ok(CaptionData { link: raw.link, date, author: raw.author, episode: raw.episode }),
        Err(e) => Err(e),
    }
}

/// Turns every wire entry into a subtitle record, in order; fails, with no
/// records, if any timestamp cannot be read.
pub fn decode_captions(raws: Vec<RawCaption>) -> (r: Result<Vec<CaptionData>, DecodeError>)
    ensures
        captions_readable(raws@) ==> (r matches Ok(v) && v@ == captions_of(raws@)),
        !captions_readable(raws@) ==> r == Err::<Vec<CaptionData>, DecodeError>(DecodeError),
{
    let ghost all = raws@;
    let mut rest = raws;
    let mut out: Vec<CaptionData> = Vec::new();
    while rest.len() > 0
        invariant
            out@.len() + rest@.len() == all.len(),
            rest@ == all.subrange(out@.len() as int, all.len() as int),
            all == raws@,
            captions_readable(all.subrange(0, out@.len() as int)),
            out@ == captions_of(all.subrange(0, out@.len() as int)),
        decreases rest.len(),
    {
        let ghost k = out@.len() as int;
        let raw = rest.remove(0);
        assert(raw == all[k]);
        match caption_from_raw(raw) {
            Ok(c) => {
                out.push(c);
                assert(all.subrange(0, k + 1) =~= all.subrange(0, k).push(raw));
                assert(captions_of(all.subrange(0, k + 1)) =~= captions_of(
                    all.subrange(0, k),
                ).push(caption_of(raw)));
            },
            Err(e) => {
                assert(!caption_readable(all[k]));
                assert(!captions_readable(all));
                return Err(e);
            },
        }
    }
    assert(all.subrange(0, all.len() as int) =~= all);
    Ok(out)
}

/// Decides the outcome of a schedule request from the answer's status and its
/// body, read as wire entries where it had that shape.
pub fn schedule_from_response(status: u16, body: Option<Vec<RawAnime>>) -> (r: Result<
    Vec<AnimeData>,
    FetchError,
>)
    ensures
        !is_success(status) ==> r == Err::<Vec<AnimeData>, FetchError>(FetchError::Request),
        is_success(status) && body is None ==> r == Err::<Vec<AnimeData>, FetchError>(
            FetchError::Decode,
        ),
        is_success(status) && body is Some ==> (r matches Ok(v) && v@ == schedule_of(
            body->Some_0@,
        )),
{
    if status < 200 || status >= 300 {
        return Err(FetchError::Request);
    }
    match body {
        None => Err(FetchError::Decode),
        Some(raws) => Ok(decode_schedule(raws)),
    }
}

/// Decides the outcome of a subtitle request from the answer's status and its
/// body, read as wire entries where it had that shape.
pub fn captions_from_response(status: u16, body: Option<Vec<RawCaption>>) -> (r: Result<
    Vec<CaptionData>,
    FetchError,
>)
    ensures
        !is_success(status) ==> r == Err::<Vec<CaptionData>, FetchError>(FetchError::Request),
        is_success(status) && body is None ==> r == Err::<Vec<CaptionData>, FetchError>(
            FetchError::Decode,
        ),
        is_success(status) && body is Some && !captions_readable(body->Some_0@) ==> r == Err::<
            Vec<CaptionData>,
            FetchError,
        >(FetchError::Decode),
        is_success(status) && body is Some && captions_readable(body->Some_0@) ==> (r matches Ok(
            v,
        ) && v@ == captions_of(body->Some_0@)),
{
    if status < 200 || status >= 300 {
        return Err(FetchError::Request);
    }
    match body {
        None => Err(FetchError::Decode),
        Some(raws) => match decode_captions(raws) {
            Ok(v) => Ok(v),
            Err(_) => Err(FetchError::Decode),
        },
    }
}


/// A form-encoded POST: one field, sent to `url`.
#[derive(Clone, Debug)]
pub struct FormRequest {
    pub url: String,
    pub name: String,
    pub value: i32,
}

/// Client for the schedule service, bound to one base address.
pub struct Anitable {
    url: String,
}

impl Anitable {
    /// The base address every request is made against.
    pub closed spec fn host(&self) -> Seq<char> {
        self.url@
    }

    pub fn new_with_host(host: &str) -> (r: Self)
        ensures
            r.host() == host@,
    {
        Anitable { url: String::from_str(host) }
    }

    /// A client for the public service.
    pub fn new() -> (r: Self)
        ensures
            r.host() == "https://www.anissia.net/anitime/"@,
    {
        Anitable { url: String::from_str("https://www.anissia.net/anitime/") }
    }

    pub fn host_url(&self) -> (r: &str)
        ensures
            r@ == self.host(),
    {
        self.url.as_str()
    }

    /// The request for the schedule of `week`: field `w`, the selector's
    /// number, posted to `{host}/list`.
    pub fn list_request(&self, week: Weekday) -> (r: FormRequest)
        ensures
            r.url@ == self.host() + "/list"@,
            r.name@ == "w"@,
            r.value == week.spec_ordinal() as i32,
    {
        let mut url = self.url.clone();
        url.append("/list");
        FormRequest { url, name: String::from_str("w"), value: week.ordinal() as i32 }
    }

    /// The request for the subtitles of series `anime_id`: field `i`, posted
    /// to `{host}/cap`.
    pub fn cap_request(&self, anime_id: i32) -> (r: FormRequest)
        ensures
            r.url@ == self.host() + "/cap"@,
            r.name@ == "i"@,
            r.value == anime_id,
    {
        let mut url = self.url.clone();
        url.append("/cap");
        FormRequest { url, name: String::from_str("i"), value: anime_id }
    }
}

} // verus!
