pub use crate::anitable::Anitable;
use vstd::prelude::*;

verus! {

/// One series in a schedule, in the service's newer record layout.
#[allow(non_snake_case)]
#[derive(Clone, Debug)]
pub struct AnimeItem {
    pub animeNo: i32,
    /// `ON` while airing, `OFF` during a break.
    pub status: String,
    /// Broadcast time of day, `HH:MM`.
    pub time: Option<String>,
    pub subject: String,
    pub genres: String,
    /// `YYYY-MM-DD`.
    pub startDate: Option<String>,
    /// `YYYY-MM-DD`.
    pub endDate: Option<String>,
    pub website: Option<String>,
    /// How many subtitle makers follow the series.
    pub captionCount: i32,
}

/// One subtitle release, in the service's newer record layout.
#[allow(non_snake_case)]
#[derive(Clone, Debug)]
pub struct CaptionData {
    pub episode: String,
    /// `YYYY-MM-DD HH:MM:SS`.
    pub updDt: String,
    pub website: Option<String>,
    pub name: String,
}

} // verus!
