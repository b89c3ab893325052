use crate::anitable::Weekday;
use vstd::prelude::*;

verus! {

/// Which schedule table to ask for: a day of the week, or a special list.
#[derive(Clone, Copy, Debug, PartialEq, Eq, Structural)]
pub enum Tabletype {
    /// Sunday.
    Sun,
    /// Monday.
    Mon,
    /// Tuesday.
    Tue,
    /// Wednesday.
    Wed,
    /// Thursday.
    Thu,
    /// Friday.
    Fri,
    /// Saturday.
    Sat,
    /// Anything without a weekly slot.
    Etc,
    /// Newly announced series.
    New,
}

impl Tabletype {
    /// The selector that asks for the same table.
    pub open spec fn spec_weekday(self) -> Weekday {
        match self {
            Tabletype::Sun => Weekday::Sun,
            Tabletype::Mon => Weekday::Mon,
            Tabletype::Tue => Weekday::Tue,
            Tabletype::Wed => Weekday::Wed,
            Tabletype::Thu => Weekday::Thu,
            Tabletype::Fri => Weekday::Fri,
            Tabletype::Sat => Weekday::Sat,
            Tabletype::Etc => Weekday::Etc,
            Tabletype::New => Weekday::New,
        }
    }

    pub fn weekday(&self) -> (r: Weekday)
        ensures
            r == self.spec_weekday(),
    {
        match self {
            Tabletype::Sun => Weekday::Sun,
            Tabletype::Mon => Weekday::Mon,
            Tabletype::Tue => Weekday::Tue,
            Tabletype::Wed => Weekday::Wed,
            Tabletype::Thu => Weekday::Thu,
            Tabletype::Fri => Weekday::Fri,
            Tabletype::Sat => Weekday::Sat,
            Tabletype::Etc => Weekday::Etc,
            Tabletype::New => Weekday::New,
        }
    }

    /// The number that stands for the table on the wire.
    pub fn ordinal(&self) -> (r: u8)
        ensures
            r == self.spec_weekday().spec_ordinal(),
    {
        self.weekday().ordinal()
    }

    /// The table with wire number `n`, if there is one.
    pub fn from_ordinal(n: u8) -> (r: Option<Tabletype>)
        ensures
            r is Some <==> n <= 8,
            match r {
                Some(t) => t.spec_weekday().spec_ordinal() == n,
                None => true,
            },
    {
        match n {
            0 => Some(Tabletype::Sun),
            1 => Some(Tabletype::Mon),
            2 => Some(Tabletype::Tue),
            3 => Some(Tabletype::Wed),
            4 => Some(Tabletype::Thu),
            5 => Some(Tabletype::Fri),
            6 => Some(Tabletype::Sat),
            7 => Some(Tabletype::Etc),
            8 => Some(Tabletype::New),
            _ => None,
        }
    }
}

} // verus!
