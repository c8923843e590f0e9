use vstd::prelude::*;

verus! {

/// The time window of a sort mode that ranks over a period.
#[derive(Debug, Clone, Copy, PartialEq, Eq, Structural)]
pub enum FeedSortingTime {
    Hour,
    Day,
    Week,
    Month,
    Year,
    All,
}

/// How a feed is ordered. `Top` and `Controversial` rank over a time window.
#[derive(Debug, Clone, Copy, PartialEq, Eq, Structural)]
pub enum FeedSorting {
    Hot,
    New,
    Top(FeedSortingTime),
    Controversial(FeedSortingTime),
}

impl FeedSortingTime {
    /// The lower-case query value of the time window.
    pub open spec fn name(self) -> Seq<char> {
        match self {
            FeedSortingTime::Hour => "hour"@,
            FeedSortingTime::Day => "day"@,
            FeedSortingTime::Week => "week"@,
            FeedSortingTime::Month => "month"@,
            FeedSortingTime::Year => "year"@,
            FeedSortingTime::All => "all"@,
        }
    }

    pub fn to_string(&self) -> (r: String)
        ensures
            r@ == self.name(),
    {
        match self {
            FeedSortingTime::Hour => String::from_str("hour"),
            FeedSortingTime::Day => String::from_str("day"),
            FeedSortingTime::Week => String::from_str("week"),
            FeedSortingTime::Month => String::from_str("month"),
            FeedSortingTime::Year => String::from_str("year"),
            FeedSortingTime::All => String::from_str("all"),
        }
    }
}

impl FeedSorting {
    /// The lower-case query value of the sort mode, without its time window.
    pub open spec fn name(self) -> Seq<char> {
        match self {
            FeedSorting::Hot => "hot"@,
            FeedSorting::New => "new"@,
            FeedSorting::Top(_) => "top"@,
            FeedSorting::Controversial(_) => "controversial"@,
        }
    }

    /// The time window carried by the sort mode, if any.
    pub open spec fn window(self) -> Option<FeedSortingTime> {
        match self {
            FeedSorting::Top(t) => Some(t),
            FeedSorting::Controversial(t) => Some(t),
            _ => None,
        }
    }

    pub fn to_string(&self) -> (r: String)
        ensures
            r@ == self.name(),
    {
        match self {
            FeedSorting::Hot => String::from_str("hot"),
            FeedSorting::New => String::from_str("new"),
            FeedSorting::Top(_) => String::from_str("top"),
            FeedSorting::Controversial(_) => String::from_str("controversial"),
        }
    }

    pub fn time(&self) -> (r: Option<FeedSortingTime>)
        ensures
            r == self.window(),
    {
        match self {
            FeedSorting::Top(t) => Some(*t),
            FeedSorting::Controversial(t) => Some(*t),
            _ => None,
        }
    }
}

impl Default for FeedSorting {
    fn default() -> (r: Self)
        ensures
            r == FeedSorting::Hot,
    {
        FeedSorting::Hot
    }
}

} // verus!
