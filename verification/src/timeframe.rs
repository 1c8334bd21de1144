//! The granularity of a requested price series.

use vstd::prelude::*;

verus! {

/// The span of one bar, as the price source names it.
#[derive(Clone, Copy, Debug, PartialEq, Eq, Structural)]
pub enum Timeframe {
    Minute1,
    Minute5,
    Minute15,
    Minute30,
    Hour1,
    Day1,
    Week1,
    Month1,
}

impl Timeframe {
    /// The text that stands for the timeframe in a request.
    pub open spec fn label(self) -> Seq<char> {
        match self {
            Timeframe::Minute1 => "1Min"@,
            Timeframe::Minute5 => "5Min"@,
            Timeframe::Minute15 => "15Min"@,
            Timeframe::Minute30 => "30Min"@,
            Timeframe::Hour1 => "1Hour"@,
            Timeframe::Day1 => "1Day"@,
            Timeframe::Week1 => "1Week"@,
            Timeframe::Month1 => "1Month"@,
        }
    }

    /// The text that stands for the timeframe in a request.
    pub fn as_str(&self) -> (s: &'static str)
        ensures
            s@ == self.label(),
    {
        match self {
            Timeframe::Minute1 => "1Min",
            Timeframe::Minute5 => "5Min",
            Timeframe::Minute15 => "15Min",
            Timeframe::Minute30 => "30Min",
            Timeframe::Hour1 => "1Hour",
            Timeframe::Day1 => "1Day",
            Timeframe::Week1 => "1Week",
            Timeframe::Month1 => "1Month",
        }
    }
}

} // verus!
