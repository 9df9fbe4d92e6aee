//! Candle timeframes of historical data.
use vstd::prelude::*;

verus! {

#[derive(Clone, Copy, Debug, PartialEq, Eq, Structural)]
pub enum Timeframe {
    ONEMINUTE,
    ONEHOUR,
    ONEDAY,
}

pub open spec fn timeframe_code(t: Timeframe) -> Seq<char> {
    match t {
        Timeframe::ONEMINUTE => "1m"@,
        Timeframe::ONEHOUR => "1h"@,
        Timeframe::ONEDAY => "1d"@,
    }
}

impl Timeframe {
    /// The code of the timeframe, e.g. `1m`.
    pub fn code(&self) -> (r: &'static str)
        ensures
            r@ == timeframe_code(*self),
    {
        match self {
            Timeframe::ONEMINUTE => "1m",
            Timeframe::ONEHOUR => "1h",
            Timeframe::ONEDAY => "1d",
        }
    }
}

} // verus!
