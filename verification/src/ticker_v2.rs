//! The second-generation ticker endpoint's value objects.

use vstd::prelude::*;
use crate::decimal::Decimal;
use crate::symbol::{symbol_code, Symbol};

verus! {

/// A day's summary for one symbol: the last 24 hours' open, high, low
/// and close, together with the current best bid and offer.
#[derive(Clone, Debug)]
pub struct Ticker {
    pub symbol: Symbol,
    pub open: Decimal,
    pub high: Decimal,
    pub low: Decimal,
    pub close: Decimal,
    pub changes: Vec<Decimal>,
    pub bid: Decimal,
    pub ask: Decimal,
}

/// Parameters of a second-generation ticker request.
#[derive(Clone, Copy, Debug)]
pub struct TickerHttpRequest {
    pub symbol: Symbol,
}

impl TickerHttpRequest {
    /// The URL path of the second-generation ticker endpoint.
    pub fn path_segments(&self) -> (r: Vec<String>)
        ensures
            r@.len() == 3,
            r@[0]@ == "v2"@,
            r@[1]@ == "ticker"@,
            r@[2]@ == symbol_code(self.symbol),
    {
        let mut r: Vec<String> = Vec::new();
        r.push("v2".to_owned());
        r.push("ticker".to_owned());
        r.push(self.symbol.as_str().to_owned());
        r
    }
}

} // verus!
