//! The first-generation ticker endpoint's value objects.

use vstd::prelude::*;
use crate::symbol::{symbol_code, Symbol};

verus! {

/// The currency a ticker price is quoted in.
#[derive(Clone, Copy, Debug, PartialEq, Eq, Hash, Structural)]
pub enum PriceSymbol {
    USD,
}

/// The currency a ticker volume is counted in.
#[derive(Clone, Copy, Debug, PartialEq, Eq, Hash, Structural)]
pub enum QuantitySymbol {
    BTC,
}

/// A single key-value pair, as the ticker's volume map carries them.
#[derive(Clone, Copy, Debug)]
pub struct Pair<A, B> {
    pub a: A,
    pub b: B,
}

/// Parameters of a first-generation ticker request.
#[derive(Clone, Copy, Debug)]
pub struct TickerHttpRequest {
    pub symbol: Symbol,
}

impl TickerHttpRequest {
    /// The URL path of the first-generation ticker endpoint.
    pub fn path_segments(&self) -> (r: Vec<String>)
        ensures
            r@.len() == 3,
            r@[0]@ == "v1"@,
            r@[1]@ == "pubticker"@,
            r@[2]@ == symbol_code(self.symbol),
    {
        let mut r: Vec<String> = Vec::new();
        r.push("v1".to_owned());
        r.push("pubticker".to_owned());
        r.push(self.symbol.as_str().to_owned());
        r
    }
}

} // verus!
