//! Instrument symbols.

use vstd::prelude::*;

verus! {

/// A traded instrument pair. Feeds may name instruments this library
/// does not know; those normalize to `Unknown` rather than failing.
#[derive(Copy, Clone, Debug, Eq, PartialEq, Hash, Structural)]
pub enum Symbol {
    BTCUSD,
    ETHUSD,
    Unknown,
}

/// The exchange's lower-case code for a symbol.
pub open spec fn symbol_code(s: Symbol) -> Seq<char> {
    match s {
        Symbol::BTCUSD => "btcusd"@,
        Symbol::ETHUSD => "ethusd"@,
        Symbol::Unknown => "unknown"@,
    }
}

impl Symbol {
    /// The exchange's lower-case code for the symbol.
    pub fn as_str(&self) -> (r: &'static str)
        ensures
            r@ == symbol_code(*self),
    {
        match self {
            Symbol::BTCUSD => "btcusd",
            Symbol::ETHUSD => "ethusd",
            Symbol::Unknown => "unknown",
        }
    }
}

} // verus!
