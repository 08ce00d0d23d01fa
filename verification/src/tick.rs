//! A single normalized trade tick.

use vstd::prelude::*;
use crate::decimal::Decimal;

verus! {

/// Which side initiated the trade.
#[derive(Clone, Copy, Debug, PartialEq, Eq, Structural)]
pub enum Side {
    Buy,
    Sell,
}

/// One executed trade: when, at what price, which side, and how much.
/// The time is a millisecond timestamp.
#[derive(Clone, Copy, Debug)]
pub struct Tick {
    pub time_ms: i64,
    pub price: Decimal,
    pub side: Side,
    pub quantity: Decimal,
}

impl Tick {
    pub open spec fn wf(self) -> bool {
        self.price.wf() && self.quantity.wf()
    }
}

} // verus!
