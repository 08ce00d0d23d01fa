//! Shared value objects.

use vstd::prelude::*;
use crate::decimal::Decimal;

verus! {

/// One candle: a time bucket's open, high, low and close prices and
/// traded volume. The time is a millisecond timestamp.
#[derive(Clone, Copy, Debug)]
pub struct Candle {
    pub time_ms: i64,
    pub open: Decimal,
    pub high: Decimal,
    pub low: Decimal,
    pub close: Decimal,
    pub volume: Decimal,
}

impl Candle {
    pub open spec fn wf(self) -> bool {
        &&& self.open.wf()
        &&& self.high.wf()
        &&& self.low.wf()
        &&& self.close.wf()
        &&& self.volume.wf()
    }
}

} // verus!
