//! Candle period markers.

use vstd::prelude::*;

verus! {

/// A period size known at the type level, measured in milliseconds.
pub trait Period: Sized {
    /// How many milliseconds the period spans.
    spec fn duration_ms_spec() -> int;

    /// The period's length in milliseconds.
    fn to_duration_ms() -> (r: i64)
        ensures
            r == Self::duration_ms_spec(),
            r >= 1,
    ;
}

/// A one-second period.
#[derive(Default, Debug, Clone, Copy)]
pub struct Second;

impl Period for Second {
    open spec fn duration_ms_spec() -> int {
        1000
    }

    fn to_duration_ms() -> (r: i64) {
        1000
    }
}

/// A one-minute period.
#[derive(Default, Debug, Clone, Copy)]
pub struct Minute;

impl Period for Minute {
    open spec fn duration_ms_spec() -> int {
        60000
    }

    fn to_duration_ms() -> (r: i64) {
        60000
    }
}

/// A one-hour period.
#[derive(Default, Debug, Clone, Copy)]
pub struct Hour;

impl Period for Hour {
    open spec fn duration_ms_spec() -> int {
        3600000
    }

    fn to_duration_ms() -> (r: i64) {
        3600000
    }
}

/// A one-day period.
#[derive(Default, Debug, Clone, Copy)]
pub struct Day;

impl Period for Day {
    open spec fn duration_ms_spec() -> int {
        86400000
    }

    fn to_duration_ms() -> (r: i64) {
        86400000
    }
}

} // verus!
