//! Heartbeat envelopes.

use vstd::prelude::*;

verus! {

/// A heartbeat message wrapping the data the feed sent along with it.
#[derive(Clone, Copy, Debug)]
pub struct Heartbeat<D> {
    pub data: D,
}

} // verus!
