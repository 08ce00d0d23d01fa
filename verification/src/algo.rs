//! Trading-algorithm plumbing.

use vstd::prelude::*;

verus! {

/// Names the data feed a trading algorithm consumes.
pub trait AlgorithmData {
    type Data;
}

/// A trading algorithm: it reacts to each datum of its feed in turn.
pub trait Algorithm: AlgorithmData {
    fn on(&mut self, data: &Self::Data);
}

/// A minimal algorithm following one instrument.
pub struct MyAlgo;

/// The data feed `MyAlgo` consumes.
pub struct MyAlgoAlgorithmData;

impl MyAlgoAlgorithmData {
    #[allow(dead_code)]
    fn get_ethusd(&self) {
    }
}

impl AlgorithmData for MyAlgo {
    type Data = MyAlgoAlgorithmData;
}

impl Algorithm for MyAlgo {
    fn on(&mut self, data: &Self::Data) {
        data.get_ethusd();
    }
}

} // verus!
