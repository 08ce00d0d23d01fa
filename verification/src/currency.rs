//! Currency markers.

use vstd::prelude::*;

verus! {

/// A marker with a fixed lower-case wire code.
pub trait StrLike: Sized {
    /// The marker's code on the wire.
    spec fn code_spec(&self) -> Seq<char>;

    /// The marker's code on the wire.
    fn code(&self) -> (r: &'static str)
        ensures
            r@ == self.code_spec(),
    ;
}

/// A currency prices can be quoted in.
pub trait Price: StrLike {
}

/// A currency quantities can be counted in.
pub trait Quantity: StrLike {
}

/// The United States dollar.
#[derive(Clone, Copy, Debug)]
pub struct USDollar;

impl StrLike for USDollar {
    open spec fn code_spec(&self) -> Seq<char> {
        "usd"@
    }

    fn code(&self) -> (r: &'static str) {
        "usd"
    }
}

impl Quantity for USDollar {
}

/// Bitcoin.
#[derive(Clone, Copy, Debug)]
pub struct Bitcoin;

impl StrLike for Bitcoin {
    open spec fn code_spec(&self) -> Seq<char> {
        "btc"@
    }

    fn code(&self) -> (r: &'static str) {
        "btc"
    }
}

impl Quantity for Bitcoin {
}

impl Price for Bitcoin {
}

/// Ether.
#[derive(Clone, Copy, Debug)]
pub struct Ethereum;

impl StrLike for Ethereum {
    open spec fn code_spec(&self) -> Seq<char> {
        "eth"@
    }

    fn code(&self) -> (r: &'static str) {
        "eth"
    }
}

impl Quantity for Ethereum {
}

impl Price for Ethereum {
}

} // verus!
