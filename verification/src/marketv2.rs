//! Normalized events of the second-generation market-data feed.

use vstd::prelude::*;
use crate::decimal::Decimal;
use crate::heartbeat::Heartbeat;
use crate::symbol::Symbol;

verus! {

/// Which side initiated an event.
#[derive(Clone, Copy, Debug, PartialEq, Eq, Structural)]
pub enum Side {
    Buy,
    Sell,
}

/// The channels a client can subscribe to.
#[derive(Clone, Copy, Debug, PartialEq, Eq, Structural)]
pub enum SubscriptionType {
    L2,
    Candles1m,
    Candles5m,
    Candles15m,
    Candles30m,
    Candles1h,
    Candles6h,
    Candles1d,
}

/// One channel together with the symbols to follow on it.
#[derive(Clone, Debug)]
pub struct Subscription {
    pub name: SubscriptionType,
    pub symbols: Vec<Symbol>,
}

/// A request to open the named subscriptions.
#[derive(Clone, Debug)]
pub struct Subscribe {
    pub subscriptions: Vec<Subscription>,
}

/// A request to close the named subscriptions.
#[derive(Clone, Debug)]
pub struct Unsubscribe {
    pub subscriptions: Vec<Subscription>,
}

/// The payload of a heartbeat: when it was sent, in milliseconds.
#[derive(Clone, Copy, Debug)]
pub struct HeartbeatData {
    pub timestamp_ms: i64,
}

/// A feed message: either a heartbeat or channel data.
#[derive(Clone, Debug)]
pub enum Response<D> {
    Heartbeat(Heartbeat<HeartbeatData>),
    Data(D),
}

/// Whether a level-two change adds to the buy or the sell side.
#[derive(Clone, Copy, Debug, PartialEq, Eq, Structural)]
pub enum ChangeType {
    Buy,
    Sell,
}

/// One price level change: the level and the quantity now resting there.
#[derive(Clone, Copy, Debug)]
pub struct ChangeData {
    pub price_level: Decimal,
    pub quantity: Decimal,
}

impl ChangeData {
    pub open spec fn wf(self) -> bool {
        self.price_level.wf() && self.quantity.wf()
    }
}

/// A level-two book change on one side.
#[derive(Clone, Copy, Debug)]
pub enum Change {
    Buy(ChangeData),
    Sell(ChangeData),
}

/// The body shared by initial and incremental level-two messages.
#[derive(Clone, Debug)]
pub struct L2Data {
    pub symbol: Symbol,
    pub changes: Vec<Change>,
}

/// One executed trade on the second-generation feed.
#[derive(Clone, Copy, Debug)]
pub struct Trade {
    pub symbol: Symbol,
    pub event_id: u64,
    pub timestamp_ms: i64,
    pub price: Decimal,
    pub quantity: Decimal,
    pub side: Side,
}

impl Trade {
    pub open spec fn wf(self) -> bool {
        self.price.wf() && self.quantity.wf()
    }
}

/// The first level-two message: the whole existing book state, along
/// with recent trades and auction events.
#[derive(Clone, Debug)]
pub struct L2Initial {
    pub data: L2Data,
    pub trades: Vec<Trade>,
}

/// An incremental level-two update.
#[derive(Clone, Debug)]
pub struct L2Updates {
    pub data: L2Data,
}

/// Which candle series an update belongs to.
#[derive(Clone, Copy, Debug, PartialEq, Eq, Structural)]
pub enum CandleType {
    Minute1,
    Minute5,
    Minute15,
    Minute30,
    Hour1,
    Hour6,
    Day1,
}

} // verus!
