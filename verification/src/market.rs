//! Normalized market-data feed events.
//!
//! These are the value objects a feed-decoding collaborator hands the
//! core: price-level changes, trades and auction events, with every
//! monetary field an exact decimal and every time a millisecond
//! timestamp.

use vstd::prelude::*;
use crate::decimal::Decimal;
use crate::symbol::{symbol_code, Symbol};

verus! {

/// The side of the book an event touches.
#[derive(Clone, Copy, Debug, PartialEq, Eq, Structural)]
pub enum Side {
    Bid,
    Ask,
}

/// Why a price level changed.
#[derive(Clone, Copy, Debug, PartialEq, Eq, Structural)]
pub enum Reason {
    Place,
    Trade,
    Cancel,
    Initial,
}

/// One change to a price level: the quantity remaining at `price`
/// after the change, and the delta that produced it.
#[derive(Clone, Copy, Debug)]
pub struct Change {
    pub price: Decimal,
    pub side: Side,
    pub reason: Reason,
    pub remaining: Decimal,
    pub delta: Decimal,
}

impl Change {
    pub open spec fn wf(self) -> bool {
        self.price.wf() && self.remaining.wf() && self.delta.wf()
    }
}

/// The side of the book the maker of a trade rested on, or `Auction`
/// for a trade struck in an auction.
#[derive(Clone, Copy, Debug, PartialEq, Eq, Structural)]
pub enum MakerSide {
    Bid,
    Ask,
    Auction,
}

/// The common body of a trade event.
#[derive(Clone, Copy, Debug)]
pub struct TradeData {
    pub tid: u64,
    pub price: Decimal,
    pub amount: Decimal,
}

impl TradeData {
    pub open spec fn wf(self) -> bool {
        self.price.wf() && self.amount.wf()
    }
}

/// An executed trade.
#[derive(Clone, Copy, Debug)]
pub struct Trade {
    pub data: TradeData,
    pub maker_side: MakerSide,
}

/// A block trade reported outside the continuous book.
#[derive(Clone, Copy, Debug)]
pub struct BlockTrade {
    pub data: TradeData,
}

/// The opening announcement of an auction: its schedule, in
/// millisecond timestamps.
#[derive(Clone, Copy, Debug)]
pub struct AuctionOpen {
    pub auction_open_ms: i64,
    pub auction_time_ms: i64,
    pub first_indicative_ms: i64,
    pub last_cancel_time_ms: i64,
}

/// The common body of an auction event.
#[derive(Clone, Copy, Debug)]
pub struct AuctionData {
    pub eid: u32,
    pub timestamp_ms: i64,
    pub highest_bid_price: Option<Decimal>,
    pub lowest_ask_price: Option<Decimal>,
    pub collar_price: Decimal,
}

/// The outcome of publishing an indicative price.
#[derive(Clone, Copy, Debug)]
pub enum AuctionIndicativeResult {
    Success { indicative_price: Decimal },
    Failure,
}

/// An indicative auction price publication.
#[derive(Clone, Copy, Debug)]
pub struct AuctionIndicative {
    pub result: AuctionIndicativeResult,
    pub indicative_quantity: Decimal,
    pub data: AuctionData,
}

/// The outcome of running an auction.
#[derive(Clone, Copy, Debug)]
pub enum AuctionOutcomeResult {
    Success { auction_price: Decimal, auction_quantity: Decimal },
    Failure,
}

/// The result event of an auction run.
#[derive(Clone, Copy, Debug)]
pub struct AuctionOutcome {
    pub result: AuctionOutcomeResult,
    pub data: AuctionData,
}

/// Any auction event.
#[derive(Clone, Copy, Debug)]
pub enum Auction {
    Open(AuctionOpen),
    Indicative(AuctionIndicative),
    Outcome(AuctionOutcome),
}

/// One event in a market-data update.
#[derive(Clone, Copy, Debug)]
pub enum Event {
    Trade(Trade),
    Change(Change),
    BlockTrade(BlockTrade),
    Auction(Auction),
}

/// A batch of events sharing one socket sequence number.
#[derive(Clone, Debug)]
pub struct Update {
    pub socket_sequence: u32,
    pub event_id: u32,
    pub events: Vec<Event>,
}

/// A market-data message from the feed.
#[derive(Clone, Debug)]
pub enum Response {
    Update(Update),
}

/// The subscription choices for a market-data stream.
#[derive(Clone, Copy, Debug)]
pub struct MarketWssRequest {
    pub symbol: Symbol,
    pub heartbeat: bool,
    pub top_of_book: bool,
    pub bids: bool,
    pub offers: bool,
    pub trades: bool,
    pub auctions: bool,
}

impl MarketWssRequest {
    /// The URL path of the market-data stream for this request.
    pub fn path_segments(&self) -> (r: Vec<String>)
        ensures
            r@.len() == 3,
            r@[0]@ == "v1"@,
            r@[1]@ == "marketdata"@,
            r@[2]@ == symbol_code(self.symbol),
    {
        let mut r: Vec<String> = Vec::new();
        r.push("v1".to_owned());
        r.push("marketdata".to_owned());
        r.push(self.symbol.as_str().to_owned());
        r
    }

    /// The query flags of the stream request, each with its name, in
    /// the order the endpoint documents them.
    pub fn query_flags(&self) -> (r: Vec<(&'static str, bool)>)
        ensures
            r@.len() == 6,
            r@[0].0@ == "heartbeat"@ && r@[0].1 == self.heartbeat,
            r@[1].0@ == "top_of_book"@ && r@[1].1 == self.top_of_book,
            r@[2].0@ == "bids"@ && r@[2].1 == self.bids,
            r@[3].0@ == "offers"@ && r@[3].1 == self.offers,
            r@[4].0@ == "trades"@ && r@[4].1 == self.trades,
            r@[5].0@ == "auctions"@ && r@[5].1 == self.auctions,
    {
        let mut r: Vec<(&'static str, bool)> = Vec::new();
        r.push(("heartbeat", self.heartbeat));
        r.push(("top_of_book", self.top_of_book));
        r.push(("bids", self.bids));
        r.push(("offers", self.offers));
        r.push(("trades", self.trades));
        r.push(("auctions", self.auctions));
        r
    }
}

} // verus!
