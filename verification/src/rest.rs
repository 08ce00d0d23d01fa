//! Query parameters for the exchange's public REST endpoints.
//!
//! These are plain value objects; assembling them into URLs and
//! carrying them over the network sits with the I/O layer around the
//! library.

use vstd::prelude::*;
use crate::decimal::Decimal;
use crate::symbol::{symbol_code, Symbol};

verus! {

/// How many levels of a book side to request: all of them, or an exact
/// positive count.
#[derive(Clone, Copy, Debug)]
pub enum Limit {
    FullBook,
    Exact(u32),
}

/// The wire encoding of a limit: `0` asks for the full book.
pub open spec fn limit_code(l: Limit) -> u32 {
    match l {
        Limit::FullBook => 0,
        Limit::Exact(n) => n,
    }
}

impl Limit {
    /// A full book is well-formed; an exact count must be positive
    /// (zero is the full-book encoding on the wire).
    pub open spec fn wf(self) -> bool {
        self matches Limit::Exact(n) ==> n > 0
    }

    /// The wire encoding: `0` asks for the full book.
    pub fn as_u32(self) -> (r: u32)
        ensures
            r == limit_code(self),
    {
        match self {
            Limit::FullBook => 0,
            Limit::Exact(n) => n,
        }
    }
}

/// A query parameter's value, as the plain datum the wire encoding is
/// produced from: the I/O layer formats it.
#[derive(Clone, Copy, Debug, PartialEq, Eq, Structural)]
pub enum QueryValue {
    Unsigned(u32),
    Timestamp(i64),
    Flag(bool),
}

/// Parameters of a book snapshot request.
#[derive(Clone, Copy, Debug)]
pub struct OrderBookHttpRequest {
    pub symbol: Symbol,
    pub bids_limit: Option<Limit>,
    pub asks_limit: Option<Limit>,
}

impl OrderBookHttpRequest {
    /// The URL path of the book snapshot endpoint for this request.
    pub fn path_segments(&self) -> (r: Vec<String>)
        ensures
            r@.len() == 3,
            r@[0]@ == "v1"@,
            r@[1]@ == "book"@,
            r@[2]@ == symbol_code(self.symbol),
    {
        let mut r: Vec<String> = Vec::new();
        r.push("v1".to_owned());
        r.push("book".to_owned());
        r.push(self.symbol.as_str().to_owned());
        r
    }

    /// The query pairs of the request: only the limits that were set,
    /// bids before asks, each as its name and wire value.
    pub fn query_pairs(&self) -> (r: Vec<(&'static str, QueryValue)>)
        ensures
            r@.len() == (if self.bids_limit is Some { 1int } else { 0int }) + (
            if self.asks_limit is Some { 1int } else { 0int }),
            self.bids_limit matches Some(b) ==> r@[0].0@ == "limit_bids"@ && r@[0].1
                == QueryValue::Unsigned(limit_code(b)),
            self.asks_limit matches Some(a) ==> {
                let i = if self.bids_limit is Some { 1int } else { 0int };
                r@[i].0@ == "limit_asks"@ && r@[i].1 == QueryValue::Unsigned(limit_code(a))
            },
    {
        let mut r: Vec<(&'static str, QueryValue)> = Vec::new();
        if let Some(b) = self.bids_limit {
            r.push(("limit_bids", QueryValue::Unsigned(b.as_u32())));
        }
        if let Some(a) = self.asks_limit {
            r.push(("limit_asks", QueryValue::Unsigned(a.as_u32())));
        }
        r
    }
}

/// The candle resolutions the candles endpoint offers.
#[derive(Clone, Copy, Debug, PartialEq, Eq, Hash, Structural)]
pub enum TimeRange {
    Minute1,
    Minute5,
    Minute15,
    Minute30,
    Hour1,
    Hour6,
    Day1,
}

/// The endpoint's code for a candle resolution.
pub open spec fn time_range_code(t: TimeRange) -> Seq<char> {
    match t {
        TimeRange::Minute1 => "1m"@,
        TimeRange::Minute5 => "5m"@,
        TimeRange::Minute15 => "15m"@,
        TimeRange::Minute30 => "30m"@,
        TimeRange::Hour1 => "1h"@,
        TimeRange::Hour6 => "6h"@,
        TimeRange::Day1 => "1day"@,
    }
}

impl TimeRange {
    /// The endpoint's code for this resolution.
    pub fn as_str(&self) -> (r: &'static str)
        ensures
            r@ == time_range_code(*self),
    {
        match self {
            TimeRange::Minute1 => "1m",
            TimeRange::Minute5 => "5m",
            TimeRange::Minute15 => "15m",
            TimeRange::Minute30 => "30m",
            TimeRange::Hour1 => "1h",
            TimeRange::Hour6 => "6h",
            TimeRange::Day1 => "1day",
        }
    }
}

/// Parameters of a candle history request.
#[derive(Clone, Copy, Debug)]
pub struct CandleHttpRequest {
    pub symbol: Symbol,
    pub time_range: TimeRange,
}

impl CandleHttpRequest {
    /// The URL path of the candles endpoint for this request.
    pub fn path_segments(&self) -> (r: Vec<String>)
        ensures
            r@.len() == 4,
            r@[0]@ == "v2"@,
            r@[1]@ == "candles"@,
            r@[2]@ == symbol_code(self.symbol),
            r@[3]@ == time_range_code(self.time_range),
    {
        let mut r: Vec<String> = Vec::new();
        r.push("v2".to_owned());
        r.push("candles".to_owned());
        r.push(self.symbol.as_str().to_owned());
        r.push(self.time_range.as_str().to_owned());
        r
    }
}

/// Parameters of the price feed request (it takes none).
#[derive(Clone, Copy, Debug)]
pub struct PriceFeedsHttpRequest;

impl PriceFeedsHttpRequest {
    /// The URL path of the price feed endpoint.
    pub fn path_segments(&self) -> (r: Vec<String>)
        ensures
            r@.len() == 2,
            r@[0]@ == "v1"@,
            r@[1]@ == "pricefeed"@,
    {
        let mut r: Vec<String> = Vec::new();
        r.push("v1".to_owned());
        r.push("pricefeed".to_owned());
        r
    }
}

/// How a historical trade was struck.
#[derive(Clone, Copy, Debug, PartialEq, Eq, Structural)]
pub enum TradeType {
    Buy,
    Sell,
    Auction,
    Block,
}

/// The exchange marker carried on every historical trade record.
#[derive(Clone, Copy, Debug)]
pub struct Gemini;

/// Parameters of a trade history request; times are milliseconds.
#[derive(Clone, Copy, Debug)]
pub struct TradeHistoryHttpRequest {
    pub symbol: Symbol,
    pub timestamp_ms: Option<i64>,
    pub limit_trades: Option<u32>,
    pub include_breaks: Option<bool>,
}

impl TradeHistoryHttpRequest {
    /// The URL path of the trade history endpoint for this request.
    pub fn path_segments(&self) -> (r: Vec<String>)
        ensures
            r@.len() == 3,
            r@[0]@ == "v1"@,
            r@[1]@ == "trades"@,
            r@[2]@ == symbol_code(self.symbol),
    {
        let mut r: Vec<String> = Vec::new();
        r.push("v1".to_owned());
        r.push("trades".to_owned());
        r.push(self.symbol.as_str().to_owned());
        r
    }

    /// The query pairs of the request: only the fields that were set,
    /// in the endpoint's order (timestamp, trade limit, breaks flag).
    pub fn query_pairs(&self) -> (r: Vec<(&'static str, QueryValue)>)
        ensures
            r@.len() == (if self.timestamp_ms is Some { 1int } else { 0int }) + (
            if self.limit_trades is Some { 1int } else { 0int }) + (
            if self.include_breaks is Some { 1int } else { 0int }),
            self.timestamp_ms matches Some(t) ==> r@[0].0@ == "timestamp"@ && r@[0].1
                == QueryValue::Timestamp(t),
            self.limit_trades matches Some(l) ==> {
                let i = if self.timestamp_ms is Some { 1int } else { 0int };
                r@[i].0@ == "limit_trades"@ && r@[i].1 == QueryValue::Unsigned(l)
            },
            self.include_breaks matches Some(b) ==> {
                let i = (if self.timestamp_ms is Some { 1int } else { 0int }) + (
                if self.limit_trades is Some { 1int } else { 0int });
                r@[i].0@ == "include_breaks"@ && r@[i].1 == QueryValue::Flag(b)
            },
    {
        let mut r: Vec<(&'static str, QueryValue)> = Vec::new();
        if let Some(t) = self.timestamp_ms {
            r.push(("timestamp", QueryValue::Timestamp(t)));
        }
        if let Some(l) = self.limit_trades {
            r.push(("limit_trades", QueryValue::Unsigned(l)));
        }
        if let Some(b) = self.include_breaks {
            r.push(("include_breaks", QueryValue::Flag(b)));
        }
        r
    }
}

/// Parameters of a current auction state request.
#[derive(Clone, Copy, Debug)]
pub struct AuctionHttpRequest {
    pub symbol: Symbol,
}

impl AuctionHttpRequest {
    /// The URL path of the auction state endpoint for this request.
    pub fn path_segments(&self) -> (r: Vec<String>)
        ensures
            r@.len() == 2,
            r@[0]@ == "v1"@,
            r@[1]@ == symbol_code(self.symbol),
    {
        let mut r: Vec<String> = Vec::new();
        r.push("v1".to_owned());
        r.push(self.symbol.as_str().to_owned());
        r
    }
}

/// The kind of a historical auction event.
#[derive(Clone, Copy, Debug, PartialEq, Eq, Hash, Structural)]
pub enum EventType {
    Indicative,
    Auction,
}

/// The outcome of a historical auction event.
#[derive(Clone, Copy, Debug)]
pub enum AuctionResult {
    Success { auction_price: Decimal, auction_quantity: Decimal },
    Failure,
}

/// Parameters of an auction history request; times are milliseconds.
#[derive(Clone, Copy, Debug)]
pub struct AuctionHistoryHttpRequest {
    pub symbol: Symbol,
    pub timestamp_ms: Option<i64>,
    pub limit_auction_results: Option<u32>,
    pub include_indicative: Option<bool>,
}

impl AuctionHistoryHttpRequest {
    /// The URL path of the auction history endpoint for this request.
    pub fn path_segments(&self) -> (r: Vec<String>)
        ensures
            r@.len() == 4,
            r@[0]@ == "v1"@,
            r@[1]@ == "auction"@,
            r@[2]@ == symbol_code(self.symbol),
            r@[3]@ == "history"@,
    {
        let mut r: Vec<String> = Vec::new();
        r.push("v1".to_owned());
        r.push("auction".to_owned());
        r.push(self.symbol.as_str().to_owned());
        r.push("history".to_owned());
        r
    }

    /// The query pairs of the request: only the fields that were set,
    /// in the endpoint's order (timestamp, result limit, indicative flag).
    pub fn query_pairs(&self) -> (r: Vec<(&'static str, QueryValue)>)
        ensures
            r@.len() == (if self.timestamp_ms is Some { 1int } else { 0int }) + (
            if self.limit_auction_results is Some { 1int } else { 0int }) + (
            if self.include_indicative is Some { 1int } else { 0int }),
            self.timestamp_ms matches Some(t) ==> r@[0].0@ == "timestamp"@ && r@[0].1
                == QueryValue::Timestamp(t),
            self.limit_auction_results matches Some(l) ==> {
                let i = if self.timestamp_ms is Some { 1int } else { 0int };
                r@[i].0@ == "limit_auction_results"@ && r@[i].1 == QueryValue::Unsigned(l)
            },
            self.include_indicative matches Some(b) ==> {
                let i = (if self.timestamp_ms is Some { 1int } else { 0int }) + (
                if self.limit_auction_results is Some { 1int } else { 0int });
                r@[i].0@ == "include_indicative"@ && r@[i].1 == QueryValue::Flag(b)
            },
    {
        let mut r: Vec<(&'static str, QueryValue)> = Vec::new();
        if let Some(t) = self.timestamp_ms {
            r.push(("timestamp", QueryValue::Timestamp(t)));
        }
        if let Some(l) = self.limit_auction_results {
            r.push(("limit_auction_results", QueryValue::Unsigned(l)));
        }
        if let Some(b) = self.include_indicative {
            r.push(("include_indicative", QueryValue::Flag(b)));
        }
        r
    }
}

} // verus!
