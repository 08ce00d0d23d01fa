use market_core::market::MarketWssRequest;
use market_core::rest::{AuctionHistoryHttpRequest, AuctionHttpRequest, CandleHttpRequest,
    Limit, OrderBookHttpRequest, PriceFeedsHttpRequest, QueryValue, TimeRange,
    TradeHistoryHttpRequest};
use market_core::symbol::Symbol;
use market_core::ticker_v1;
use market_core::ticker_v2;

#[test]
fn test_book_request_path() {
    let req = OrderBookHttpRequest {
        symbol: Symbol::BTCUSD,
        bids_limit: None,
        asks_limit: None,
    };
    assert_eq!(vec!["v1", "book", "btcusd"], req.path_segments());
}

#[test]
fn test_candle_request_path() {
    let req = CandleHttpRequest { symbol: Symbol::BTCUSD, time_range: TimeRange::Day1 };
    assert_eq!(vec!["v2", "candles", "btcusd", "1day"], req.path_segments());
    let req = CandleHttpRequest { symbol: Symbol::ETHUSD, time_range: TimeRange::Minute15 };
    assert_eq!(vec!["v2", "candles", "ethusd", "15m"], req.path_segments());
}

#[test]
fn test_trade_request_path() {
    let req = TradeHistoryHttpRequest {
        symbol: Symbol::BTCUSD,
        timestamp_ms: None,
        limit_trades: Some(42),
        include_breaks: Some(true),
    };
    assert_eq!(vec!["v1", "trades", "btcusd"], req.path_segments());
}

#[test]
fn test_auction_request_paths() {
    let req = AuctionHttpRequest { symbol: Symbol::ETHUSD };
    assert_eq!(vec!["v1", "ethusd"], req.path_segments());

    let req = AuctionHistoryHttpRequest {
        symbol: Symbol::BTCUSD,
        timestamp_ms: None,
        limit_auction_results: None,
        include_indicative: None,
    };
    assert_eq!(vec!["v1", "auction", "btcusd", "history"], req.path_segments());
}

#[test]
fn test_price_feed_and_ticker_paths() {
    assert_eq!(vec!["v1", "pricefeed"], PriceFeedsHttpRequest.path_segments());
    let v1 = ticker_v1::TickerHttpRequest { symbol: Symbol::BTCUSD };
    assert_eq!(vec!["v1", "pubticker", "btcusd"], v1.path_segments());
    let v2 = ticker_v2::TickerHttpRequest { symbol: Symbol::BTCUSD };
    assert_eq!(vec!["v2", "ticker", "btcusd"], v2.path_segments());
}

#[test]
fn test_market_wss_request() {
    let req = MarketWssRequest {
        symbol: Symbol::BTCUSD,
        heartbeat: true,
        top_of_book: false,
        bids: true,
        offers: true,
        trades: false,
        auctions: false,
    };
    assert_eq!(vec!["v1", "marketdata", "btcusd"], req.path_segments());
    let flags = req.query_flags();
    assert_eq!(("heartbeat", true), flags[0]);
    assert_eq!(("top_of_book", false), flags[1]);
    assert_eq!(("bids", true), flags[2]);
    assert_eq!(("offers", true), flags[3]);
    assert_eq!(("trades", false), flags[4]);
    assert_eq!(("auctions", false), flags[5]);
}

#[test]
fn test_book_request_query_pairs() {
    let mut req = OrderBookHttpRequest {
        symbol: Symbol::BTCUSD,
        bids_limit: None,
        asks_limit: None,
    };
    assert!(req.query_pairs().is_empty());

    req.asks_limit = Some(Limit::FullBook);
    assert_eq!(vec![("limit_asks", QueryValue::Unsigned(0))], req.query_pairs());

    req.bids_limit = Some(Limit::Exact(1));
    req.asks_limit = None;
    assert_eq!(vec![("limit_bids", QueryValue::Unsigned(1))], req.query_pairs());

    req.bids_limit = Some(Limit::Exact(42));
    req.asks_limit = Some(Limit::FullBook);
    assert_eq!(
        vec![
            ("limit_bids", QueryValue::Unsigned(42)),
            ("limit_asks", QueryValue::Unsigned(0)),
        ],
        req.query_pairs()
    );
}

#[test]
fn test_trade_request_query_pairs() {
    let req = TradeHistoryHttpRequest {
        symbol: Symbol::BTCUSD,
        timestamp_ms: None,
        limit_trades: Some(42),
        include_breaks: Some(true),
    };
    assert_eq!(
        vec![
            ("limit_trades", QueryValue::Unsigned(42)),
            ("include_breaks", QueryValue::Flag(true)),
        ],
        req.query_pairs()
    );
}

#[test]
fn test_auction_history_query_pairs() {
    let req = AuctionHistoryHttpRequest {
        symbol: Symbol::ETHUSD,
        timestamp_ms: Some(1471902531225),
        limit_auction_results: None,
        include_indicative: Some(false),
    };
    assert_eq!(
        vec![
            ("timestamp", QueryValue::Timestamp(1471902531225)),
            ("include_indicative", QueryValue::Flag(false)),
        ],
        req.query_pairs()
    );

    let empty = AuctionHistoryHttpRequest {
        symbol: Symbol::ETHUSD,
        timestamp_ms: None,
        limit_auction_results: None,
        include_indicative: None,
    };
    assert!(empty.query_pairs().is_empty());
}
