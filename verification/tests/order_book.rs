use market_core::decimal::Decimal;
use market_core::order_book::{Order, OrderBook, OrderData};

fn dec(mantissa: i64, scale: u32) -> Decimal {
    Decimal::new(mantissa, scale)
}

fn order(price: Decimal, qty: Decimal) -> OrderData {
    OrderData::new(price, qty)
}

#[test]
fn test_order_book() {
    let mut book = OrderBook::new();

    book.update(Order::Ask(order(dec(10, 1), dec(10, 1))));
    assert_eq!(1, book.asks_len());

    book.update(Order::Ask(order(dec(20, 1), dec(20, 1))));
    assert_eq!(2, book.asks_len());

    book.update(Order::Ask(order(dec(20, 1), dec(10, 1))));
    assert_eq!(2, book.asks_len());

    book.update(Order::Ask(order(dec(20, 1), dec(0, 0))));
    assert_eq!(1, book.asks_len());
}

#[test]
fn test_order_book_top_of_book() {
    // Push (Ask, 1.0, 1.0) then (Ask, 2.0, 2.0) into a fresh book: two
    // ask levels, and the top of the ask side is the 1.0 level.
    let mut book = OrderBook::new();
    book.update(Order::Ask(order(dec(10, 1), dec(10, 1))));
    book.update(Order::Ask(order(dec(20, 1), dec(20, 1))));

    assert_eq!(2, book.asks_len());
    let top = book.top(Order::Ask(())).unwrap();
    assert!(top.price.0.eq_value(&dec(10, 1)));
    assert!(top.quantity.0.eq_value(&dec(10, 1)));
}

#[test]
fn test_order_book_delete_level() {
    // Continue the two-level ask book with (Ask, 2.0, 0): one level is
    // left and only price 1.0 remains.
    let mut book = OrderBook::new();
    book.update(Order::Ask(order(dec(10, 1), dec(10, 1))));
    book.update(Order::Ask(order(dec(20, 1), dec(20, 1))));
    book.update(Order::Ask(order(dec(20, 1), dec(0, 0))));

    assert_eq!(1, book.asks_len());
    let levels = book.iter_asks();
    assert_eq!(1, levels.len());
    assert!(levels[0].price.0.eq_value(&dec(10, 1)));
}

#[test]
fn test_order_book_upsert_then_delete() {
    // After an upsert with a positive quantity followed by an update
    // with quantity zero at the same price, the level is absent.
    let mut book = OrderBook::new();
    book.update(Order::Bid(order(dec(35, 1), dec(7, 0))));
    book.update(Order::Bid(order(dec(42, 1), dec(9, 0))));
    book.update(Order::Bid(order(dec(42, 1), dec(0, 0))));

    assert_eq!(1, book.bids_len());
    for level in book.iter_bids() {
        assert!(!level.price.0.eq_value(&dec(42, 1)));
    }
}

#[test]
fn test_order_book_ordering() {
    let mut book = OrderBook::new();
    for (m, q) in [(50i64, 1i64), (10, 2), (30, 3), (20, 4), (40, 5)] {
        book.update(Order::Ask(order(dec(m, 1), dec(q, 0))));
        book.update(Order::Bid(order(dec(m, 1), dec(q, 0))));
    }

    // Asks: strictly increasing prices (best ask first).
    let asks = book.iter_asks();
    assert_eq!(5, asks.len());
    for w in asks.windows(2) {
        assert!(w[0].price.0.lt(&w[1].price.0));
    }
    assert!(asks[0].price.0.eq_value(&dec(10, 1)));

    // Bids: strictly decreasing prices (best bid first).
    let bids = book.iter_bids();
    assert_eq!(5, bids.len());
    for w in bids.windows(2) {
        assert!(w[1].price.0.lt(&w[0].price.0));
    }
    assert!(bids[0].price.0.eq_value(&dec(50, 1)));

    let best_bid = book.top(Order::Bid(())).unwrap();
    assert!(best_bid.price.0.eq_value(&dec(50, 1)));
}

#[test]
fn test_order_book_replace_quantity() {
    let mut book = OrderBook::new();
    book.update_asks(order(dec(15, 1), dec(3, 0)));
    book.update_asks(order(dec(15, 1), dec(8, 0)));

    assert_eq!(1, book.asks_len());
    let top = book.top(Order::Ask(())).unwrap();
    assert!(top.quantity.0.eq_value(&dec(8, 0)));
}

#[test]
fn test_order_book_same_value_different_scale() {
    // 1.20 and 1.2 denote the same price and hit the same level.
    let mut book = OrderBook::new();
    book.update_bids(order(dec(120, 2), dec(1, 0)));
    book.update_bids(order(dec(12, 1), dec(2, 0)));

    assert_eq!(1, book.bids_len());
    let top = book.top(Order::Bid(())).unwrap();
    assert!(top.quantity.0.eq_value(&dec(2, 0)));
}

#[test]
fn test_order_book_levels_limit() {
    let mut book = OrderBook::new();
    for m in [10i64, 20, 30, 40] {
        book.update_asks(order(dec(m, 1), dec(1, 0)));
    }
    let top_two = book.levels(Order::Ask(()), 2);
    assert_eq!(2, top_two.len());
    assert!(top_two[0].price.0.eq_value(&dec(10, 1)));
    assert!(top_two[1].price.0.eq_value(&dec(20, 1)));

    let all = book.levels(Order::Ask(()), 100);
    assert_eq!(4, all.len());

    assert!(book.top(Order::Bid(())).is_none());
    assert_eq!(0, book.levels(Order::Bid(()), 10).len());
}

#[test]
fn test_order_book_default_is_empty() {
    let book = OrderBook::default();
    assert_eq!(0, book.asks_len());
    assert_eq!(0, book.bids_len());
}
