use market_core::decimal::Decimal;
use market_core::error::error_code_reason;
use market_core::symbol::Symbol;

fn dec(mantissa: i64, scale: u32) -> Decimal {
    Decimal::new(mantissa, scale)
}

#[test]
fn test_decimal_value_equality_across_scales() {
    assert!(dec(12, 1).eq_value(&dec(120, 2)));
    assert!(dec(1, 0).eq_value(&dec(1000000, 6)));
    assert!(!dec(12, 1).eq_value(&dec(121, 2)));
}

#[test]
fn test_decimal_ordering() {
    assert!(dec(1, 0).lt(&dec(11, 1)));
    assert!(dec(109, 2).lt(&dec(11, 1)));
    assert!(!dec(11, 1).lt(&dec(11, 1)));
    assert!(dec(-5, 0).lt(&dec(0, 0)));
    assert!(dec(11, 1).le(&dec(11, 1)));
    assert!(dec(999999, 6).lt(&dec(1, 0)));
}

#[test]
fn test_decimal_zero_and_sign() {
    assert!(dec(0, 0).is_zero());
    assert!(dec(0, 7).is_zero());
    assert!(!dec(1, 7).is_zero());
    assert!(dec(-1, 3).is_negative());
    assert!(!dec(0, 3).is_negative());
    assert!(!dec(1, 3).is_negative());
}

#[test]
fn test_decimal_accessors() {
    let d = dec(12345, 3);
    assert_eq!(12345, d.mantissa());
    assert_eq!(3, d.scale());
}

#[test]
fn test_decimal_sqrt_floor() {
    assert!(dec(4, 0).sqrt_floor().unwrap().eq_value(&dec(2, 0)));
    assert!(dec(0, 0).sqrt_floor().unwrap().eq_value(&dec(0, 0)));
    assert!(dec(1, 2).sqrt_floor().unwrap().eq_value(&dec(1, 1)));
    assert!(dec(-4, 0).sqrt_floor().is_none());
    let r = dec(3, 0).sqrt_floor().unwrap();
    assert_eq!(1732050, r.mantissa());
    assert_eq!(6, r.scale());
}

#[test]
fn test_error_code_reason() {
    assert_eq!("Request was successful", error_code_reason(200));
    assert_eq!(
        "API entry point has moved, see Location: header. Most likely an http: to https: redirect.",
        error_code_reason(301)
    );
    assert_eq!("Unknown API entry point or Order not found", error_code_reason(404));
    assert_eq!("Insufficient Funds", error_code_reason(406));
    assert_eq!("Rate Limiting was applied", error_code_reason(429));
    assert_eq!("The exchange is down for maintenance", error_code_reason(503));
    assert_eq!("unknown", error_code_reason(999));
    assert_eq!("unknown", error_code_reason(201));
}

#[test]
fn test_symbol_codes() {
    assert_eq!("btcusd", Symbol::BTCUSD.as_str());
    assert_eq!("ethusd", Symbol::ETHUSD.as_str());
    assert_eq!("unknown", Symbol::Unknown.as_str());
    assert_eq!(Symbol::BTCUSD, Symbol::BTCUSD);
    assert_ne!(Symbol::BTCUSD, Symbol::ETHUSD);
}

#[test]
fn test_decimal_exact_addition() {
    // 1.2 + 0.05 == 1.25, exactly, across scales.
    let sum = dec(12, 1).checked_add(&dec(5, 2)).unwrap();
    assert!(sum.eq_value(&dec(125, 2)));

    // 0.1 + 0.2 == 0.3 exactly: no drift.
    let sum = dec(1, 1).checked_add(&dec(2, 1)).unwrap();
    assert!(sum.eq_value(&dec(3, 1)));

    let diff = dec(1, 0).checked_sub(&dec(1, 6)).unwrap();
    assert!(diff.eq_value(&dec(999999, 6)));

    assert!(dec(5, 0).neg().eq_value(&dec(-5, 0)));
}

#[test]
fn test_decimal_addition_overflow() {
    // Two values at the top of the representable range do not wrap:
    // their sum is refused.
    let big = Decimal::new(i64::MAX, 0);
    assert!(big.checked_add(&big).is_none());
    assert!(big.neg().checked_sub(&big).is_none());
}
