use arbitrage_scanner::arbitrage::utils::{percent, taker_fee};
use arbitrage_scanner::decimal::{checked_add, checked_div, checked_mul, checked_sub, lt, min, parse, Dec};
use arbitrage_scanner::exchange::Exchange;
use rust_decimal::prelude::FromPrimitive;
use rust_decimal::Decimal;

fn dec(d: Dec) -> Decimal {
    Decimal::from_i128_with_scale(d.mantissa, d.scale)
}

#[test]
fn arithmetic() {
    let a = Dec::new(15, 1);
    let b = Dec::new(2, 0);
    assert_eq!(dec(checked_mul(a, b).unwrap()), Decimal::new(3, 0));
    assert_eq!(dec(checked_add(a, b).unwrap()), Decimal::new(35, 1));
    assert_eq!(dec(checked_sub(a, b).unwrap()), Decimal::new(-5, 1));
    assert_eq!(dec(checked_div(b, a).unwrap()), Decimal::new(2, 0) / Decimal::new(15, 1));
}

#[test]
fn division_by_zero_fails() {
    assert_eq!(checked_div(Dec::new(1, 0), Dec::new(0, 3)), None);
}

#[test]
fn overflow_fails() {
    let max = Dec::new(0xFFFF_FFFF_FFFF_FFFF_FFFF_FFFF, 0);
    assert_eq!(checked_add(max, Dec::new(1, 0)), None);
    assert_eq!(checked_mul(max, Dec::new(2, 0)), None);
}

#[test]
fn comparison_is_numeric() {
    assert!(lt(Dec::new(1, 1), Dec::new(2, 1)));
    assert!(!lt(Dec::new(10, 1), Dec::new(1, 0)));
    assert!(lt(Dec::new(-5, 0), Dec::new(1, 28)));
}

#[test]
fn min_keeps_first_on_ties() {
    assert_eq!(min(Dec::new(10, 1), Dec::new(1, 0)), Dec::new(10, 1));
    assert_eq!(min(Dec::new(3, 0), Dec::new(2, 0)), Dec::new(2, 0));
    assert_eq!(min(Dec::new(2, 0), Dec::new(3, 0)), Dec::new(2, 0));
}

#[test]
fn parsing() {
    assert_eq!(parse("1.23"), Some(Dec::new(123, 2)));
    assert_eq!(parse("-0.5"), Some(Dec::new(-5, 1)));
    assert_eq!(parse("42"), Some(Dec::new(42, 0)));
    assert_eq!(parse("abc"), None);
    assert_eq!(parse(""), None);
}

#[test]
fn taker_fees_match_float_fractions() {
    let cases = [
        (Exchange::Bybit, 0.1),
        (Exchange::Gate, 0.09),
        (Exchange::Bitget, 0.1),
        (Exchange::Binance, 0.1),
        (Exchange::Htx, 0.2),
        (Exchange::Okx, 0.05),
        (Exchange::Mexc, 0.05),
    ];
    for (ex, pct) in cases {
        let expected = Decimal::from_f64(pct / 100.0).unwrap();
        assert_eq!(dec(taker_fee(&ex)), expected);
    }
    assert_eq!(taker_fee(&Exchange::Gate), Dec::new(9, 4));
}

#[test]
fn percent_multiplies_by_hundred() {
    assert_eq!(dec(percent(Dec::new(125, 4)).unwrap()), Decimal::new(125, 2));
    assert_eq!(percent(Dec::new(0xFFFF_FFFF_FFFF_FFFF_FFFF_FFFF, 0)), None);
}

#[test]
fn differences_and_quotients_keep_their_signs() {
    let values = [
        Dec::new(0, 0),
        Dec::new(1, 28),
        Dec::new(-1, 28),
        Dec::new(25, 1),
        Dec::new(-7, 0),
        Dec::new(79228162514264337593543950335, 0),
        Dec::new(-79228162514264337593543950335, 3),
        Dec::new(123456789, 4),
    ];
    for &a in &values {
        for &b in &values {
            if let Some(d) = checked_sub(a, b) {
                assert_eq!(dec(d).cmp(&Decimal::ZERO), dec(a).cmp(&dec(b)), "{a:?} - {b:?}");
            }
            if let Some(q) = checked_div(a, b) {
                let q = dec(q);
                if q > Decimal::ZERO {
                    assert!((dec(a) > Decimal::ZERO) == (dec(b) > Decimal::ZERO) && !dec(a).is_zero());
                }
                if q < Decimal::ZERO {
                    assert!((dec(a) > Decimal::ZERO) != (dec(b) > Decimal::ZERO) && !dec(a).is_zero());
                }
            }
        }
    }
}
