use ledgerkit::currency::{Currency, CurrencyCode};
use ledgerkit::money::Money;

#[test]
fn test_money_display() {
    let m = Money::new(1050, Currency::USD);
    assert_eq!(m.to_string(), "10.50 USD");
}

#[test]
fn test_money_jpy_no_decimals() {
    let m = Money::new(1000, Currency::JPY);
    assert_eq!(m.to_string(), "1000 JPY");
}

#[test]
fn money_display_pads_and_signs() {
    assert_eq!(Money::new(5, Currency::EUR).to_string(), "0.05 EUR");
    assert_eq!(Money::new(-1050, Currency::USD).to_string(), "-10.50 USD");
    // The whole part is rounded toward zero, so its sign is lost below one unit.
    assert_eq!(Money::new(-50, Currency::USD).to_string(), "0.50 USD");
    assert_eq!(Money::new(123456789, Currency::BTC).to_string(), "1.23456789 BTC");
    assert_eq!(Money::new(1, Currency::ETH).to_string(), "0.000000000000000001 ETH");
    assert_eq!(Money::new(-7, Currency::HUF).to_string(), "-7 HUF");
    assert_eq!(Money::new(i64::MIN, Currency::USD).to_string(), "-92233720368547758.08 USD");
    assert_eq!(Money::new(0, Currency::USDT).to_string(), "0.00 USDT");
}

#[test]
fn money_display_with_other_code() {
    let code = CurrencyCode::new("XAU").unwrap();
    assert_eq!(Money::new(250, Currency::Other(code)).to_string(), "2.50 XAU");
}

#[test]
fn money_sign_predicates() {
    let zero = Money::new(0, Currency::USD);
    let pos = Money::new(3, Currency::USD);
    let neg = Money::new(-3, Currency::USD);
    assert!(zero.is_zero() && !zero.is_positive() && !zero.is_negative());
    assert!(pos.is_positive() && !pos.is_zero() && !pos.is_negative());
    assert!(neg.is_negative() && !neg.is_zero() && !neg.is_positive());
    assert_eq!(neg.abs(), pos);
    assert_eq!(pos.abs(), pos);
}

#[test]
fn currency_codes() {
    assert!(CurrencyCode::new("XAU").is_some());
    assert_eq!(CurrencyCode::new("XAU").unwrap().as_str(), "XAU");
    assert!(CurrencyCode::new("xau").is_none());
    assert!(CurrencyCode::new("XA").is_none());
    assert!(CurrencyCode::new("XAUU").is_none());
    assert!(CurrencyCode::new("XÄU").is_none());
    assert!(CurrencyCode::new("").is_none());
}

#[test]
fn currency_minor_units_and_codes() {
    assert_eq!(Currency::USD.minor_units(), 2);
    assert_eq!(Currency::JPY.minor_units(), 0);
    assert_eq!(Currency::HUF.minor_units(), 0);
    assert_eq!(Currency::BTC.minor_units(), 8);
    assert_eq!(Currency::ETH.minor_units(), 18);
    assert_eq!(Currency::USDC.to_string(), "USDC");
    assert_eq!(Currency::NZD.to_string(), "NZD");
    assert_eq!(Currency::Other(CurrencyCode::new("ABC").unwrap()).to_string(), "ABC");
}

#[test]
fn currency_code_round_trip() {
    let c = CurrencyCode::new("XAU").unwrap();
    assert_eq!(c.as_str(), "XAU");
    assert_eq!(CurrencyCode::new(c.as_str()), Some(c));
    assert_eq!(Currency::from_code(c.as_str()), Some(Currency::Other(c)));
}
