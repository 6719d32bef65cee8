//! Monetary amounts in minor units.

use vstd::prelude::*;
use crate::currency::Currency;
use crate::text::{
    decimal, lemma_pow10_positive, pow10, push_char, push_signed_decimal, push_str,
    push_zero_padded, signed_decimal, zero_pad,
};

verus! {

/// Represents a monetary amount in minor units (e.g., cents for USD).
///
/// All amounts are stored as integers in the smallest currency unit
/// to avoid floating-point precision issues.
#[derive(Debug, Clone, Copy, PartialEq, Eq)]
pub struct Money {
    /// Amount in minor units (e.g., 1000 = $10.00 for USD)
    pub amount: i64,
    /// Currency of the amount
    pub currency: Currency,
}

/// How a money value is written: for a currency without minor units the
/// amount and the code; otherwise the whole part of the amount (the amount
/// divided by ten to the minor units, rounded toward zero), a point, the
/// absolute remainder padded with zeros to the minor units, and the code.
pub open spec fn money_text(amount: int, currency: Currency) -> Seq<char> {
    let units = currency.spec_minor_units() as nat;
    if units == 0 {
        signed_decimal(amount) + seq![' '] + currency.code()
    } else {
        let factor = pow10(units) as int;
        let magnitude = if amount < 0 { -amount } else { amount };
        let whole = if amount < 0 { -(magnitude / factor) } else { magnitude / factor };
        let fraction = (magnitude % factor) as nat;
        signed_decimal(whole) + seq!['.'] + zero_pad(decimal(fraction), units) + seq![' ']
            + currency.code()
    }
}

/// Ten to the power `e`, for the exponents of minor units.
fn pow10_u64(e: u8) -> (r: u64)
    requires
        e <= 18,
    ensures
        r == pow10(e as nat),
{
    let mut r: u64 = 1;
    let mut k: u8 = 0;
    proof {
        lemma_pow10_positive(18);
        reveal_with_fuel(pow10, 19);
    }
    while k < e
        invariant
            k <= e <= 18,
            r == pow10(k as nat),
            r <= pow10(18),
            pow10(18) == 1_000_000_000_000_000_000,
        decreases e - k,
    {
        proof {
            lemma_pow10_monotone((k + 1) as nat, 18);
            assert(pow10((k + 1) as nat) == 10 * pow10(k as nat));
        }
        r = r * 10;
        k = k + 1;
    }
    r
}

proof fn lemma_pow10_monotone(a: nat, b: nat)
    requires
        a <= b,
    ensures
        pow10(a) <= pow10(b),
    decreases b,
{
    if a < b {
        lemma_pow10_monotone(a, (b - 1) as nat);
        lemma_pow10_positive((b - 1) as nat);
    }
}

impl Money {
    /// Create a new Money value from minor units.
    pub fn new(amount: i64, currency: Currency) -> (r: Self)
        ensures
            r.amount == amount,
            r.currency == currency,
    {
        Self { amount, currency }
    }

    /// Returns true if the amount is zero.
    pub fn is_zero(&self) -> (r: bool)
        ensures
            r == (self.amount == 0),
    {
        self.amount == 0
    }

    /// Returns true if the amount is positive.
    pub fn is_positive(&self) -> (r: bool)
        ensures
            r == (self.amount > 0),
    {
        self.amount > 0
    }

    /// Returns true if the amount is negative.
    pub fn is_negative(&self) -> (r: bool)
        ensures
            r == (self.amount < 0),
    {
        self.amount < 0
    }

    /// Returns the absolute value. The smallest `i64` has no absolute value
    /// in `i64`, so it is left out.
    pub fn abs(&self) -> (r: Self)
        requires
            self.amount != i64::MIN,
        ensures
            r.amount == (if self.amount < 0 { -self.amount } else { self.amount as int }),
            r.currency == self.currency,
    {
        Self {
            amount: if self.amount < 0 { -self.amount } else { self.amount },
            currency: self.currency,
        }
    }

    /// How the amount is displayed, e.g. "10.50 USD" or "1000 JPY".
    pub fn to_string(&self) -> (r: String)
        ensures
            r@ == money_text(self.amount as int, self.currency),
    {
        let units = self.currency.minor_units();
        let code = self.currency.to_string();
        let mut s = String::new();
        if units == 0 {
            push_signed_decimal(&mut s, self.amount);
            push_char(&mut s, ' ');
            push_str(&mut s, code.as_str());
            assert(s@ =~= money_text(self.amount as int, self.currency));
        } else {
            let factor = pow10_u64(units);
            proof {
                lemma_pow10_positive(units as nat);
                lemma_pow10_monotone(units as nat, 18);
                reveal_with_fuel(pow10, 19);
            }
            let magnitude: u64 = if self.amount < 0 {
                (0i128 - (self.amount as i128)) as u64
            } else {
                self.amount as u64
            };
            let q: u64 = magnitude / factor;
            let rem: u64 = magnitude % factor;
            proof {
                lemma_pow10_monotone(1, units as nat);
                reveal_with_fuel(pow10, 2);
                assert(q <= magnitude / 10) by (nonlinear_arith)
                    requires
                        factor >= 10,
                        q == magnitude / factor,
                ;
            }
            let whole: i64 = if self.amount < 0 { 0 - (q as i64) } else { q as i64 };
            push_signed_decimal(&mut s, whole);
            push_char(&mut s, '.');
            push_zero_padded(&mut s, rem, units as u64);
            push_char(&mut s, ' ');
            push_str(&mut s, code.as_str());
            assert(s@ =~= money_text(self.amount as int, self.currency));
        }
        s
    }
}

/// An amount in a currency with two minor units (every currency but yen,
/// forint, bitcoin and ether) is written as its hundreds, a point, the last
/// two digits of the amount, and the code: 1050 minor units of pounds are
/// "10.50 GBP".
pub proof fn law_two_digit_currencies_show_hundredths(amount: int, c: Currency)
    requires
        amount >= 0,
        c != Currency::JPY && c != Currency::HUF && c != Currency::BTC && c != Currency::ETH,
    ensures
        money_text(amount, c) == decimal((amount / 100) as nat) + seq!['.'] + zero_pad(
            decimal((amount % 100) as nat),
            2,
        ) + seq![' '] + c.code(),
{
    reveal_with_fuel(pow10, 3);
    assert(pow10(2) == 100);
}

/// An amount in yen or forint is written as the plain number of units and
/// the code: 1000 yen are "1000 JPY".
pub proof fn law_zero_digit_currencies_show_units(amount: int, c: Currency)
    requires
        c == Currency::JPY || c == Currency::HUF,
    ensures
        money_text(amount, c) == signed_decimal(amount) + seq![' '] + c.code(),
{
}

} // verus!
