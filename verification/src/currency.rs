//! Currencies and three-letter currency codes.

use vstd::prelude::*;
use crate::text_map::text_eq;

verus! {

/// ISO 4217 currency codes commonly used in payment processing.
#[derive(Debug, Clone, Copy, PartialEq, Eq, Hash)]
pub enum Currency {
    USD,
    EUR,
    GBP,
    JPY,
    CHF,
    CAD,
    AUD,
    CNY,
    INR,
    BRL,
    MXN,
    SEK,
    NOK,
    DKK,
    PLN,
    CZK,
    HUF,
    SGD,
    HKD,
    NZD,
    /// Bitcoin (non-ISO but widely used)
    BTC,
    /// Ethereum (non-ISO but widely used)
    ETH,
    /// USDT stablecoin
    USDT,
    /// USDC stablecoin
    USDC,
    /// Other currency represented by its 3-letter code
    Other(CurrencyCode),
}

/// A 3-letter currency code for currencies not in the enum.
///
/// The three bytes are always ASCII upper-case letters.
#[derive(Debug, Clone, Copy, PartialEq, Eq, Hash)]
pub struct CurrencyCode([u8; 3]);

/// An ASCII upper-case letter.
pub open spec fn is_upper_letter(c: char) -> bool {
    'A' <= c && c <= 'Z'
}

/// The characters that `CurrencyCode::new` accepts: exactly three ASCII
/// upper-case letters.
pub open spec fn valid_code(s: Seq<char>) -> bool {
    &&& s.len() == 3
    &&& forall|i: int| 0 <= i < 3 ==> is_upper_letter(#[trigger] s[i])
}

impl View for CurrencyCode {
    type V = Seq<char>;

    closed spec fn view(&self) -> Seq<char> {
        Seq::new(3, |i: int| self.0@[i] as char)
    }
}

impl CurrencyCode {
    #[verifier::type_invariant]
    pub closed spec fn letters_only(self) -> bool {
        forall|i: int| 0 <= i < 3 ==> 65 <= #[trigger] self.0@[i] <= 90
    }

    /// Every currency code is three ASCII upper-case letters.
    pub proof fn law_code_is_three_letters(self)
        requires
            self.letters_only(),
        ensures
            valid_code(self@),
    {
    }

    /// A code is determined by its text: two codes that read the same are
    /// the same code (so building a code from another's text gives that
    /// code back).
    pub proof fn law_code_determined_by_text(self, other: Self)
        requires
            self@ == other@,
        ensures
            self == other,
    {
        assert forall|i: int| 0 <= i < 3 implies self.0[i] == other.0[i] by {
            assert(self@[i] == other@[i]);
            assert(self@[i] == self.0@[i] as char);
            assert(other@[i] == other.0@[i] as char);
            assert((self.0@[i] as char) as int == self.0@[i] as int);
            assert((other.0@[i] as char) as int == other.0@[i] as int);
            assert(self.0@[i] == other.0@[i]);
        }
        assert(self.0 =~= other.0);
    }

    /// Builds a code from exactly three ASCII upper-case letters, and returns
    /// `None` for any other input.
    pub fn new(code: &str) -> (r: Option<Self>)
        ensures
            r is Some <==> valid_code(code@),
            r matches Some(c) ==> c@ == code@,
    {
        let n = code.unicode_len();
        if n != 3 {
            return None;
        }
        let c0 = code.get_char(0);
        let c1 = code.get_char(1);
        let c2 = code.get_char(2);
        if !('A' <= c0 && c0 <= 'Z') || !('A' <= c1 && c1 <= 'Z') || !('A' <= c2 && c2 <= 'Z') {
            proof {
                if valid_code(code@) {
                    assert(is_upper_letter(code@[0]));
                    assert(is_upper_letter(code@[1]));
                    assert(is_upper_letter(code@[2]));
                }
            }
            return None;
        }
        let bytes: [u8; 3] = [c0 as u8, c1 as u8, c2 as u8];
        let r = CurrencyCode(bytes);
        assert(r@ =~= code@);
        Some(r)
    }

    /// The code as text.
    pub fn as_str(&self) -> (r: &str)
        ensures
            r@ == self@,
            valid_code(r@),
    {
        proof {
            use_type_invariant(self);
        }
        let r = ascii_str(self.0.as_slice());
        assert(r@ =~= self@);
        r
    }
}

/// Calls `std::str::from_utf8` on bytes that are all ASCII, where it
/// succeeds and reads each byte as one character.
#[verifier::external_body]
fn ascii_str(bytes: &[u8]) -> (r: &str)
    requires
        forall|i: int| 0 <= i < bytes@.len() ==> #[trigger] bytes@[i] < 128,
    ensures
        r@ == Seq::new(bytes@.len(), |i: int| bytes@[i] as char),
{
    std::str::from_utf8(bytes).unwrap()
}

impl Currency {
    /// The code under which the currency is written.
    pub open spec fn code(self) -> Seq<char> {
        match self {
            Currency::USD => "USD"@,
            Currency::EUR => "EUR"@,
            Currency::GBP => "GBP"@,
            Currency::JPY => "JPY"@,
            Currency::CHF => "CHF"@,
            Currency::CAD => "CAD"@,
            Currency::AUD => "AUD"@,
            Currency::CNY => "CNY"@,
            Currency::INR => "INR"@,
            Currency::BRL => "BRL"@,
            Currency::MXN => "MXN"@,
            Currency::SEK => "SEK"@,
            Currency::NOK => "NOK"@,
            Currency::DKK => "DKK"@,
            Currency::PLN => "PLN"@,
            Currency::CZK => "CZK"@,
            Currency::HUF => "HUF"@,
            Currency::SGD => "SGD"@,
            Currency::HKD => "HKD"@,
            Currency::NZD => "NZD"@,
            Currency::BTC => "BTC"@,
            Currency::ETH => "ETH"@,
            Currency::USDT => "USDT"@,
            Currency::USDC => "USDC"@,
            Currency::Other(c) => c@,
        }
    }

    /// Number of minor unit digits for the currency.
    pub open spec fn spec_minor_units(self) -> u8 {
        match self {
            Currency::JPY | Currency::HUF => 0,
            Currency::BTC => 8,
            Currency::ETH => 18,
            _ => 2,
        }
    }

    /// Returns the number of minor unit digits (e.g., 2 for USD cents, 0 for JPY).
    pub fn minor_units(&self) -> (r: u8)
        ensures
            r == self.spec_minor_units(),
    {
        match self {
            Currency::JPY | Currency::HUF => 0,
            Currency::BTC => 8,
            Currency::ETH => 18,
            _ => 2,
        }
    }

    /// The currency written as `code`: a named currency by its code, and
    /// any other three ASCII upper-case letters as `Other`; `None` for
    /// anything else.
    pub fn from_code(code: &str) -> (r: Option<Self>)
        ensures
            named_currency(code@) matches Some(c) ==> r == Some(c),
            named_currency(code@) is None ==> (r is Some <==> valid_code(code@)),
            named_currency(code@) is None ==> (r matches Some(c) ==> c matches Currency::Other(o)
                && o@ == code@),
            r is Some <==> known_code(code@),
            r matches Some(c) ==> is_currency_of(code@, c),
    {
        if text_eq(code, "USD") {
            Some(Currency::USD)
        } else if text_eq(code, "EUR") {
            Some(Currency::EUR)
        } else if text_eq(code, "GBP") {
            Some(Currency::GBP)
        } else if text_eq(code, "JPY") {
            Some(Currency::JPY)
        } else if text_eq(code, "CHF") {
            Some(Currency::CHF)
        } else if text_eq(code, "CAD") {
            Some(Currency::CAD)
        } else if text_eq(code, "AUD") {
            Some(Currency::AUD)
        } else if text_eq(code, "CNY") {
            Some(Currency::CNY)
        } else if text_eq(code, "INR") {
            Some(Currency::INR)
        } else if text_eq(code, "BRL") {
            Some(Currency::BRL)
        } else if text_eq(code, "MXN") {
            Some(Currency::MXN)
        } else if text_eq(code, "SEK") {
            Some(Currency::SEK)
        } else if text_eq(code, "NOK") {
            Some(Currency::NOK)
        } else if text_eq(code, "DKK") {
            Some(Currency::DKK)
        } else if text_eq(code, "PLN") {
            Some(Currency::PLN)
        } else if text_eq(code, "CZK") {
            Some(Currency::CZK)
        } else if text_eq(code, "HUF") {
            Some(Currency::HUF)
        } else if text_eq(code, "SGD") {
            Some(Currency::SGD)
        } else if text_eq(code, "HKD") {
            Some(Currency::HKD)
        } else if text_eq(code, "NZD") {
            Some(Currency::NZD)
        } else if text_eq(code, "BTC") {
            Some(Currency::BTC)
        } else if text_eq(code, "ETH") {
            Some(Currency::ETH)
        } else if text_eq(code, "USDT") {
            Some(Currency::USDT)
        } else if text_eq(code, "USDC") {
            Some(Currency::USDC)
        } else {
            match CurrencyCode::new(code) {
                Some(c) => Some(Currency::Other(c)),
                None => None,
            }
        }
    }

    /// The currency's code as text (what the currency displays as).
    pub fn to_string(&self) -> (r: String)
        ensures
            r@ == self.code(),
    {
        match self {
            Currency::USD => String::from_str("USD"),
            Currency::EUR => String::from_str("EUR"),
            Currency::GBP => String::from_str("GBP"),
            Currency::JPY => String::from_str("JPY"),
            Currency::CHF => String::from_str("CHF"),
            Currency::CAD => String::from_str("CAD"),
            Currency::AUD => String::from_str("AUD"),
            Currency::CNY => String::from_str("CNY"),
            Currency::INR => String::from_str("INR"),
            Currency::BRL => String::from_str("BRL"),
            Currency::MXN => String::from_str("MXN"),
            Currency::SEK => String::from_str("SEK"),
            Currency::NOK => String::from_str("NOK"),
            Currency::DKK => String::from_str("DKK"),
            Currency::PLN => String::from_str("PLN"),
            Currency::CZK => String::from_str("CZK"),
            Currency::HUF => String::from_str("HUF"),
            Currency::SGD => String::from_str("SGD"),
            Currency::HKD => String::from_str("HKD"),
            Currency::NZD => String::from_str("NZD"),
            Currency::BTC => String::from_str("BTC"),
            Currency::ETH => String::from_str("ETH"),
            Currency::USDT => String::from_str("USDT"),
            Currency::USDC => String::from_str("USDC"),
            Currency::Other(code) => String::from_str(code.as_str()),
        }
    }
}

/// The named currency written as `s`, if any.
pub open spec fn named_currency(s: Seq<char>) -> Option<Currency> {
    if s == "USD"@ {
        Some(Currency::USD)
    } else if s == "EUR"@ {
        Some(Currency::EUR)
    } else if s == "GBP"@ {
        Some(Currency::GBP)
    } else if s == "JPY"@ {
        Some(Currency::JPY)
    } else if s == "CHF"@ {
        Some(Currency::CHF)
    } else if s == "CAD"@ {
        Some(Currency::CAD)
    } else if s == "AUD"@ {
        Some(Currency::AUD)
    } else if s == "CNY"@ {
        Some(Currency::CNY)
    } else if s == "INR"@ {
        Some(Currency::INR)
    } else if s == "BRL"@ {
        Some(Currency::BRL)
    } else if s == "MXN"@ {
        Some(Currency::MXN)
    } else if s == "SEK"@ {
        Some(Currency::SEK)
    } else if s == "NOK"@ {
        Some(Currency::NOK)
    } else if s == "DKK"@ {
        Some(Currency::DKK)
    } else if s == "PLN"@ {
        Some(Currency::PLN)
    } else if s == "CZK"@ {
        Some(Currency::CZK)
    } else if s == "HUF"@ {
        Some(Currency::HUF)
    } else if s == "SGD"@ {
        Some(Currency::SGD)
    } else if s == "HKD"@ {
        Some(Currency::HKD)
    } else if s == "NZD"@ {
        Some(Currency::NZD)
    } else if s == "BTC"@ {
        Some(Currency::BTC)
    } else if s == "ETH"@ {
        Some(Currency::ETH)
    } else if s == "USDT"@ {
        Some(Currency::USDT)
    } else if s == "USDC"@ {
        Some(Currency::USDC)
    } else {
        None
    }
}

/// Whether `c` is the currency written as `s`: the named currency of that
/// code, or `Other` with that code when no named currency has it.
pub open spec fn is_currency_of(s: Seq<char>, c: Currency) -> bool {
    match named_currency(s) {
        Some(n) => c == n,
        None => c matches Currency::Other(o) && o@ == s,
    }
}

/// Whether `s` is the code of a currency: a named currency's code, or
/// three ASCII upper-case letters.
pub open spec fn known_code(s: Seq<char>) -> bool {
    named_currency(s) is Some || valid_code(s)
}

/// The minor-unit table: yen and forint have no minor units, bitcoin has
/// eight digits and ether eighteen, and every other currency, named or
/// not, has two (cents, pence and the like).
pub proof fn law_minor_units_table(c: Currency)
    ensures
        c == Currency::JPY || c == Currency::HUF ==> c.spec_minor_units() == 0,
        c == Currency::BTC ==> c.spec_minor_units() == 8,
        c == Currency::ETH ==> c.spec_minor_units() == 18,
        c != Currency::JPY && c != Currency::HUF && c != Currency::BTC && c != Currency::ETH
            ==> c.spec_minor_units() == 2,
{
}

/// A currency's code reads back as that currency: the code of a named
/// currency names it, and a code outside the named ones reads back as
/// `Other` with that code.
pub proof fn law_code_reads_back(c: Currency)
    requires
        c matches Currency::Other(o) ==> (o.letters_only() && named_currency(o@) is None),
    ensures
        is_currency_of(c.code(), c),
        known_code(c.code()),
{
    reveal_strlit("USDC");
    reveal_strlit("BTC");
    reveal_strlit("CAD");
    reveal_strlit("SGD");
    reveal_strlit("HKD");
    reveal_strlit("USD");
    reveal_strlit("AUD");
    reveal_strlit("NZD");
    reveal_strlit("CHF");
    reveal_strlit("HUF");
    reveal_strlit("ETH");
    reveal_strlit("SEK");
    reveal_strlit("DKK");
    reveal_strlit("NOK");
    reveal_strlit("CZK");
    reveal_strlit("BRL");
    reveal_strlit("PLN");
    reveal_strlit("MXN");
    reveal_strlit("GBP");
    reveal_strlit("INR");
    reveal_strlit("EUR");
    reveal_strlit("USDT");
    reveal_strlit("CNY");
    reveal_strlit("JPY");
    match c {
        Currency::Other(o) => {
            o.law_code_is_three_letters();
            assert(c.code() == o@);
            assert(named_currency(o@) is None);
            assert(is_currency_of(o@, c));
        },
        Currency::USD => {
        },
        Currency::EUR => {
            assert("EUR"@[0] != "USD"@[0]);
        },
        Currency::GBP => {
            assert("GBP"@[0] != "USD"@[0]);
            assert("GBP"@[0] != "EUR"@[0]);
        },
        Currency::JPY => {
            assert("JPY"@[0] != "USD"@[0]);
            assert("JPY"@[0] != "EUR"@[0]);
            assert("JPY"@[0] != "GBP"@[0]);
        },
        Currency::CHF => {
            assert("CHF"@[0] != "USD"@[0]);
            assert("CHF"@[0] != "GBP"@[0]);
            assert("CHF"@[0] != "EUR"@[0]);
            assert("CHF"@[0] != "JPY"@[0]);
        },
        Currency::CAD => {
            assert("CAD"@[0] != "USD"@[0]);
            assert("CAD"@[0] != "GBP"@[0]);
            assert("CAD"@[0] != "EUR"@[0]);
            assert("CAD"@[0] != "JPY"@[0]);
            assert("CAD"@[1] != "CHF"@[1]);
        },
        Currency::AUD => {
            assert("AUD"@[0] != "CAD"@[0]);
            assert("AUD"@[0] != "USD"@[0]);
            assert("AUD"@[0] != "CHF"@[0]);
            assert("AUD"@[0] != "GBP"@[0]);
            assert("AUD"@[0] != "EUR"@[0]);
            assert("AUD"@[0] != "JPY"@[0]);
        },
        Currency::CNY => {
            assert("CNY"@[0] != "USD"@[0]);
            assert("CNY"@[0] != "AUD"@[0]);
            assert("CNY"@[0] != "GBP"@[0]);
            assert("CNY"@[0] != "EUR"@[0]);
            assert("CNY"@[0] != "JPY"@[0]);
            assert("CNY"@[1] != "CAD"@[1]);
            assert("CNY"@[1] != "CHF"@[1]);
        },
        Currency::INR => {
            assert("INR"@[0] != "CAD"@[0]);
            assert("INR"@[0] != "USD"@[0]);
            assert("INR"@[0] != "AUD"@[0]);
            assert("INR"@[0] != "CHF"@[0]);
            assert("INR"@[0] != "GBP"@[0]);
            assert("INR"@[0] != "EUR"@[0]);
            assert("INR"@[0] != "CNY"@[0]);
            assert("INR"@[0] != "JPY"@[0]);
        },
        Currency::BRL => {
            assert("BRL"@[0] != "CAD"@[0]);
            assert("BRL"@[0] != "USD"@[0]);
            assert("BRL"@[0] != "AUD"@[0]);
            assert("BRL"@[0] != "CHF"@[0]);
            assert("BRL"@[0] != "GBP"@[0]);
            assert("BRL"@[0] != "INR"@[0]);
            assert("BRL"@[0] != "EUR"@[0]);
            assert("BRL"@[0] != "CNY"@[0]);
            assert("BRL"@[0] != "JPY"@[0]);
        },
        Currency::MXN => {
            assert("MXN"@[0] != "CAD"@[0]);
            assert("MXN"@[0] != "USD"@[0]);
            assert("MXN"@[0] != "AUD"@[0]);
            assert("MXN"@[0] != "CHF"@[0]);
            assert("MXN"@[0] != "BRL"@[0]);
            assert("MXN"@[0] != "GBP"@[0]);
            assert("MXN"@[0] != "INR"@[0]);
            assert("MXN"@[0] != "EUR"@[0]);
            assert("MXN"@[0] != "CNY"@[0]);
            assert("MXN"@[0] != "JPY"@[0]);
        },
        Currency::SEK => {
            assert("SEK"@[0] != "CAD"@[0]);
            assert("SEK"@[0] != "USD"@[0]);
            assert("SEK"@[0] != "AUD"@[0]);
            assert("SEK"@[0] != "CHF"@[0]);
            assert("SEK"@[0] != "BRL"@[0]);
            assert("SEK"@[0] != "MXN"@[0]);
            assert("SEK"@[0] != "GBP"@[0]);
            assert("SEK"@[0] != "INR"@[0]);
            assert("SEK"@[0] != "EUR"@[0]);
            assert("SEK"@[0] != "CNY"@[0]);
            assert("SEK"@[0] != "JPY"@[0]);
        },
        Currency::NOK => {
            assert("NOK"@[0] != "CAD"@[0]);
            assert("NOK"@[0] != "USD"@[0]);
            assert("NOK"@[0] != "AUD"@[0]);
            assert("NOK"@[0] != "CHF"@[0]);
            assert("NOK"@[0] != "SEK"@[0]);
            assert("NOK"@[0] != "BRL"@[0]);
            assert("NOK"@[0] != "MXN"@[0]);
            assert("NOK"@[0] != "GBP"@[0]);
            assert("NOK"@[0] != "INR"@[0]);
            assert("NOK"@[0] != "EUR"@[0]);
            assert("NOK"@[0] != "CNY"@[0]);
            assert("NOK"@[0] != "JPY"@[0]);
        },
        Currency::DKK => {
            assert("DKK"@[0] != "CAD"@[0]);
            assert("DKK"@[0] != "USD"@[0]);
            assert("DKK"@[0] != "AUD"@[0]);
            assert("DKK"@[0] != "CHF"@[0]);
            assert("DKK"@[0] != "SEK"@[0]);
            assert("DKK"@[0] != "NOK"@[0]);
            assert("DKK"@[0] != "BRL"@[0]);
            assert("DKK"@[0] != "MXN"@[0]);
            assert("DKK"@[0] != "GBP"@[0]);
            assert("DKK"@[0] != "INR"@[0]);
            assert("DKK"@[0] != "EUR"@[0]);
            assert("DKK"@[0] != "CNY"@[0]);
            assert("DKK"@[0] != "JPY"@[0]);
        },
        Currency::PLN => {
            assert("PLN"@[0] != "CAD"@[0]);
            assert("PLN"@[0] != "USD"@[0]);
            assert("PLN"@[0] != "AUD"@[0]);
            assert("PLN"@[0] != "CHF"@[0]);
            assert("PLN"@[0] != "SEK"@[0]);
            assert("PLN"@[0] != "DKK"@[0]);
            assert("PLN"@[0] != "NOK"@[0]);
            assert("PLN"@[0] != "BRL"@[0]);
            assert("PLN"@[0] != "MXN"@[0]);
            assert("PLN"@[0] != "GBP"@[0]);
            assert("PLN"@[0] != "INR"@[0]);
            assert("PLN"@[0] != "EUR"@[0]);
            assert("PLN"@[0] != "CNY"@[0]);
            assert("PLN"@[0] != "JPY"@[0]);
        },
        Currency::CZK => {
            assert("CZK"@[0] != "USD"@[0]);
            assert("CZK"@[0] != "AUD"@[0]);
            assert("CZK"@[0] != "SEK"@[0]);
            assert("CZK"@[0] != "DKK"@[0]);
            assert("CZK"@[0] != "NOK"@[0]);
            assert("CZK"@[0] != "BRL"@[0]);
            assert("CZK"@[0] != "PLN"@[0]);
            assert("CZK"@[0] != "MXN"@[0]);
            assert("CZK"@[0] != "GBP"@[0]);
            assert("CZK"@[0] != "INR"@[0]);
            assert("CZK"@[0] != "EUR"@[0]);
            assert("CZK"@[0] != "JPY"@[0]);
            assert("CZK"@[1] != "CAD"@[1]);
            assert("CZK"@[1] != "CHF"@[1]);
            assert("CZK"@[1] != "CNY"@[1]);
        },
        Currency::HUF => {
            assert("HUF"@[0] != "CAD"@[0]);
            assert("HUF"@[0] != "USD"@[0]);
            assert("HUF"@[0] != "AUD"@[0]);
            assert("HUF"@[0] != "CHF"@[0]);
            assert("HUF"@[0] != "SEK"@[0]);
            assert("HUF"@[0] != "DKK"@[0]);
            assert("HUF"@[0] != "NOK"@[0]);
            assert("HUF"@[0] != "CZK"@[0]);
            assert("HUF"@[0] != "BRL"@[0]);
            assert("HUF"@[0] != "PLN"@[0]);
            assert("HUF"@[0] != "MXN"@[0]);
            assert("HUF"@[0] != "GBP"@[0]);
            assert("HUF"@[0] != "INR"@[0]);
            assert("HUF"@[0] != "EUR"@[0]);
            assert("HUF"@[0] != "CNY"@[0]);
            assert("HUF"@[0] != "JPY"@[0]);
        },
        Currency::SGD => {
            assert("SGD"@[0] != "CAD"@[0]);
            assert("SGD"@[0] != "USD"@[0]);
            assert("SGD"@[0] != "AUD"@[0]);
            assert("SGD"@[0] != "CHF"@[0]);
            assert("SGD"@[0] != "HUF"@[0]);
            assert("SGD"@[0] != "DKK"@[0]);
            assert("SGD"@[0] != "NOK"@[0]);
            assert("SGD"@[0] != "CZK"@[0]);
            assert("SGD"@[0] != "BRL"@[0]);
            assert("SGD"@[0] != "PLN"@[0]);
            assert("SGD"@[0] != "MXN"@[0]);
            assert("SGD"@[0] != "GBP"@[0]);
            assert("SGD"@[0] != "INR"@[0]);
            assert("SGD"@[0] != "EUR"@[0]);
            assert("SGD"@[0] != "CNY"@[0]);
            assert("SGD"@[0] != "JPY"@[0]);
            assert("SGD"@[1] != "SEK"@[1]);
        },
        Currency::HKD => {
            assert("HKD"@[0] != "CAD"@[0]);
            assert("HKD"@[0] != "SGD"@[0]);
            assert("HKD"@[0] != "USD"@[0]);
            assert("HKD"@[0] != "AUD"@[0]);
            assert("HKD"@[0] != "CHF"@[0]);
            assert("HKD"@[0] != "SEK"@[0]);
            assert("HKD"@[0] != "DKK"@[0]);
            assert("HKD"@[0] != "NOK"@[0]);
            assert("HKD"@[0] != "CZK"@[0]);
            assert("HKD"@[0] != "BRL"@[0]);
            assert("HKD"@[0] != "PLN"@[0]);
            assert("HKD"@[0] != "MXN"@[0]);
            assert("HKD"@[0] != "GBP"@[0]);
            assert("HKD"@[0] != "INR"@[0]);
            assert("HKD"@[0] != "EUR"@[0]);
            assert("HKD"@[0] != "CNY"@[0]);
            assert("HKD"@[0] != "JPY"@[0]);
            assert("HKD"@[1] != "HUF"@[1]);
        },
        Currency::NZD => {
            assert("NZD"@[0] != "CAD"@[0]);
            assert("NZD"@[0] != "SGD"@[0]);
            assert("NZD"@[0] != "HKD"@[0]);
            assert("NZD"@[0] != "USD"@[0]);
            assert("NZD"@[0] != "AUD"@[0]);
            assert("NZD"@[0] != "CHF"@[0]);
            assert("NZD"@[0] != "HUF"@[0]);
            assert("NZD"@[0] != "SEK"@[0]);
            assert("NZD"@[0] != "DKK"@[0]);
            assert("NZD"@[0] != "CZK"@[0]);
            assert("NZD"@[0] != "BRL"@[0]);
            assert("NZD"@[0] != "PLN"@[0]);
            assert("NZD"@[0] != "MXN"@[0]);
            assert("NZD"@[0] != "GBP"@[0]);
            assert("NZD"@[0] != "INR"@[0]);
            assert("NZD"@[0] != "EUR"@[0]);
            assert("NZD"@[0] != "CNY"@[0]);
            assert("NZD"@[0] != "JPY"@[0]);
            assert("NZD"@[1] != "NOK"@[1]);
        },
        Currency::BTC => {
            assert("BTC"@[0] != "CAD"@[0]);
            assert("BTC"@[0] != "SGD"@[0]);
            assert("BTC"@[0] != "HKD"@[0]);
            assert("BTC"@[0] != "USD"@[0]);
            assert("BTC"@[0] != "AUD"@[0]);
            assert("BTC"@[0] != "NZD"@[0]);
            assert("BTC"@[0] != "CHF"@[0]);
            assert("BTC"@[0] != "HUF"@[0]);
            assert("BTC"@[0] != "SEK"@[0]);
            assert("BTC"@[0] != "DKK"@[0]);
            assert("BTC"@[0] != "NOK"@[0]);
            assert("BTC"@[0] != "CZK"@[0]);
            assert("BTC"@[0] != "PLN"@[0]);
            assert("BTC"@[0] != "MXN"@[0]);
            assert("BTC"@[0] != "GBP"@[0]);
            assert("BTC"@[0] != "INR"@[0]);
            assert("BTC"@[0] != "EUR"@[0]);
            assert("BTC"@[0] != "CNY"@[0]);
            assert("BTC"@[0] != "JPY"@[0]);
            assert("BTC"@[1] != "BRL"@[1]);
        },
        Currency::ETH => {
            assert("ETH"@[0] != "BTC"@[0]);
            assert("ETH"@[0] != "CAD"@[0]);
            assert("ETH"@[0] != "SGD"@[0]);
            assert("ETH"@[0] != "HKD"@[0]);
            assert("ETH"@[0] != "USD"@[0]);
            assert("ETH"@[0] != "AUD"@[0]);
            assert("ETH"@[0] != "NZD"@[0]);
            assert("ETH"@[0] != "CHF"@[0]);
            assert("ETH"@[0] != "HUF"@[0]);
            assert("ETH"@[0] != "SEK"@[0]);
            assert("ETH"@[0] != "DKK"@[0]);
            assert("ETH"@[0] != "NOK"@[0]);
            assert("ETH"@[0] != "CZK"@[0]);
            assert("ETH"@[0] != "BRL"@[0]);
            assert("ETH"@[0] != "PLN"@[0]);
            assert("ETH"@[0] != "MXN"@[0]);
            assert("ETH"@[0] != "GBP"@[0]);
            assert("ETH"@[0] != "INR"@[0]);
            assert("ETH"@[0] != "CNY"@[0]);
            assert("ETH"@[0] != "JPY"@[0]);
            assert("ETH"@[1] != "EUR"@[1]);
        },
        Currency::USDT => {
            assert("USDT"@.len() != "BTC"@.len());
            assert("USDT"@.len() != "CAD"@.len());
            assert("USDT"@.len() != "SGD"@.len());
            assert("USDT"@.len() != "HKD"@.len());
            assert("USDT"@.len() != "USD"@.len());
            assert("USDT"@.len() != "AUD"@.len());
            assert("USDT"@.len() != "NZD"@.len());
            assert("USDT"@.len() != "CHF"@.len());
            assert("USDT"@.len() != "HUF"@.len());
            assert("USDT"@.len() != "ETH"@.len());
            assert("USDT"@.len() != "SEK"@.len());
            assert("USDT"@.len() != "DKK"@.len());
            assert("USDT"@.len() != "NOK"@.len());
            assert("USDT"@.len() != "CZK"@.len());
            assert("USDT"@.len() != "BRL"@.len());
            assert("USDT"@.len() != "PLN"@.len());
            assert("USDT"@.len() != "MXN"@.len());
            assert("USDT"@.len() != "GBP"@.len());
            assert("USDT"@.len() != "INR"@.len());
            assert("USDT"@.len() != "EUR"@.len());
            assert("USDT"@.len() != "CNY"@.len());
            assert("USDT"@.len() != "JPY"@.len());
        },
        Currency::USDC => {
            assert("USDC"@.len() != "BTC"@.len());
            assert("USDC"@.len() != "CAD"@.len());
            assert("USDC"@.len() != "SGD"@.len());
            assert("USDC"@.len() != "HKD"@.len());
            assert("USDC"@.len() != "USD"@.len());
            assert("USDC"@.len() != "AUD"@.len());
            assert("USDC"@.len() != "NZD"@.len());
            assert("USDC"@.len() != "CHF"@.len());
            assert("USDC"@.len() != "HUF"@.len());
            assert("USDC"@.len() != "ETH"@.len());
            assert("USDC"@.len() != "SEK"@.len());
            assert("USDC"@.len() != "DKK"@.len());
            assert("USDC"@.len() != "NOK"@.len());
            assert("USDC"@.len() != "CZK"@.len());
            assert("USDC"@.len() != "BRL"@.len());
            assert("USDC"@.len() != "PLN"@.len());
            assert("USDC"@.len() != "MXN"@.len());
            assert("USDC"@.len() != "GBP"@.len());
            assert("USDC"@.len() != "INR"@.len());
            assert("USDC"@.len() != "EUR"@.len());
            assert("USDC"@.len() != "CNY"@.len());
            assert("USDC"@.len() != "JPY"@.len());
            assert("USDC"@[3] != "USDT"@[3]);
        },
    }
}

} // verus!
