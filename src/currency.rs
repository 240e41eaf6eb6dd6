use vstd::prelude::*;
use vstd::string::StrSliceExecFns;

verus! {

/// Currencies known to the library; `NIL` stands for "no currency".
#[derive(Debug, Clone, Copy, PartialEq, Eq, Structural, Hash)]
pub enum Currency {
    NIL,
    KRW,
    USD,
    EUR,
    JPY,
    CNY,
    CNH,
    GBP,
    AUD,
    CAD,
    CHF,
    NZD,
}

/// The three-letter code of a currency.
pub open spec fn currency_code(c: Currency) -> Seq<char> {
    match c {
        Currency::NIL => seq!['N', 'I', 'L'],
        Currency::KRW => seq!['K', 'R', 'W'],
        Currency::USD => seq!['U', 'S', 'D'],
        Currency::EUR => seq!['E', 'U', 'R'],
        Currency::JPY => seq!['J', 'P', 'Y'],
        Currency::CNY => seq!['C', 'N', 'Y'],
        Currency::CNH => seq!['C', 'N', 'H'],
        Currency::GBP => seq!['G', 'B', 'P'],
        Currency::AUD => seq!['A', 'U', 'D'],
        Currency::CAD => seq!['C', 'A', 'D'],
        Currency::CHF => seq!['C', 'H', 'F'],
        Currency::NZD => seq!['N', 'Z', 'D'],
    }
}

/// The currency whose code is `s`, other than `NIL`.
pub open spec fn currency_of_code(s: Seq<char>) -> Option<Currency> {
    if s == currency_code(Currency::KRW) { Some(Currency::KRW) }
    else if s == currency_code(Currency::USD) { Some(Currency::USD) }
    else if s == currency_code(Currency::EUR) { Some(Currency::EUR) }
    else if s == currency_code(Currency::JPY) { Some(Currency::JPY) }
    else if s == currency_code(Currency::CNY) { Some(Currency::CNY) }
    else if s == currency_code(Currency::CNH) { Some(Currency::CNH) }
    else if s == currency_code(Currency::GBP) { Some(Currency::GBP) }
    else if s == currency_code(Currency::AUD) { Some(Currency::AUD) }
    else if s == currency_code(Currency::CAD) { Some(Currency::CAD) }
    else if s == currency_code(Currency::CHF) { Some(Currency::CHF) }
    else if s == currency_code(Currency::NZD) { Some(Currency::NZD) }
    else { None }
}

/// The currency of the three letters `a`, `b`, `c`, other than `NIL`.
fn currency_of_letters(a: char, b: char, c: char) -> (r: Option<Currency>)
    ensures
        r == currency_of_code(seq![a, b, c]),
{
    let r = match (a, b, c) {
        ('K', 'R', 'W') => Some(Currency::KRW),
        ('U', 'S', 'D') => Some(Currency::USD),
        ('E', 'U', 'R') => Some(Currency::EUR),
        ('J', 'P', 'Y') => Some(Currency::JPY),
        ('C', 'N', 'Y') => Some(Currency::CNY),
        ('C', 'N', 'H') => Some(Currency::CNH),
        ('G', 'B', 'P') => Some(Currency::GBP),
        ('A', 'U', 'D') => Some(Currency::AUD),
        ('C', 'A', 'D') => Some(Currency::CAD),
        ('C', 'H', 'F') => Some(Currency::CHF),
        ('N', 'Z', 'D') => Some(Currency::NZD),
        _ => None,
    };
    proof {
        let s = seq![a, b, c];
        if r is None {
            assert forall|x: Currency| x != Currency::NIL implies s != #[trigger] currency_code(x) by {
                if s == currency_code(x) {
                    assert(s[0] == currency_code(x)[0] && s[1] == currency_code(x)[1] && s[2] == currency_code(x)[2]);
                }
            }
        }
    }
    r
}

impl Currency {
    /// The currency whose code is `code`; `None` for an unknown code and for
    /// `"NIL"`, which names no currency.
    pub fn from_code(code: &str) -> (r: Option<Currency>)
        ensures
            r == currency_of_code(code@),
    {
        if code.unicode_len() != 3 {
            proof {
                assert forall|x: Currency| code@ != #[trigger] currency_code(x) by {
                    assert(currency_code(x).len() == 3);
                }
            }
            return None;
        }
        let a = code.get_char(0);
        let b = code.get_char(1);
        let c = code.get_char(2);
        assert(code@ == seq![a, b, c]);
        currency_of_letters(a, b, c)
    }

    /// The currency whose code is `code`, `NIL` when the code is unknown.
    pub fn from_code_or_nil(code: &str) -> (r: Currency)
        ensures
            r == (match currency_of_code(code@) {
                Some(c) => c,
                None => Currency::NIL,
            }),
    {
        match Currency::from_code(code) {
            Some(c) => c,
            None => Currency::NIL,
        }
    }

    /// The three-letter code of this currency.
    pub fn as_str(&self) -> (r: &'static str)
        ensures
            r@ == currency_code(*self),
    {
        proof {
            reveal_strlit("NIL");
            reveal_strlit("KRW");
            reveal_strlit("USD");
            reveal_strlit("EUR");
            reveal_strlit("JPY");
            reveal_strlit("CNY");
            reveal_strlit("CNH");
            reveal_strlit("GBP");
            reveal_strlit("AUD");
            reveal_strlit("CAD");
            reveal_strlit("CHF");
            reveal_strlit("NZD");
        }
        match self {
            Currency::NIL => "NIL",
            Currency::KRW => "KRW",
            Currency::USD => "USD",
            Currency::EUR => "EUR",
            Currency::JPY => "JPY",
            Currency::CNY => "CNY",
            Currency::CNH => "CNH",
            Currency::GBP => "GBP",
            Currency::AUD => "AUD",
            Currency::CAD => "CAD",
            Currency::CHF => "CHF",
            Currency::NZD => "NZD",
        }
    }
}

/// A currency pair: the price of one unit of `currency1` in `currency2`.
#[derive(Debug, Clone, Copy, PartialEq, Eq, Structural, Hash)]
pub struct FxCode {
    pub currency1: Currency,
    pub currency2: Currency,
}

impl Default for Currency {
    fn default() -> (r: Currency)
        ensures
            r == Currency::NIL,
    {
        Currency::NIL
    }
}

impl Default for FxCode {
    fn default() -> (r: FxCode)
        ensures
            r == (FxCode { currency1: Currency::NIL, currency2: Currency::NIL }),
    {
        FxCode { currency1: Currency::NIL, currency2: Currency::NIL }
    }
}

impl FxCode {
    /// Reads a six-letter pair code such as `"USDKRW"`; `None` unless it is
    /// two currency codes (other than `NIL`) side by side.
    pub fn from_code(code: &str) -> (r: Option<FxCode>)
        ensures
            r == (if code@.len() == 6 {
                match (currency_of_code(code@.take(3)), currency_of_code(code@.skip(3))) {
                    (Some(c1), Some(c2)) => Some(FxCode { currency1: c1, currency2: c2 }),
                    _ => None,
                }
            } else {
                None
            }),
    {
        if code.unicode_len() != 6 {
            return None;
        }
        let c1 = currency_of_letters(code.get_char(0), code.get_char(1), code.get_char(2));
        let c2 = currency_of_letters(code.get_char(3), code.get_char(4), code.get_char(5));
        assert(code@.take(3) == seq![code@[0], code@[1], code@[2]]);
        assert(code@.skip(3) == seq![code@[3], code@[4], code@[5]]);
        match (c1, c2) {
            (Some(a), Some(b)) => Some(FxCode { currency1: a, currency2: b }),
            _ => None,
        }
    }

    pub fn new(currency1: Currency, currency2: Currency) -> (r: FxCode)
        ensures
            r.currency1 == currency1,
            r.currency2 == currency2,
    {
        FxCode { currency1, currency2 }
    }

    pub fn get_currency1(&self) -> (r: Currency)
        ensures
            r == self.currency1,
    {
        self.currency1
    }

    pub fn get_currency2(&self) -> (r: Currency)
        ensures
            r == self.currency2,
    {
        self.currency2
    }

    /// The same pair quoted the other way round.
    pub fn reciprocal(self) -> (r: Self)
        ensures
            r.currency1 == self.currency2,
            r.currency2 == self.currency1,
    {
        FxCode { currency1: self.currency2, currency2: self.currency1 }
    }
}

} // verus!
