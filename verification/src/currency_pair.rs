//! A pair of currencies, such as BTC and USDT, held in upper case.

use vstd::prelude::*;
use vstd::string::*;
use crate::text::{find_char, position, same_text, to_uppercase, uppercase};

verus! {

/// A currency pair: the base currency is quoted in the quote currency.
#[derive(Clone, Debug, Hash, PartialEq, Eq, PartialOrd, Ord)]
pub struct CurrencyPair {
    /// BTC in BTC-USDT
    base_currency: String,
    /// USDT in BTC-USDT
    quote_currency: String,
}

/// The pair that `input` names with `separator` between its two currencies:
/// what stands before the first separator and what stands after it, each in
/// upper case. `None` where `input` holds no separator.
pub open spec fn named_pair(input: Seq<char>, separator: char) -> Option<(Seq<char>, Seq<char>)> {
    match position(input, separator) {
        Some(n) => Some((uppercase(input.take(n)), uppercase(input.skip(n + 1)))),
        None => None,
    }
}

impl CurrencyPair {
    /// The base currency, as characters.
    pub closed spec fn base(&self) -> Seq<char> {
        self.base_currency@
    }

    /// The quote currency, as characters.
    pub closed spec fn quote(&self) -> Seq<char> {
        self.quote_currency@
    }

    /// Both currencies, base first.
    pub open spec fn both(&self) -> (Seq<char>, Seq<char>) {
        (self.base(), self.quote())
    }

    /// The pair of two currencies, each put in upper case.
    pub fn new(base_currency: &str, quote_currency: &str) -> (r: Self)
        ensures
            r.base() == uppercase(base_currency@),
            r.quote() == uppercase(quote_currency@),
    {
        CurrencyPair {
            base_currency: to_uppercase(base_currency),
            quote_currency: to_uppercase(quote_currency),
        }
    }

    /// Reads a pair written with `separator` between its currencies.
    pub fn from_separated(input: &str, separator: char) -> (r: Option<Self>)
        ensures
            match r {
                Some(p) => named_pair(input@, separator) == Some(p.both()),
                None => named_pair(input@, separator) is None,
            },
    {
        match find_char(input, separator) {
            None => None,
            Some(n) => {
                let len: usize = input.unicode_len();
                let base = input.substring_char(0, n);
                let quote = input.substring_char(n + 1, len);
                Some(
                    CurrencyPair {
                        base_currency: to_uppercase(base),
                        quote_currency: to_uppercase(quote),
                    },
                )
            },
        }
    }

    /// Reads a pair written as `eth_btc`.
    pub fn from_underscore(input: &str) -> (r: Option<Self>)
        ensures
            match r {
                Some(p) => named_pair(input@, '_') == Some(p.both()),
                None => named_pair(input@, '_') is None,
            },
    {
        Self::from_separated(input, '_')
    }

    /// Reads a pair written as `eth-btc`.
    pub fn from_hyphen(input: &str) -> (r: Option<Self>)
        ensures
            match r {
                Some(p) => named_pair(input@, '-') == Some(p.both()),
                None => named_pair(input@, '-') is None,
            },
    {
        Self::from_separated(input, '-')
    }

    /// Whether two pairs name the same currencies.
    pub fn same_as(&self, other: &CurrencyPair) -> (r: bool)
        ensures
            r == (self.both() == other.both()),
    {
        same_text(self.base_currency.as_str(), other.base_currency.as_str()) && same_text(
            self.quote_currency.as_str(),
            other.quote_currency.as_str(),
        )
    }

    /// The pair as `ETH_BTC`.
    pub fn name_underscore(&self) -> (r: String)
        ensures
            r@ == self.base() + "_"@ + self.quote(),
    {
        self.base_currency.clone().concat("_").concat(self.quote_currency.as_str())
    }

    /// The pair as `ETHBTC`.
    pub fn name_nospace(&self) -> (r: String)
        ensures
            r@ == self.base() + self.quote(),
    {
        self.base_currency.clone().concat(self.quote_currency.as_str())
    }

    /// The pair as `ETH-BTC`.
    pub fn name_hyphen(&self) -> (r: String)
        ensures
            r@ == self.base() + "-"@ + self.quote(),
    {
        self.base_currency.clone().concat("-").concat(self.quote_currency.as_str())
    }
}

} // verus!
