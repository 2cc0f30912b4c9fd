//! An order book: the volume on offer at each price, asks and bids apart.
//!
//! Prices and volumes are whole numbers here; a price is any number by which
//! levels are ordered, the lower price being the lower number.

use std::collections::BTreeMap;
use vstd::prelude::*;
use crate::currency_pair::CurrencyPair;

verus! {

/// Whether `price` is the lowest price among `levels`.
pub open spec fn is_lowest(levels: Map<u64, u64>, price: u64) -> bool {
    &&& levels.contains_key(price)
    &&& forall|p: u64| levels.contains_key(p) ==> price <= p
}

/// Whether `price` is the highest price among `levels`.
pub open spec fn is_highest(levels: Map<u64, u64>, price: u64) -> bool {
    &&& levels.contains_key(price)
    &&& forall|p: u64| levels.contains_key(p) ==> p <= price
}

/// The levels that a list of prices and volumes gives, a later entry
/// replacing an earlier one of the same price.
pub open spec fn levels_of(entries: Seq<(u64, u64)>) -> Map<u64, u64>
    decreases entries.len(),
{
    if entries.len() == 0 {
        Map::empty()
    } else {
        levels_of(entries.drop_last()).insert(entries.last().0, entries.last().1)
    }
}

/// Calls `BTreeMap::first_key_value`, which gives the entry of the least key,
/// and nothing for an empty map. The entry is handed out by value.
#[verifier::external_body]
fn first_level(levels: &BTreeMap<u64, u64>) -> (r: Option<(u64, u64)>)
    ensures
        match r {
            Some((price, volume)) => is_lowest(levels@, price) && levels@[price] == volume,
            None => levels@ == Map::<u64, u64>::empty(),
        },
{
    match levels.first_key_value() {
        Some((price, volume)) => Some((*price, *volume)),
        None => None,
    }
}

/// Calls `BTreeMap::last_key_value`, which gives the entry of the greatest
/// key, and nothing for an empty map. The entry is handed out by value.
#[verifier::external_body]
fn last_level(levels: &BTreeMap<u64, u64>) -> (r: Option<(u64, u64)>)
    ensures
        match r {
            Some((price, volume)) => is_highest(levels@, price) && levels@[price] == volume,
            None => levels@ == Map::<u64, u64>::empty(),
        },
{
    match levels.last_key_value() {
        Some((price, volume)) => Some((*price, *volume)),
        None => None,
    }
}

/// Calls `BTreeMap::extend`, which inserts every entry of `more`; where a
/// key is already there, its value is replaced.
#[verifier::external_body]
fn extend_levels(levels: &mut BTreeMap<u64, u64>, more: BTreeMap<u64, u64>)
    ensures
        final(levels)@ == old(levels)@.union_prefer_right(more@),
{
    levels.extend(more);
}

/// The asks and the bids of one market, each a volume by price.
#[derive(Clone, Debug)]
pub struct Orderbook {
    asks: BTreeMap<u64, u64>,
    bids: BTreeMap<u64, u64>,
}

impl Orderbook {
    /// The volume asked at each price.
    pub closed spec fn asks(&self) -> Map<u64, u64> {
        self.asks@
    }

    /// The volume bid at each price.
    pub closed spec fn bids(&self) -> Map<u64, u64> {
        self.bids@
    }

    /// The levels of a list, as a map.
    fn collect_levels(entries: &Vec<(u64, u64)>) -> (r: BTreeMap<u64, u64>)
        ensures
            r@ == levels_of(entries@),
    {
        let mut levels: BTreeMap<u64, u64> = BTreeMap::new();
        let mut i: usize = 0;
        assert(entries@.take(0) =~= Seq::empty());
        while i < entries.len()
            invariant
                i <= entries@.len(),
                levels@ == levels_of(entries@.take(i as int)),
            decreases entries@.len() - i,
        {
            let entry: (u64, u64) = entries[i];
            levels.insert(entry.0, entry.1);
            proof {
                assert(entries@.take(i + 1).drop_last() =~= entries@.take(i as int));
            }
            i += 1;
        }
        assert(entries@.take(i as int) =~= entries@);
        levels
    }

    /// The book of the asks and bids that an exchange reports, each a price
    /// and a volume.
    pub fn from_levels(asks: &Vec<(u64, u64)>, bids: &Vec<(u64, u64)>) -> (r: Self)
        ensures
            r.asks() == levels_of(asks@),
            r.bids() == levels_of(bids@),
    {
        Orderbook { asks: Self::collect_levels(asks), bids: Self::collect_levels(bids) }
    }

    /// The lowest priced ask and its volume, if there is any ask.
    pub fn best_ask(&self) -> (r: Option<(u64, u64)>)
        ensures
            match r {
                Some((price, volume)) => is_lowest(self.asks(), price) && self.asks()[price]
                    == volume,
                None => self.asks() == Map::<u64, u64>::empty(),
            },
    {
        first_level(&self.asks)
    }

    /// The highest priced bid and its volume, if there is any bid.
    pub fn best_bid(&self) -> (r: Option<(u64, u64)>)
        ensures
            match r {
                Some((price, volume)) => is_highest(self.bids(), price) && self.bids()[price]
                    == volume,
                None => self.bids() == Map::<u64, u64>::empty(),
            },
    {
        last_level(&self.bids)
    }

    /// Sets the volume asked at a price. A level of no volume stays in the
    /// book, with that volume.
    pub fn update_ask(&mut self, price: u64, volume: u64)
        ensures
            final(self).asks() == old(self).asks().insert(price, volume),
            final(self).bids() == old(self).bids(),
    {
        self.asks.insert(price, volume);
    }

    /// Sets the volume bid at a price. A level of no volume stays in the
    /// book, with that volume.
    pub fn update_bid(&mut self, price: u64, volume: u64)
        ensures
            final(self).bids() == old(self).bids().insert(price, volume),
            final(self).asks() == old(self).asks(),
    {
        self.bids.insert(price, volume);
    }

    /// Takes over every level of another book; where both books hold a
    /// price, the other book's volume stands.
    pub fn merge(&mut self, another: &Orderbook)
        ensures
            final(self).asks() == old(self).asks().union_prefer_right(another.asks()),
            final(self).bids() == old(self).bids().union_prefer_right(another.bids()),
    {
        extend_levels(&mut self.asks, another.asks.clone());
        extend_levels(&mut self.bids, another.bids.clone());
    }
}

/// The book of each pair in a list, a later entry replacing an earlier one
/// of the same pair.
pub open spec fn books_of(entries: Seq<(CurrencyPair, Orderbook)>) -> Map<
    (Seq<char>, Seq<char>),
    Orderbook,
>
    decreases entries.len(),
{
    if entries.len() == 0 {
        Map::empty()
    } else {
        books_of(entries.drop_last()).insert(entries.last().0.both(), entries.last().1)
    }
}

/// A pair that no entry names has no book.
pub proof fn lemma_books_absent(entries: Seq<(CurrencyPair, Orderbook)>, names: (
    Seq<char>,
    Seq<char>,
))
    requires
        forall|j: int| 0 <= j < entries.len() ==> entries[j].0.both() != names,
    ensures
        !books_of(entries).contains_key(names),
    decreases entries.len(),
{
    if entries.len() > 0 {
        lemma_books_absent(entries.drop_last(), names);
    }
}

/// The book of a pair is that of the last entry that names it.
pub proof fn lemma_books_last(entries: Seq<(CurrencyPair, Orderbook)>, i: int)
    requires
        0 <= i < entries.len(),
        forall|j: int| i < j < entries.len() ==> entries[j].0.both() != entries[i].0.both(),
    ensures
        books_of(entries).contains_key(entries[i].0.both()),
        books_of(entries)[entries[i].0.both()] == entries[i].1,
    decreases entries.len(),
{
    if i < entries.len() - 1 {
        lemma_books_last(entries.drop_last(), i);
    }
}

/// The order books of several pairs.
pub struct IndexOrderbook {
    inner: Vec<(CurrencyPair, Orderbook)>,
}

impl IndexOrderbook {
    /// The book of each pair, by the pair's two currencies.
    pub closed spec fn books(&self) -> Map<(Seq<char>, Seq<char>), Orderbook> {
        books_of(self.inner@)
    }

    /// The index of the given books.
    pub fn new(entries: Vec<(CurrencyPair, Orderbook)>) -> (r: Self)
        ensures
            r.books() == books_of(entries@),
    {
        IndexOrderbook { inner: entries }
    }

    /// The book of a pair, if the index holds one.
    pub fn book(&self, pair: &CurrencyPair) -> (r: Option<&Orderbook>)
        ensures
            match r {
                Some(book) => self.books().contains_key(pair.both()) && self.books()[pair.both()]
                    == *book,
                None => !self.books().contains_key(pair.both()),
            },
    {
        let mut i: usize = self.inner.len();
        while i > 0
            invariant
                i <= self.inner@.len(),
                forall|j: int| i <= j < self.inner@.len() ==> self.inner@[j].0.both() != pair.both(),
            decreases i,
        {
            i -= 1;
            if self.inner[i].0.same_as(pair) {
                proof {
                    lemma_books_last(self.inner@, i as int);
                }
                return Some(&self.inner[i].1);
            }
        }
        proof {
            lemma_books_absent(self.inner@, pair.both());
        }
        None
    }

    /// The lowest priced ask of a pair, if the index holds a book of the
    /// pair and the book holds an ask.
    pub fn best_ask(&self, pair: &CurrencyPair) -> (r: Option<(u64, u64)>)
        ensures
            match r {
                Some((price, volume)) => {
                    &&& self.books().contains_key(pair.both())
                    &&& is_lowest(self.books()[pair.both()].asks(), price)
                    &&& self.books()[pair.both()].asks()[price] == volume
                },
                None => !self.books().contains_key(pair.both()) || self.books()[pair.both()].asks()
                    == Map::<u64, u64>::empty(),
            },
    {
        match self.book(pair) {
            Some(book) => book.best_ask(),
            None => None,
        }
    }

    /// The highest priced bid of a pair, if the index holds a book of the
    /// pair and the book holds a bid.
    pub fn best_bid(&self, pair: &CurrencyPair) -> (r: Option<(u64, u64)>)
        ensures
            match r {
                Some((price, volume)) => {
                    &&& self.books().contains_key(pair.both())
                    &&& is_highest(self.books()[pair.both()].bids(), price)
                    &&& self.books()[pair.both()].bids()[price] == volume
                },
                None => !self.books().contains_key(pair.both()) || self.books()[pair.both()].bids()
                    == Map::<u64, u64>::empty(),
            },
    {
        match self.book(pair) {
            Some(book) => book.best_bid(),
            None => None,
        }
    }
}

} // verus!
