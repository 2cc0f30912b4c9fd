use guilder::currency_pair::CurrencyPair;
use guilder::orderbook::{IndexOrderbook, Orderbook};

#[test]
fn empty_book_has_no_best_level() {
    let book = Orderbook::from_levels(&vec![], &vec![]);
    assert_eq!(book.best_ask(), None);
    assert_eq!(book.best_bid(), None);
}

#[test]
fn best_ask_is_lowest_and_best_bid_is_highest() {
    let book = Orderbook::from_levels(
        &vec![(105, 3), (101, 7), (103, 1)],
        &vec![(98, 2), (100, 5), (99, 9)],
    );
    assert_eq!(book.best_ask(), Some((101, 7)));
    assert_eq!(book.best_bid(), Some((100, 5)));
}

#[test]
fn later_level_of_the_same_price_replaces_the_earlier() {
    let book = Orderbook::from_levels(&vec![(101, 7), (101, 8)], &vec![(99, 1), (99, 2)]);
    assert_eq!(book.best_ask(), Some((101, 8)));
    assert_eq!(book.best_bid(), Some((99, 2)));
}

#[test]
fn update_sets_the_volume_at_a_price() {
    let mut book = Orderbook::from_levels(&vec![(101, 7)], &vec![(99, 1)]);
    book.update_ask(100, 4);
    assert_eq!(book.best_ask(), Some((100, 4)));
    assert_eq!(book.best_bid(), Some((99, 1)));
    book.update_bid(100, 6);
    assert_eq!(book.best_bid(), Some((100, 6)));
    assert_eq!(book.best_ask(), Some((100, 4)));
    book.update_ask(100, 5);
    assert_eq!(book.best_ask(), Some((100, 5)));
}

#[test]
fn update_with_no_volume_keeps_the_level() {
    let mut book = Orderbook::from_levels(&vec![(101, 7), (102, 1)], &vec![(99, 1), (98, 3)]);
    book.update_ask(101, 0);
    assert_eq!(book.best_ask(), Some((101, 0)));
    book.update_bid(99, 0);
    assert_eq!(book.best_bid(), Some((99, 0)));
}

#[test]
fn merge_takes_the_levels_of_the_other_book() {
    let mut book = Orderbook::from_levels(&vec![(101, 7), (103, 1)], &vec![(99, 1)]);
    let other = Orderbook::from_levels(&vec![(101, 2), (100, 9)], &vec![(99, 4), (97, 1)]);
    book.merge(&other);
    assert_eq!(book.best_ask(), Some((100, 9)));
    assert_eq!(book.best_bid(), Some((99, 4)));
    book.update_ask(100, 1);
    let mut third = Orderbook::from_levels(&vec![], &vec![]);
    third.merge(&book);
    assert_eq!(third.best_ask(), Some((100, 1)));
    assert_eq!(other.best_ask(), Some((100, 9)));
    let copy = book.clone();
    assert_eq!(copy.best_bid(), Some((99, 4)));
}

#[test]
fn index_finds_the_book_of_a_pair() {
    let eth = Orderbook::from_levels(&vec![(11, 1), (10, 2)], &vec![(9, 3)]);
    let btc = Orderbook::from_levels(&vec![(500, 1)], &vec![(499, 3), (498, 1)]);
    let index = IndexOrderbook::new(vec![
        (CurrencyPair::new("eth", "usdt"), eth),
        (CurrencyPair::new("btc", "usdt"), btc),
    ]);
    let pair = CurrencyPair::from_hyphen("ETH-USDT").unwrap();
    assert_eq!(index.best_ask(&pair), Some((10, 2)));
    assert_eq!(index.best_bid(&pair), Some((9, 3)));
    let pair = CurrencyPair::new("BTC", "USDT");
    assert_eq!(index.best_ask(&pair), Some((500, 1)));
    assert_eq!(index.best_bid(&pair), Some((499, 3)));
    assert_eq!(index.book(&pair).unwrap().best_ask(), Some((500, 1)));
}

#[test]
fn index_without_the_pair_gives_nothing() {
    let eth = Orderbook::from_levels(&vec![(11, 1)], &vec![(9, 3)]);
    let index = IndexOrderbook::new(vec![(CurrencyPair::new("eth", "usdt"), eth)]);
    let other = CurrencyPair::new("usdt", "eth");
    assert_eq!(index.best_ask(&other), None);
    assert_eq!(index.best_bid(&other), None);
    assert!(index.book(&other).is_none());
    let none = IndexOrderbook::new(vec![]);
    assert_eq!(none.best_ask(&other), None);
}

#[test]
fn index_keeps_the_last_book_of_a_pair() {
    let first = Orderbook::from_levels(&vec![(11, 1)], &vec![(9, 3)]);
    let second = Orderbook::from_levels(&vec![(12, 5)], &vec![]);
    let index = IndexOrderbook::new(vec![
        (CurrencyPair::new("eth", "usdt"), first),
        (CurrencyPair::new("ETH", "USDT"), second),
    ]);
    let pair = CurrencyPair::new("eth", "usdt");
    assert_eq!(index.best_ask(&pair), Some((12, 5)));
    assert_eq!(index.best_bid(&pair), None);
}

#[test]
fn pairs_with_the_same_currencies_are_the_same() {
    let a = CurrencyPair::new("eth", "btc");
    assert!(a.same_as(&CurrencyPair::from_underscore("ETH_BTC").unwrap()));
    assert!(!a.same_as(&CurrencyPair::new("btc", "eth")));
    assert!(!a.same_as(&CurrencyPair::new("eth", "btcx")));
}
