//! Interface declarations generated from a schema of traits, for a Rust and a
//! Python target, together with the currency pairs and order books of the
//! trading core.
//!
//! Every function carries a contract: over the text it reads or writes, taken
//! as a sequence of characters, or over the levels of a book, taken as a map
//! from price to volume.

pub mod text;
pub mod language;
pub mod value_type;
pub mod grammar;
pub mod nesting;
pub mod round_trip;
pub mod denotation;
pub mod schema;
pub mod codegen;
pub mod currency_pair;
pub mod orderbook;
