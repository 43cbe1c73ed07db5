//! A Bloom filter: a fixed-size bit array, updated and queried through a
//! sequence of hash values that a keyed pair-hasher family derives for each item.
//!
//! Inserting an item sets, for each of its first `hash_count` hash values `h`,
//! the bit at index `h % num_bits`. Querying an item answers `true` exactly when
//! all of those bits are set, so an inserted item is never reported absent.

mod bits;
pub mod filter;
pub mod hash_family;
pub mod laws;

pub use filter::{BloomFilter, DEFAULT_HASH_COUNT, DEFAULT_WORDS, WORD_BITS};
pub use hash_family::HashFamily;
