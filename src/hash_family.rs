use aabel_multihash_rs::{BuildHasherExt, BuildPairHasher};
use vstd::prelude::*;

verus! {

/// The `i`-th value of the (unbounded) sequence of 64-bit hash values that the
/// pair hasher built from `keys1` and `keys2` produces for the string `item`.
pub uninterp spec fn pair_hash_at(keys1: (u64, u64), keys2: (u64, u64), item: Seq<char>, i: nat) -> u64;

/// A keyed hash family: two SipHash key pairs, combined by a pair hasher into
/// a sequence of hash values for each item. The keys never change once chosen,
/// so the sequence depends on the keys and the item alone.
#[derive(Clone, Copy, Debug)]
pub struct HashFamily {
    pub keys1: (u64, u64),
    pub keys2: (u64, u64),
}

impl HashFamily {
    /// The family keyed with the two given key pairs.
    pub fn new_with_keys(keys1: (u64, u64), keys2: (u64, u64)) -> (r: HashFamily)
        ensures
            r.keys1 == keys1,
            r.keys2 == keys2,
    {
        HashFamily { keys1, keys2 }
    }

    /// The `i`-th hash value of `item` under this family.
    pub open spec fn hash_at(self, item: Seq<char>, i: nat) -> u64 {
        pair_hash_at(self.keys1, self.keys2, item, i)
    }

    /// The first `count` hash values of `item` under this family.
    pub open spec fn hashes_spec(self, item: Seq<char>, count: nat) -> Seq<u64> {
        Seq::new(count, |i: int| self.hash_at(item, i as nat))
    }

    /// Relies on `BuildPairHasher::new_with_keys` and `BuildHasherExt::hashes_one`
    /// of aabel-multihash-rs: the first `count` values of the hash sequence of
    /// `item`, which depends on the keys and the item alone.
    #[verifier::external_body]
    pub(crate) fn hashes(&self, item: &str, count: usize) -> (r: Vec<u64>)
        ensures
            r@.len() == count,
            forall|i: int|
                0 <= i < count ==> r@[i] == pair_hash_at(self.keys1, self.keys2, item@, i as nat),
    {
        BuildPairHasher::new_with_keys(self.keys1, self.keys2)
            .hashes_one(item)
            .take(count)
            .map(u64::from)
            .collect()
    }
}

} // verus!
