use crate::bits::{bits_of, Bits, MAX_BITS};
use crate::hash_family::HashFamily;
use vstd::prelude::*;

verus! {

/// Number of bits in one storage word of the bit array.
pub const WORD_BITS: usize = 64;

/// Number of storage words that `BloomFilter::new` allocates.
pub const DEFAULT_WORDS: usize = 100;

/// Number of hash values per item that `BloomFilter::new` uses.
pub const DEFAULT_HASH_COUNT: usize = 10;

/// The bit index that the hash value `hash` selects in an array of `num_bits` bits.
pub open spec fn bit_index(hash: u64, num_bits: nat) -> int {
    hash as int % num_bits as int
}

/// The bit indices that the hash values `hashes` select, one per value, in order.
pub open spec fn hash_positions(hashes: Seq<u64>, num_bits: nat) -> Seq<int> {
    Seq::new(hashes.len(), |k: int| bit_index(hashes[k], num_bits))
}

/// `bits` with every index of `positions` set to `true`.
pub open spec fn set_all(bits: Seq<bool>, positions: Seq<int>) -> Seq<bool> {
    Seq::new(bits.len(), |j: int| bits[j] || positions.contains(j))
}

/// Whether every index of `positions` is set in `bits`.
pub open spec fn all_set(bits: Seq<bool>, positions: Seq<int>) -> bool {
    forall|k: int| 0 <= k < positions.len() ==> #[trigger] bits[positions[k]]
}

/// The bit indices of `item` in a filter of `num_bits` bits that uses the
/// first `hash_count` hash values of `family`.
pub open spec fn positions(family: HashFamily, hash_count: nat, num_bits: nat, item: Seq<char>) -> Seq<int> {
    hash_positions(family.hashes_spec(item, hash_count), num_bits)
}

/// The bit array `bits` after `item` is inserted.
pub open spec fn inserted(family: HashFamily, hash_count: nat, bits: Seq<bool>, item: Seq<char>) -> Seq<bool> {
    set_all(bits, positions(family, hash_count, bits.len(), item))
}

/// Whether a filter with bit array `bits` reports `item` as possibly present.
pub open spec fn holds(family: HashFamily, hash_count: nat, bits: Seq<bool>, item: Seq<char>) -> bool {
    all_set(bits, positions(family, hash_count, bits.len(), item))
}

/// Setting positions one more at a time: the last one is a single update.
proof fn lemma_set_all_push(bits: Seq<bool>, ps: Seq<int>, p: int)
    requires
        0 <= p < bits.len(),
    ensures
        set_all(bits, ps.push(p)) == set_all(bits, ps).update(p, true),
{
    assert forall|j: int| 0 <= j < bits.len() implies set_all(bits, ps.push(p))[j]
        == set_all(bits, ps).update(p, true)[j] by {
        if ps.contains(j) {
            let k = choose|k: int| 0 <= k < ps.len() && ps[k] == j;
            assert(ps.push(p)[k] == j);
        }
        if ps.push(p).contains(j) && j != p {
            let k = choose|k: int| 0 <= k < ps.len() + 1 && ps.push(p)[k] == j;
            assert(ps[k] == j);
        }
        assert(ps.push(p)[ps.len() as int] == p);
    }
    assert(set_all(bits, ps.push(p)) =~= set_all(bits, ps).update(p, true));
}

/// A Bloom filter over strings: a fixed-length bit array and a keyed hash
/// family. The bit array's length never changes, and bits are only ever set.
pub struct BloomFilter {
    family: HashFamily,
    bits: Bits,
    hash_count: usize,
}

impl View for BloomFilter {
    type V = Seq<bool>;

    /// The bit array, in index order.
    closed spec fn view(&self) -> Seq<bool> {
        bits_of(self.bits)
    }
}

impl BloomFilter {
    /// The hash family that the filter was built with.
    pub closed spec fn family_spec(&self) -> HashFamily {
        self.family
    }

    /// The number of hash values used per item.
    pub closed spec fn hash_count_spec(&self) -> nat {
        self.hash_count as nat
    }

    /// The bit indices that `item` selects in this filter.
    pub open spec fn positions_of(&self, item: Seq<char>) -> Seq<int> {
        positions(self.family_spec(), self.hash_count_spec(), self@.len(), item)
    }

    /// The filter's bit array is non-empty and of a length that a bit vector encodes.
    pub open spec fn wf(&self) -> bool {
        0 < self@.len() <= MAX_BITS
    }

    /// A filter of `DEFAULT_WORDS` words of `WORD_BITS` bits, all clear, that
    /// uses `DEFAULT_HASH_COUNT` hash values of `family` per item.
    pub fn new(family: HashFamily) -> (r: BloomFilter)
        ensures
            r.wf(),
            r.family_spec() == family,
            r.hash_count_spec() == DEFAULT_HASH_COUNT,
            r@ == Seq::new((DEFAULT_WORDS * WORD_BITS) as nat, |i: int| false),
    {
        BloomFilter::with_params(family, DEFAULT_WORDS, DEFAULT_HASH_COUNT)
    }

    /// A filter of `num_words` words of `WORD_BITS` bits, all clear, that uses
    /// `hash_count` hash values of `family` per item. An empty bit array is a
    /// misconfiguration and is not accepted.
    pub fn with_params(family: HashFamily, num_words: usize, hash_count: usize) -> (r: BloomFilter)
        requires
            0 < num_words,
            num_words * WORD_BITS <= MAX_BITS,
        ensures
            r.wf(),
            r.family_spec() == family,
            r.hash_count_spec() == hash_count,
            r@ == Seq::new((num_words * WORD_BITS) as nat, |i: int| false),
    {
        let bits = Bits::zeros(num_words * WORD_BITS);
        BloomFilter { family, bits, hash_count }
    }
    /// Sets, for each hash value `h` of `hashes` in turn, the bit at index
    /// `h % num_bits`.
    pub fn insert_hashes(&mut self, hashes: &Vec<u64>)
        requires
            old(self).wf(),
        ensures
            final(self).wf(),
            final(self).family_spec() == old(self).family_spec(),
            final(self).hash_count_spec() == old(self).hash_count_spec(),
            final(self)@ == set_all(old(self)@, hash_positions(hashes@, old(self)@.len())),
    {
        let m = self.bits.len();
        let ghost start = self@;
        let mut i: usize = 0;
        while i < hashes.len()
            invariant
                i <= hashes@.len(),
                m as nat == start.len(),
                self.family == old(self).family,
                self.hash_count == old(self).hash_count,
                self@ == set_all(start, hash_positions(hashes@.take(i as int), m as nat)),
                0 < m <= MAX_BITS,
            decreases hashes@.len() - i,
        {
            let h = hashes[i];
            let index = (h % (m as u64)) as usize;
            assert(index as int == bit_index(h, m as nat));
            proof {
                assert(hash_positions(hashes@.take(i + 1), m as nat) =~= hash_positions(
                    hashes@.take(i as int),
                    m as nat,
                ).push(index as int));
                lemma_set_all_push(start, hash_positions(hashes@.take(i as int), m as nat), index as int);
            }
            self.bits.set(index, true);
            i = i + 1;
        }
        assert(hashes@.take(i as int) =~= hashes@);
    }

    /// Inserts `item`: sets the bit of each of its first `hash_count` hash values.
    pub fn insert(&mut self, item: &str)
        requires
            old(self).wf(),
        ensures
            final(self).wf(),
            final(self).family_spec() == old(self).family_spec(),
            final(self).hash_count_spec() == old(self).hash_count_spec(),
            final(self)@ == inserted(old(self).family_spec(), old(self).hash_count_spec(), old(self)@, item@),
    {
        let hashes = self.family.hashes(item, self.hash_count);
        assert(hashes@ =~= self.family.hashes_spec(item@, self.hash_count as nat));
        self.insert_hashes(&hashes);
    }

    /// Whether the bit of each hash value `h` of `hashes`, at index `h % num_bits`, is set.
    pub fn contains_hashes(&self, hashes: &Vec<u64>) -> (r: bool)
        requires
            self.wf(),
        ensures
            r == all_set(self@, hash_positions(hashes@, self@.len())),
    {
        let m = self.bits.len();
        let mut i: usize = 0;
        while i < hashes.len()
            invariant
                i <= hashes@.len(),
                m as nat == self@.len(),
                0 < m,
                forall|k: int| 0 <= k < i ==> #[trigger] self@[bit_index(hashes@[k], m as nat)],
            decreases hashes@.len() - i,
        {
            let h = hashes[i];
            let index = (h % (m as u64)) as usize;
            assert(index as int == bit_index(h, m as nat));
            if !self.bits.get(index) {
                assert(hash_positions(hashes@, m as nat)[i as int] == index);
                return false;
            }
            i = i + 1;
        }
        assert forall|k: int| 0 <= k < hashes@.len() implies #[trigger] self@[hash_positions(hashes@, m as nat)[k]] by {
            assert(self@[bit_index(hashes@[k], m as nat)]);
        }
        true
    }

    /// Whether `item` may have been inserted: `true` exactly when the bits of
    /// all of its first `hash_count` hash values are set. An inserted item is
    /// always reported; one never inserted may be reported too.
    pub fn contains(&self, item: &str) -> (r: bool)
        requires
            self.wf(),
        ensures
            r == holds(self.family_spec(), self.hash_count_spec(), self@, item@),
    {
        let hashes = self.family.hashes(item, self.hash_count);
        assert(hashes@ =~= self.family.hashes_spec(item@, self.hash_count as nat));
        self.contains_hashes(&hashes)
    }

    /// The number of bits in the bit array.
    pub fn num_bits(&self) -> (r: usize)
        ensures
            r as nat == self@.len(),
    {
        self.bits.len()
    }

    /// The number of hash values used per item.
    pub fn hash_count(&self) -> (r: usize)
        ensures
            r as nat == self.hash_count_spec(),
    {
        self.hash_count
    }

    /// The hash family that the filter was built with.
    pub fn family(&self) -> (r: HashFamily)
        ensures
            r == self.family_spec(),
    {
        self.family
    }

    /// The bit at `index`.
    pub fn bit(&self, index: usize) -> (r: bool)
        requires
            index < self@.len(),
        ensures
            r == self@[index as int],
    {
        self.bits.get(index)
    }
}

} // verus!
