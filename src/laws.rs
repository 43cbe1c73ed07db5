//! Properties of the filter, stated over the model that the operations'
//! contracts use: `inserted` for `insert` and `holds` for `contains`.
use crate::filter::{bit_index, holds, inserted, positions};
use crate::hash_family::HashFamily;
use vstd::prelude::*;

verus! {

/// The bit array `bits` after each item of `items` is inserted, in order.
pub open spec fn inserted_all(family: HashFamily, hash_count: nat, bits: Seq<bool>, items: Seq<Seq<char>>) -> Seq<bool>
    decreases items.len(),
{
    if items.len() == 0 {
        bits
    } else {
        inserted(family, hash_count, inserted_all(family, hash_count, bits, items.drop_last()), items.last())
    }
}

/// The bit array of a freshly built filter of `num_bits` bits.
pub open spec fn cleared(num_bits: nat) -> Seq<bool> {
    Seq::new(num_bits, |i: int| false)
}

/// Every position that an item selects lies inside the bit array.
proof fn lemma_positions_in_range(family: HashFamily, hash_count: nat, num_bits: nat, item: Seq<char>)
    requires
        num_bits > 0,
    ensures
        forall|k: int|
            0 <= k < hash_count ==> 0 <= #[trigger] positions(family, hash_count, num_bits, item)[k] < num_bits,
{
    assert forall|k: int| 0 <= k < hash_count implies 0 <= #[trigger] positions(family, hash_count, num_bits, item)[k]
        < num_bits by {
        let h = family.hashes_spec(item, hash_count)[k];
        assert(positions(family, hash_count, num_bits, item)[k] == bit_index(h, num_bits));
    }
}

/// Inserting keeps the length of the bit array and every bit that was set.
proof fn lemma_inserted_grows(family: HashFamily, hash_count: nat, bits: Seq<bool>, item: Seq<char>)
    ensures
        inserted(family, hash_count, bits, item).len() == bits.len(),
        forall|j: int| 0 <= j < bits.len() && bits[j] ==> #[trigger] inserted(family, hash_count, bits, item)[j],
{
}

/// Inserting a sequence of items keeps the length of the bit array and every bit that was set.
proof fn lemma_inserted_all_grows(family: HashFamily, hash_count: nat, bits: Seq<bool>, items: Seq<Seq<char>>)
    ensures
        inserted_all(family, hash_count, bits, items).len() == bits.len(),
        forall|j: int| 0 <= j < bits.len() && bits[j] ==> #[trigger] inserted_all(family, hash_count, bits, items)[j],
    decreases items.len(),
{
    if items.len() > 0 {
        lemma_inserted_all_grows(family, hash_count, bits, items.drop_last());
        lemma_inserted_grows(family, hash_count, inserted_all(family, hash_count, bits, items.drop_last()), items.last());
    }
}

/// Monotonicity: over any sequence of insertions the bit array keeps its
/// length, a bit once set stays set, and an item once reported present stays
/// reported present.
pub proof fn lemma_monotone(
    family: HashFamily,
    hash_count: nat,
    bits: Seq<bool>,
    items: Seq<Seq<char>>,
    query: Seq<char>,
)
    requires
        bits.len() > 0,
    ensures
        inserted_all(family, hash_count, bits, items).len() == bits.len(),
        forall|j: int| 0 <= j < bits.len() && bits[j] ==> #[trigger] inserted_all(family, hash_count, bits, items)[j],
        holds(family, hash_count, bits, query) ==> holds(family, hash_count, inserted_all(family, hash_count, bits, items), query),
{
    lemma_inserted_all_grows(family, hash_count, bits, items);
    lemma_positions_in_range(family, hash_count, bits.len(), query);
    let after = inserted_all(family, hash_count, bits, items);
    let ps = positions(family, hash_count, bits.len(), query);
    if holds(family, hash_count, bits, query) {
        assert forall|k: int| 0 <= k < ps.len() implies #[trigger] after[ps[k]] by {
            assert(bits[ps[k]]);
        }
    }
}

/// No false negatives: right after an item is inserted, and after any further
/// insertions, the filter reports it present.
pub proof fn lemma_no_false_negatives(
    family: HashFamily,
    hash_count: nat,
    bits: Seq<bool>,
    item: Seq<char>,
    later: Seq<Seq<char>>,
)
    requires
        bits.len() > 0,
    ensures
        holds(family, hash_count, inserted(family, hash_count, bits, item), item),
        holds(
            family,
            hash_count,
            inserted_all(family, hash_count, inserted(family, hash_count, bits, item), later),
            item,
        ),
{
    let once = inserted(family, hash_count, bits, item);
    let ps = positions(family, hash_count, bits.len(), item);
    lemma_positions_in_range(family, hash_count, bits.len(), item);
    assert forall|k: int| 0 <= k < ps.len() implies #[trigger] once[ps[k]] by {
        assert(ps.contains(ps[k]));
    }
    lemma_monotone(family, hash_count, once, later, item);
}

/// Idempotence: inserting an item twice leaves the same bit array as inserting it once.
pub proof fn lemma_insert_idempotent(family: HashFamily, hash_count: nat, bits: Seq<bool>, item: Seq<char>)
    ensures
        inserted(family, hash_count, inserted(family, hash_count, bits, item), item) == inserted(
            family,
            hash_count,
            bits,
            item,
        ),
{
    let once = inserted(family, hash_count, bits, item);
    assert(inserted(family, hash_count, once, item) =~= once);
}

/// Empty filter: a filter with no bit set, using at least one hash value per
/// item, reports every item absent.
pub proof fn lemma_empty_reports_absent(family: HashFamily, hash_count: nat, num_bits: nat, item: Seq<char>)
    requires
        num_bits > 0,
        hash_count > 0,
    ensures
        !holds(family, hash_count, cleared(num_bits), item),
{
    lemma_positions_in_range(family, hash_count, num_bits, item);
    let ps = positions(family, hash_count, num_bits, item);
    assert(!cleared(num_bits)[ps[0]]);
}

/// Determinism: two filters built alike, with hash families holding the same
/// keys, that receive the same insertions hold the same bit array and give
/// the same answer to every query.
pub proof fn lemma_deterministic(
    family1: HashFamily,
    family2: HashFamily,
    hash_count: nat,
    num_bits: nat,
    items: Seq<Seq<char>>,
    query: Seq<char>,
)
    requires
        family1.keys1 == family2.keys1,
        family1.keys2 == family2.keys2,
    ensures
        inserted_all(family1, hash_count, cleared(num_bits), items) == inserted_all(
            family2,
            hash_count,
            cleared(num_bits),
            items,
        ),
        holds(family1, hash_count, inserted_all(family1, hash_count, cleared(num_bits), items), query)
            == holds(family2, hash_count, inserted_all(family2, hash_count, cleared(num_bits), items), query),
{
    assert(family1 == family2);
}

/// A single hash value per item: the filter reports an item present exactly
/// when the one bit that its first hash value selects is set.
pub proof fn lemma_single_hash(family: HashFamily, bits: Seq<bool>, item: Seq<char>)
    requires
        bits.len() > 0,
    ensures
        holds(family, 1, bits, item) == bits[bit_index(family.hash_at(item, 0), bits.len())],
{
    let ps = positions(family, 1, bits.len(), item);
    assert(ps[0] == bit_index(family.hash_at(item, 0), bits.len()));
}

} // verus!
