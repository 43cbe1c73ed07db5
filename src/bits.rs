use bitvec::order::Lsb0;
use bitvec::vec::BitVec;
use vstd::prelude::*;

verus! {

/// A fixed-length bit array, stored in 64-bit words by `bitvec`.
#[verifier::external_body]
pub struct Bits {
    inner: BitVec<u64, Lsb0>,
}

/// The bits that a bit array holds, in index order.
pub uninterp spec fn bits_of(b: Bits) -> Seq<bool>;

/// The largest length that a bit vector can encode.
pub const MAX_BITS: usize = usize::MAX / 8;

impl Bits {
    /// Relies on `BitVec::repeat`: a vector of `len` bits, all `false`. It
    /// panics when `len` exceeds `BitSlice::MAX_BITS`, which is `usize::MAX >> 3`, that is `usize::MAX / 8`.
    #[verifier::external_body]
    pub(crate) fn zeros(len: usize) -> (r: Bits)
        requires
            len <= MAX_BITS,
        ensures
            bits_of(r) == Seq::new(len as nat, |i: int| false),
    {
        Bits { inner: BitVec::repeat(false, len) }
    }

    /// Relies on `BitVec::len`: the number of bits held.
    #[verifier::external_body]
    pub(crate) fn len(&self) -> (r: usize)
        ensures
            r as nat == bits_of(*self).len(),
    {
        self.inner.len()
    }

    /// Relies on `BitSlice::set`: writes `value` at `index`, leaving the other
    /// bits as they were. It panics when `index` is out of bounds.
    #[verifier::external_body]
    pub(crate) fn set(&mut self, index: usize, value: bool)
        requires
            index < bits_of(*old(self)).len(),
        ensures
            bits_of(*final(self)) == bits_of(*old(self)).update(index as int, value),
    {
        self.inner.set(index, value)
    }

    /// Relies on indexing a `BitSlice` by `usize`: the bit at `index`. It
    /// panics when `index` is out of bounds.
    #[verifier::external_body]
    pub(crate) fn get(&self, index: usize) -> (r: bool)
        requires
            index < bits_of(*self).len(),
        ensures
            r == bits_of(*self)[index as int],
    {
        self.inner[index]
    }
}

} // verus!
