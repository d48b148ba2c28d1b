//! The set of voters of a backed candidate, one bit for each member of the group.
use bitvec::order::Lsb0;
use bitvec::vec::BitVec;
use vstd::prelude::*;

verus! {

/// The greatest number of bits that a `BitVec` can hold.
pub open spec fn max_bits() -> int {
    usize::MAX as int / 8
}

/// A vector of bits, least significant bit first.
#[verifier::external_body]
#[derive(Debug, PartialEq, Eq)]
pub struct ValidatorIndices {
    bits: BitVec<Lsb0, u8>,
}

/// The bits that the vector holds, in order.
pub uninterp spec fn bits_of(indices: ValidatorIndices) -> Seq<bool>;

impl View for ValidatorIndices {
    type V = Seq<bool>;

    open spec fn view(&self) -> Seq<bool> {
        bits_of(*self)
    }
}

impl ValidatorIndices {
    /// Calls `BitVec::with_capacity`: the new vector holds no bits.
    #[verifier::external_body]
    pub(crate) fn with_capacity(capacity: usize) -> (indices: Self)
        requires
            capacity <= max_bits(),
        ensures
            bits_of(indices) == Seq::<bool>::empty(),
    {
        ValidatorIndices { bits: BitVec::with_capacity(capacity) }
    }

    /// Calls `BitVec::resize`: bits past the new length are cut off, and bits up to the new length
    /// that were not there yet have the given value. A length past the maximum would panic.
    #[verifier::external_body]
    pub(crate) fn resize(&mut self, new_len: usize, value: bool)
        requires
            new_len <= max_bits(),
        ensures
            bits_of(*final(self)) == Seq::new(
                new_len as nat,
                |i: int|
                    if i < bits_of(*old(self)).len() {
                        bits_of(*old(self))[i]
                    } else {
                        value
                    },
            ),
    {
        self.bits.resize(new_len, value)
    }

    /// Calls `BitSlice::set`: the bit at the index has the given value, the others keep theirs. An
    /// index past the end would panic.
    #[verifier::external_body]
    pub(crate) fn set(&mut self, index: usize, value: bool)
        requires
            index < bits_of(*old(self)).len(),
        ensures
            bits_of(*final(self)) == bits_of(*old(self)).update(index as int, value),
    {
        self.bits.set(index, value)
    }

    /// Calls `BitSlice::get`: the bit at the index, or `None` past the end.
    #[verifier::external_body]
    pub(crate) fn get(&self, index: usize) -> (bit: Option<bool>)
        ensures
            bit == (if index < bits_of(*self).len() {
                Some(bits_of(*self)[index as int])
            } else {
                None
            }),
    {
        self.bits.get(index).copied()
    }

    /// The bits in order.
    pub fn to_vec(&self) -> (all: Vec<bool>)
        ensures
            all@ == self@,
    {
        let mut all: Vec<bool> = Vec::new();
        loop
            invariant
                all@.len() <= self@.len(),
                all@ == self@.take(all@.len() as int),
            ensures
                all@ == self@,
            decreases self@.len() - all@.len(),
        {
            match self.get(all.len()) {
                Some(bit) => {
                    all.push(bit);
                },
                None => {
                    break;
                },
            }
        }
        all
    }
}

} // verus!
