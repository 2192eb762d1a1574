//! The two-byte bit arrays of `bitvec` that hold the button histories.
//!
//! `History` holds one such bit array in a private field. `history_bits` is
//! the sequence of its sixteen bits in index order, and each function below
//! makes one call into `bitvec` and states what it does to those bits.
use vstd::prelude::*;
use bitvec::array::BitArray;
use bitvec::order::Lsb0;

verus! {

/// Sixteen bits of `bitvec`: a two-byte bit array that numbers the bits of
/// each byte from the least significant one.
#[verifier::external_body]
pub struct History {
    bits: BitArray<[u8; 2], Lsb0>,
}

/// The bits that a `History` holds, in index order.
pub uninterp spec fn history_bits(h: History) -> Seq<bool>;

/// `BitArray::ZERO`: a bit array of two bytes, that is sixteen bits, all clear.
#[verifier::external_body]
pub(crate) fn cleared_history() -> (r: History)
    ensures
        history_bits(r) == Seq::new(16, |i: int| false),
{
    History { bits: BitArray::ZERO }
}

/// `BitSlice::set`, reached through the bit array: writes `value` into the
/// bit at `index` and leaves every other bit as it was. `bitvec` panics on an
/// index past the end, which `requires` rules out.
#[verifier::external_body]
pub(crate) fn set_history_bit(h: &mut History, index: usize, value: bool)
    requires
        index < history_bits(*old(h)).len(),
    ensures
        history_bits(*final(h)) == history_bits(*old(h)).update(index as int, value),
    no_unwind
{
    h.bits.set(index, value);
}

/// Indexing a bit array by position (`Index<usize>` of `BitSlice`): the value
/// of the bit at `index`. `bitvec` panics on an index past the end, which
/// `requires` rules out.
#[verifier::external_body]
pub(crate) fn history_bit(h: &History, index: usize) -> (r: bool)
    requires
        index < history_bits(*h).len(),
    ensures
        r == history_bits(*h)[index as int],
{
    h.bits[index]
}

} // verus!
