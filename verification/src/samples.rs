//! The fixed-capacity vector of `heapless` that holds the voltage samples.
//!
//! `sample_contents` is the sequence of samples such a vector holds, in
//! order, and each function below makes one call into `heapless` and states
//! what it does to those samples.
use vstd::prelude::*;

verus! {

/// The fixed-capacity vector type of `heapless`.
#[verifier::external_type_specification]
#[verifier::external_body]
#[verifier::reject_recursive_types(T)]
pub struct ExHeaplessVec<T, const N: usize>(heapless::Vec<T, N>);

/// The samples that a vector of at most ten samples holds, in order.
pub uninterp spec fn sample_contents(v: heapless::Vec<u16, 10>) -> Seq<u16>;

/// `heapless::Vec::new`: an empty vector.
#[verifier::external_body]
pub(crate) fn empty_samples() -> (r: heapless::Vec<u16, 10>)
    ensures
        sample_contents(r) == Seq::<u16>::empty(),
{
    heapless::Vec::new()
}

/// `heapless::Vec::push`: appends `item` and returns `Ok` when fewer than ten
/// samples are held; otherwise leaves the vector as it was and hands `item`
/// back in `Err`.
#[verifier::external_body]
pub(crate) fn push_sample(v: &mut heapless::Vec<u16, 10>, item: u16) -> (r: Result<(), u16>)
    ensures
        r == (if sample_contents(*old(v)).len() < 10 { Ok(()) } else { Err(item) }),
        sample_contents(*final(v)) == (if sample_contents(*old(v)).len() < 10 {
            sample_contents(*old(v)).push(item)
        } else {
            sample_contents(*old(v))
        }),
    no_unwind
{
    v.push(item)
}

/// `heapless::Vec::as_slice`: the samples held, as a slice.
#[verifier::external_body]
pub(crate) fn samples_as_slice(v: &heapless::Vec<u16, 10>) -> (r: &[u16])
    ensures
        r@ == sample_contents(*v),
{
    v.as_slice()
}

/// `heapless::Vec::as_mut_slice`, written through: replaces the sample at
/// `index` by `item`. Indexing the slice panics on an index past the end,
/// which `requires` rules out.
#[verifier::external_body]
pub(crate) fn replace_sample(v: &mut heapless::Vec<u16, 10>, index: usize, item: u16)
    requires
        index < sample_contents(*old(v)).len(),
    ensures
        sample_contents(*final(v)) == sample_contents(*old(v)).update(index as int, item),
    no_unwind
{
    v.as_mut_slice()[index] = item;
}

} // verus!
