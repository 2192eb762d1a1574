//! Counting and fixed-size sliding windows over sequences.
//!
//! The debouncers of this crate keep the last few samples of a signal in a
//! window of fixed length, overwriting the oldest slot on every new sample.
//! This module models such a window and proves that, once as many samples as
//! the window holds have been written, the window holds exactly those samples
//! (rotated), so that any count taken over the window equals the count over
//! the samples themselves.
use vstd::prelude::*;

verus! {

/// Number of elements of `s` that satisfy `p`.
pub open spec fn count_where<A>(s: Seq<A>, p: spec_fn(A) -> bool) -> nat
    decreases s.len(),
{
    if s.len() == 0 {
        0
    } else {
        count_where(s.drop_last(), p) + if p(s.last()) { 1nat } else { 0nat }
    }
}

/// The predicate "the bit is set".
pub open spec fn is_set() -> spec_fn(bool) -> bool {
    |b: bool| b
}

/// The predicate "the sample is strictly above `t`".
pub open spec fn above(t: u16) -> spec_fn(u16) -> bool {
    |v: u16| v > t
}

/// The predicate "the sample is strictly below `t`".
pub open spec fn below(t: u16) -> spec_fn(u16) -> bool {
    |v: u16| v < t
}

/// The `k` elements of `s` from index `i` on all satisfy `p`.
pub open spec fn run_at<A>(s: Seq<A>, p: spec_fn(A) -> bool, i: int, k: nat) -> bool {
    forall|t: int| i <= t < i + k ==> p(#[trigger] s[t])
}

/// `s` holds a run of `k` consecutive elements that satisfy `p`.
pub open spec fn has_run<A>(s: Seq<A>, p: spec_fn(A) -> bool, k: nat) -> bool {
    exists|i: int| 0 <= i && i + k <= s.len() && #[trigger] run_at(s, p, i, k)
}

/// `s` rotated so that its element at `pos` comes first.
pub open spec fn rotated<A>(s: Seq<A>, pos: int) -> Seq<A> {
    s.subrange(pos, s.len() as int) + s.subrange(0, pos)
}

/// The slot that is written `j` writes after slot `pos`, in a window of `n` slots.
pub open spec fn slot(pos: nat, j: nat, n: nat) -> nat {
    (pos + j) % n
}

/// The window `w` after writing the samples `xs` one by one, the first at
/// slot `pos` and each next one in the slot after, wrapping round at the end.
pub open spec fn ring_writes<A>(w: Seq<A>, pos: nat, xs: Seq<A>) -> Seq<A>
    decreases xs.len(),
{
    if xs.len() == 0 {
        w
    } else {
        ring_writes(w, pos, xs.drop_last()).update(
            slot(pos, (xs.len() - 1) as nat, w.len()) as int,
            xs.last(),
        )
    }
}

/// `count_where` splits over a concatenation.
pub proof fn lemma_count_add<A>(a: Seq<A>, b: Seq<A>, p: spec_fn(A) -> bool)
    ensures
        count_where(a + b, p) == count_where(a, p) + count_where(b, p),
    decreases b.len(),
{
    if b.len() == 0 {
        assert(a + b =~= a);
    } else {
        lemma_count_add(a, b.drop_last(), p);
        assert((a + b).drop_last() =~= a + b.drop_last());
        assert((a + b).last() == b.last());
    }
}

/// `count_where` of a prefix one longer adds the next element.
pub proof fn lemma_count_take_step<A>(s: Seq<A>, i: int, p: spec_fn(A) -> bool)
    requires
        0 <= i < s.len(),
    ensures
        count_where(s.take(i + 1), p) == count_where(s.take(i), p) + if p(s[i]) { 1nat } else { 0nat },
{
    assert(s.take(i + 1).drop_last() =~= s.take(i));
    assert(s.take(i + 1).last() == s[i]);
}

/// What `ring_writes` holds after `xs.len() <= n` writes: the `j`-th sample
/// stands in slot `pos + j` (wrapping), every other slot is unchanged.
proof fn lemma_ring_writes_slots<A>(w: Seq<A>, pos: nat, xs: Seq<A>)
    requires
        w.len() > 0,
        pos < w.len(),
        xs.len() <= w.len(),
    ensures
        ring_writes(w, pos, xs).len() == w.len(),
        forall|j: int| 0 <= j < xs.len() ==> #[trigger] ring_writes(w, pos, xs)[slot(pos, j as nat, w.len()) as int] == xs[j],
        forall|i: int|
            0 <= i < w.len() && (forall|j: int| 0 <= j < xs.len() ==> i != #[trigger] slot(pos, j as nat, w.len()))
                ==> ring_writes(w, pos, xs)[i] == w[i],
    decreases xs.len(),
{
    let n = w.len();
    if xs.len() > 0 {
        let ys = xs.drop_last();
        lemma_ring_writes_slots(w, pos, ys);
        let k = (xs.len() - 1) as nat;
        let r = ring_writes(w, pos, xs);
        assert forall|j: int| 0 <= j < xs.len() implies #[trigger] r[slot(pos, j as nat, n) as int] == xs[j] by {
            if j < k {
                assert(ys[j] == xs[j]);
                // two different offsets below n land on different slots
                assert(slot(pos, j as nat, n) != slot(pos, k, n)) by {
                    lemma_slot_injective(pos, j as nat, k, n);
                }
            }
        }
        assert forall|i: int|
            0 <= i < n && (forall|j: int| 0 <= j < xs.len() ==> i != #[trigger] slot(pos, j as nat, n))
            implies r[i] == w[i] by {
            assert(i != slot(pos, k, n));
            assert forall|j: int| 0 <= j < ys.len() implies i != #[trigger] slot(pos, j as nat, n) by {
                assert(i != slot(pos, j as nat, n));
            }
        }
    }
}

/// Slots at two different offsets below the window's length differ.
pub proof fn lemma_slot_injective(pos: nat, j: nat, k: nat, n: nat)
    requires
        pos < n,
        j < n,
        k < n,
        j != k,
    ensures
        slot(pos, j, n) != slot(pos, k, n),
        slot(pos, j, n) < n,
{
    lemma_slot_value(pos, j, n);
    lemma_slot_value(pos, k, n);
}

/// The slot at offset `j` is `pos + j`, less `n` where that passes the end.
pub proof fn lemma_slot_value(pos: nat, j: nat, n: nat)
    requires
        pos < n,
        j < n,
    ensures
        slot(pos, j, n) == if pos + j < n { pos + j } else { (pos + j - n) as nat },
{
    if pos + j < n {
        vstd::arithmetic::div_mod::lemma_small_mod((pos + j) as nat, n);
    } else {
        vstd::arithmetic::div_mod::lemma_small_mod((pos + j - n) as nat, n);
        vstd::arithmetic::div_mod::lemma_mod_sub_multiples_vanish((pos + j) as int, n as int);
    }
}

/// A window of `n` slots in which the `j`-th of `n` samples stands at slot
/// `pos + j` (wrapping) is those samples rotated so that the first stands at `pos`.
pub proof fn lemma_window_is_rotation<A>(w: Seq<A>, pos: nat, xs: Seq<A>)
    requires
        w.len() == xs.len(),
        pos < w.len(),
        forall|j: int| 0 <= j < xs.len() ==> #[trigger] w[slot(pos, j as nat, w.len()) as int] == xs[j],
    ensures
        w =~= xs.subrange(w.len() - pos, w.len() as int) + xs.subrange(0, w.len() - pos),
{
    let n = w.len();
    let rot = xs.subrange(n - pos, n as int) + xs.subrange(0, n - pos);
    assert forall|i: int| 0 <= i < n implies w[i] == rot[i] by {
        if i < pos {
            let j = (n - pos + i) as nat;
            lemma_slot_value(pos, j, n);
            assert(w[slot(pos, j, n) as int] == xs[j as int]);
        } else {
            let j = (i - pos) as nat;
            lemma_slot_value(pos, j, n);
            assert(w[slot(pos, j, n) as int] == xs[j as int]);
        }
    }
}

/// Rotating a sequence keeps every count over it and its multiset.
pub proof fn lemma_rotation_counts<A>(xs: Seq<A>, k: int, p: spec_fn(A) -> bool)
    requires
        0 <= k <= xs.len(),
    ensures
        count_where(xs.subrange(k, xs.len() as int) + xs.subrange(0, k), p) == count_where(xs, p),
        (xs.subrange(k, xs.len() as int) + xs.subrange(0, k)).to_multiset() == xs.to_multiset(),
{
    let a = xs.subrange(0, k);
    let b = xs.subrange(k, xs.len() as int);
    assert(xs =~= a + b);
    lemma_count_add(b, a, p);
    lemma_count_add(a, b, p);
    vstd::seq_lib::lemma_multiset_commutative(b, a);
    vstd::seq_lib::lemma_multiset_commutative(a, b);
    assert(b.to_multiset().add(a.to_multiset()) =~= a.to_multiset().add(b.to_multiset())) by {
        broadcast use vstd::multiset::group_multiset_axioms;
    }
}

/// A full round of writes leaves every count over the window equal to the
/// count over the samples written, and the same multiset of samples.
pub proof fn lemma_ring_writes_full_count<A>(w: Seq<A>, pos: nat, xs: Seq<A>, p: spec_fn(A) -> bool)
    requires
        w.len() > 0,
        pos < w.len(),
        xs.len() == w.len(),
    ensures
        count_where(ring_writes(w, pos, xs), p) == count_where(xs, p),
        ring_writes(w, pos, xs).to_multiset() == xs.to_multiset(),
{
    lemma_ring_writes_slots(w, pos, xs);
    lemma_window_is_rotation(ring_writes(w, pos, xs), pos, xs);
    lemma_rotation_counts(xs, w.len() - pos, p);
}

/// Two indices less than ten apart fall in different slots.
pub proof fn lemma_mod_distinct(k: int, j: int)
    requires
        0 <= k < j,
        j - k < 10,
    ensures
        k % 10 != j % 10,
{
    vstd::arithmetic::div_mod::lemma_fundamental_div_mod(k, 10);
    vstd::arithmetic::div_mod::lemma_fundamental_div_mod(j, 10);
    assert(k % 10 != j % 10) by (nonlinear_arith)
        requires
            0 <= k < j,
            j - k < 10,
            k == 10 * (k / 10) + k % 10,
            j == 10 * (j / 10) + j % 10,
            0 <= k % 10 < 10,
            0 <= j % 10 < 10,
    ;
}

} // verus!
