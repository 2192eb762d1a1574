//! Debouncing of the three buttons.
//!
//! Each button keeps its samples in a sixteen-bit history, of which the first
//! ten bits form a ring window over its last ten samples; the other bits stay
//! clear. A button counts as pressed when at least a given number of the
//! samples in its window were high.
use vstd::prelude::*;
use crate::history::{History, history_bits, cleared_history, set_history_bit, history_bit};
use crate::ring::{
    count_where, is_set, ring_writes, slot, lemma_count_take_step, lemma_ring_writes_full_count,
    lemma_mod_distinct, lemma_count_add, lemma_window_is_rotation, lemma_rotation_counts,
};

verus! {

/// How many samples of each button the debouncer looks at.
pub const BUTTON_HISTORY_SIZE: usize = 10;

/// How many bits each button's history holds.
pub const HISTORY_BITS: usize = 16;

/// The last samples of the three buttons, and the slot that the next sample
/// overwrites.
pub struct ButtonState {
    left: History,
    right: History,
    middle: History,
    pos: usize,
}

/// What a `ButtonState` holds: the sixteen history bits of each button, and
/// the slot of the window written next.
pub struct ButtonModel {
    pub left: Seq<bool>,
    pub right: Seq<bool>,
    pub middle: Seq<bool>,
    pub pos: nat,
}

/// The debounce window of a history: its first `BUTTON_HISTORY_SIZE` bits.
pub open spec fn window(bits: Seq<bool>) -> Seq<bool> {
    bits.take(BUTTON_HISTORY_SIZE as int)
}

/// A history of `HISTORY_BITS` bits whose bits past the window are all clear.
pub open spec fn valid_history(bits: Seq<bool>) -> bool {
    &&& bits.len() == HISTORY_BITS
    &&& forall|i: int| BUTTON_HISTORY_SIZE <= i < HISTORY_BITS ==> !#[trigger] bits[i]
}

impl ButtonModel {
    /// Every history bit clear, and the first sample goes to slot 0.
    pub open spec fn initial() -> ButtonModel {
        ButtonModel {
            left: Seq::new(HISTORY_BITS as nat, |i: int| false),
            right: Seq::new(HISTORY_BITS as nat, |i: int| false),
            middle: Seq::new(HISTORY_BITS as nat, |i: int| false),
            pos: 0,
        }
    }

    /// Every history has `HISTORY_BITS` bits, those past the window clear,
    /// and `pos` is a slot of the window.
    pub open spec fn valid(self) -> bool {
        &&& valid_history(self.left)
        &&& valid_history(self.right)
        &&& valid_history(self.middle)
        &&& self.pos < BUTTON_HISTORY_SIZE
    }

    /// The state after one sample of each button: each sample overwrites the
    /// bit at `pos`, every other bit is kept, and `pos` moves on to the next
    /// slot of the window, wrapping round.
    pub open spec fn after_update(self, left: bool, right: bool, middle: bool) -> ButtonModel {
        ButtonModel {
            left: self.left.update(self.pos as int, left),
            right: self.right.update(self.pos as int, right),
            middle: self.middle.update(self.pos as int, middle),
            pos: (self.pos + 1) % (BUTTON_HISTORY_SIZE as nat),
        }
    }

    /// The state after the samples `lefts[i]`, `rights[i]`, `middles[i]`, in
    /// order of `i`.
    pub open spec fn after_updates(self, lefts: Seq<bool>, rights: Seq<bool>, middles: Seq<bool>) -> ButtonModel
        decreases lefts.len(),
    {
        if lefts.len() == 0 {
            self
        } else {
            self.after_updates(lefts.drop_last(), rights.drop_last(), middles.drop_last()).after_update(
                lefts.last(),
                rights.last(),
                middles.last(),
            )
        }
    }

    /// For each button, whether at least `threshold` samples of its window are high.
    pub open spec fn debounced(self, threshold: nat) -> (bool, bool, bool) {
        (
            count_where(window(self.left), is_set()) >= threshold,
            count_where(window(self.right), is_set()) >= threshold,
            count_where(window(self.middle), is_set()) >= threshold,
        )
    }
}

impl ButtonState {
    /// The histories of the three buttons, bit by bit, and the next slot.
    pub closed spec fn view(&self) -> ButtonModel {
        ButtonModel {
            left: history_bits(self.left),
            right: history_bits(self.right),
            middle: history_bits(self.middle),
            pos: self.pos as nat,
        }
    }

    /// Every `ButtonState` holds a valid model.
    #[verifier::type_invariant]
    closed spec fn inv(self) -> bool {
        self.view().valid()
    }

    /// No button has been high yet: all sixteen bits of each history are
    /// clear, and the first sample goes to slot 0.
    pub fn new() -> (r: ButtonState)
        ensures
            r.view() == ButtonModel::initial(),
    {
        ButtonState { left: cleared_history(), right: cleared_history(), middle: cleared_history(), pos: 0 }
    }

    /// Records one sample of each button in the bit at `pos`, keeping every
    /// other bit, and moves on.
    pub fn update(&mut self, left: bool, right: bool, middle: bool)
        ensures
            final(self).view().valid(),
            final(self).view() == old(self).view().after_update(left, right, middle),
    {
        proof {
            use_type_invariant(&*self);
        }
        let pos = self.pos;
        set_history_bit(&mut self.left, pos, left);
        set_history_bit(&mut self.right, pos, right);
        set_history_bit(&mut self.middle, pos, middle);
        self.pos = (self.pos + 1) % BUTTON_HISTORY_SIZE;
    }

    /// For each button (left, right, middle), whether at least `threshold`
    /// of its last samples were high.
    pub fn is_debounced(&self, threshold: usize) -> (r: (bool, bool, bool))
        ensures
            r == self.view().debounced(threshold as nat),
    {
        proof {
            use_type_invariant(self);
        }
        let left_count = count_high(&self.left);
        let right_count = count_high(&self.right);
        let middle_count = count_high(&self.middle);
        (left_count >= threshold, right_count >= threshold, middle_count >= threshold)
    }
}

/// How many bits of the window of `h` are set.
fn count_high(h: &History) -> (c: usize)
    requires
        history_bits(*h).len() == HISTORY_BITS,
    ensures
        c == count_where(window(history_bits(*h)), is_set()),
{
    let ghost bits = history_bits(*h);
    let mut c: usize = 0;
    let mut i: usize = 0;
    while i < BUTTON_HISTORY_SIZE
        invariant
            i <= BUTTON_HISTORY_SIZE,
            bits == history_bits(*h),
            bits.len() == HISTORY_BITS,
            c <= i,
            c == count_where(bits.take(i as int), is_set()),
        decreases BUTTON_HISTORY_SIZE - i,
    {
        proof {
            lemma_count_take_step(bits, i as int, is_set());
        }
        if history_bit(h, i) {
            c = c + 1;
        }
        i = i + 1;
    }
    c
}

/// A run of samples lands in the windows as a run of ring writes starting
/// at `pos`, the bits past the windows stay clear, and `pos` ends up as many
/// slots further on.
proof fn lemma_after_updates_ring(m: ButtonModel, lefts: Seq<bool>, rights: Seq<bool>, middles: Seq<bool>)
    requires
        m.valid(),
        lefts.len() == rights.len(),
        lefts.len() == middles.len(),
    ensures
        m.after_updates(lefts, rights, middles).valid(),
        window(m.after_updates(lefts, rights, middles).left) == ring_writes(window(m.left), m.pos, lefts),
        window(m.after_updates(lefts, rights, middles).right) == ring_writes(window(m.right), m.pos, rights),
        window(m.after_updates(lefts, rights, middles).middle) == ring_writes(window(m.middle), m.pos, middles),
        m.after_updates(lefts, rights, middles).pos == (m.pos + lefts.len()) % (BUTTON_HISTORY_SIZE as nat),
    decreases lefts.len(),
{
    if lefts.len() > 0 {
        let k = lefts.len();
        let prev = m.after_updates(lefts.drop_last(), rights.drop_last(), middles.drop_last());
        let r = m.after_updates(lefts, rights, middles);
        lemma_after_updates_ring(m, lefts.drop_last(), rights.drop_last(), middles.drop_last());
        vstd::arithmetic::div_mod::lemma_add_mod_noop((m.pos + k - 1) as int, 1, 10);
        vstd::arithmetic::div_mod::lemma_small_mod(1, 10);
        let p = prev.pos as int;
        assert(window(r.left) =~= window(prev.left).update(p, lefts.last()));
        assert(window(r.right) =~= window(prev.right).update(p, rights.last()));
        assert(window(r.middle) =~= window(prev.middle).update(p, middles.last()));
    }
}

/// The debounce decision after ten samples of each button depends on those
/// ten samples alone: each button counts as pressed exactly when at least
/// `threshold` of its last ten samples were high, whatever came before.
pub proof fn law_debounce_reads_last_ten_samples(
    m: ButtonModel,
    lefts: Seq<bool>,
    rights: Seq<bool>,
    middles: Seq<bool>,
    threshold: nat,
)
    requires
        m.valid(),
        lefts.len() == BUTTON_HISTORY_SIZE,
        rights.len() == BUTTON_HISTORY_SIZE,
        middles.len() == BUTTON_HISTORY_SIZE,
    ensures
        m.after_updates(lefts, rights, middles).debounced(threshold) == (
            count_where(lefts, is_set()) >= threshold,
            count_where(rights, is_set()) >= threshold,
            count_where(middles, is_set()) >= threshold,
        ),
        window(m.after_updates(lefts, rights, middles).left).to_multiset() == lefts.to_multiset(),
        window(m.after_updates(lefts, rights, middles).right).to_multiset() == rights.to_multiset(),
        window(m.after_updates(lefts, rights, middles).middle).to_multiset() == middles.to_multiset(),
{
    lemma_after_updates_ring(m, lefts, rights, middles);
    lemma_ring_writes_full_count(window(m.left), m.pos, lefts, is_set());
    lemma_ring_writes_full_count(window(m.right), m.pos, rights, is_set());
    lemma_ring_writes_full_count(window(m.middle), m.pos, middles, is_set());
}

/// From a fresh state, after `n` samples of each button, every history
/// holds in slot `k % 10` the `k`-th sample, for each of the last (at most
/// ten) samples; slots not yet written and the bits past the window are
/// clear; and the next sample goes to slot `n % 10`.
pub proof fn law_histories_keep_last_samples(lefts: Seq<bool>, rights: Seq<bool>, middles: Seq<bool>)
    requires
        lefts.len() == rights.len(),
        lefts.len() == middles.len(),
    ensures
        ({
            let n = lefts.len() as int;
            let r = ButtonModel::initial().after_updates(lefts, rights, middles);
            &&& r.valid()
            &&& r.pos == n % 10
            &&& forall|k: int|
                n - 10 <= k < n && 0 <= k ==> #[trigger] r.left[k % 10] == lefts[k] && r.right[k % 10] == rights[k]
                    && r.middle[k % 10] == middles[k]
            &&& forall|i: int| n <= i < HISTORY_BITS ==> !r.left[i] && !r.right[i] && !r.middle[i]
        }),
    decreases lefts.len(),
{
    let n = lefts.len() as int;
    let m = ButtonModel::initial();
    lemma_after_updates_ring(m, lefts, rights, middles);
    if n > 0 {
        let prev = m.after_updates(lefts.drop_last(), rights.drop_last(), middles.drop_last());
        let r = m.after_updates(lefts, rights, middles);
        law_histories_keep_last_samples(lefts.drop_last(), rights.drop_last(), middles.drop_last());
        lemma_after_updates_ring(m, lefts.drop_last(), rights.drop_last(), middles.drop_last());
        assert(prev.pos == (n - 1) % 10);
        assert forall|k: int| n - 10 <= k < n && 0 <= k implies #[trigger] r.left[k % 10] == lefts[k]
            && r.right[k % 10] == rights[k] && r.middle[k % 10] == middles[k] by {
            if k < n - 1 {
                lemma_mod_distinct(k, n - 1);
                assert(prev.left[k % 10] == lefts.drop_last()[k]);
                assert(lefts.drop_last()[k] == lefts[k]);
                assert(rights.drop_last()[k] == rights[k]);
                assert(middles.drop_last()[k] == middles[k]);
                assert(r.left[k % 10] == prev.left[k % 10]);
                assert(r.right[k % 10] == prev.right[k % 10]);
                assert(r.middle[k % 10] == prev.middle[k % 10]);
            } else {
                assert(k % 10 == prev.pos);
            }
        }
        assert forall|i: int| n <= i < HISTORY_BITS implies !r.left[i] && !r.right[i] && !r.middle[i] by {
            assert(prev.pos < 10);
            if i < 10 {
                vstd::arithmetic::div_mod::lemma_small_mod((n - 1) as nat, 10);
            }
        }
    }
}

/// No element of a sequence of clear bits is set.
proof fn lemma_count_clear(n: nat)
    ensures
        count_where(Seq::new(n, |i: int| false), is_set()) == 0,
    decreases n,
{
    if n > 0 {
        lemma_count_clear((n - 1) as nat);
        assert(Seq::new(n, |i: int| false).drop_last() =~= Seq::new((n - 1) as nat, |i: int| false));
    }
}

/// A history whose window holds the last (at most ten) of the samples `xs`,
/// the `k`-th in slot `k % 10`, and is clear elsewhere, counts exactly the
/// high ones among those samples.
proof fn lemma_window_counts_last_samples(h: Seq<bool>, xs: Seq<bool>)
    requires
        valid_history(h),
        forall|k: int| xs.len() - 10 <= k < xs.len() && 0 <= k ==> #[trigger] h[k % 10] == xs[k],
        forall|i: int| xs.len() <= i < HISTORY_BITS ==> !#[trigger] h[i],
    ensures
        count_where(window(h), is_set()) == count_where(
            xs.subrange(if xs.len() < 10 { 0 } else { xs.len() - 10 }, xs.len() as int),
            is_set(),
        ),
{
    let n = xs.len() as int;
    let w = window(h);
    if n < 10 {
        let clear = Seq::new((10 - n) as nat, |i: int| false);
        assert forall|k: int| 0 <= k < n implies w[k] == xs[k] by {
            vstd::arithmetic::div_mod::lemma_small_mod(k as nat, 10);
        }
        assert(w =~= xs.subrange(0, n) + clear);
        lemma_count_add(xs.subrange(0, n), clear, is_set());
        lemma_count_clear((10 - n) as nat);
    } else {
        let last = xs.subrange(n - 10, n);
        let p = (n % 10) as nat;
        assert forall|j: int| 0 <= j < 10 implies #[trigger] w[slot(p, j as nat, 10) as int] == last[j] by {
            vstd::arithmetic::div_mod::lemma_add_mod_noop(n, j, 10);
            vstd::arithmetic::div_mod::lemma_small_mod(j as nat, 10);
            vstd::arithmetic::div_mod::lemma_mod_sub_multiples_vanish(n + j, 10);
            assert((n - 10 + j) % 10 == slot(p, j as nat, 10));
            assert(h[(n - 10 + j) % 10] == xs[n - 10 + j]);
        }
        lemma_window_is_rotation(w, p, last);
        lemma_rotation_counts(last, 10 - p, is_set());
    }
}

/// From a fresh state, after any number of samples of each button, each
/// button counts as pressed exactly when at least `threshold` of its last
/// (at most ten) samples were high.
pub proof fn law_debounce_counts_last_samples(
    lefts: Seq<bool>,
    rights: Seq<bool>,
    middles: Seq<bool>,
    threshold: nat,
)
    requires
        lefts.len() == rights.len(),
        lefts.len() == middles.len(),
    ensures
        ({
            let n = lefts.len() as int;
            let from = if n < 10 { 0 } else { n - 10 };
            ButtonModel::initial().after_updates(lefts, rights, middles).debounced(threshold) == (
                count_where(lefts.subrange(from, n), is_set()) >= threshold,
                count_where(rights.subrange(from, n), is_set()) >= threshold,
                count_where(middles.subrange(from, n), is_set()) >= threshold,
            )
        }),
{
    law_histories_keep_last_samples(lefts, rights, middles);
    let r = ButtonModel::initial().after_updates(lefts, rights, middles);
    let n = lefts.len() as int;
    assert forall|k: int| n - 10 <= k < n && 0 <= k implies #[trigger] r.right[k % 10] == rights[k] by {
        assert(r.left[k % 10] == lefts[k]);
    }
    assert forall|k: int| n - 10 <= k < n && 0 <= k implies #[trigger] r.middle[k % 10] == middles[k] by {
        assert(r.left[k % 10] == lefts[k]);
    }
    lemma_window_counts_last_samples(r.left, lefts);
    lemma_window_counts_last_samples(r.right, rights);
    lemma_window_counts_last_samples(r.middle, middles);
}

} // verus!
