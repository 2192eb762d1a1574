//! Detection of hits from coil voltage samples, and the time budget per period.
//!
//! The last ten voltage samples are kept in a ring buffer. A hit starts when
//! they hold a run of consecutive high samples and ends when they hold a run
//! of consecutive low ones. The time of
//! each hit is charged to the current period and to the all-time total; a
//! period may be charged at most `PERIOD_LIMIT_MS`, and once that is reached
//! no hit is counted or timed until the period is reset.
use vstd::prelude::*;
use vstd::wrapping::u32_specs;
use crate::ring::{
    above, below, slot, run_at, has_run, rotated, lemma_slot_injective, lemma_slot_value,
    lemma_window_is_rotation, lemma_mod_distinct,
};
use crate::samples::{sample_contents, empty_samples, push_sample, samples_as_slice, replace_sample};

verus! {

/// How many voltage samples the detector looks at.
pub const VOLTAGE_HISTORY_SIZE: usize = 10;

/// A sample above this counts towards the start of a hit.
pub const HIT_HIGH: u16 = 140;

/// A sample below this counts towards the end of a hit.
pub const HIT_LOW: u16 = 120;

/// How many consecutive high samples start a hit.
pub const OVER_DEBOUNCE: usize = 5;

/// How many consecutive low samples end a hit.
pub const UNDER_DEBOUNCE: usize = 3;

/// How much hitting time a period allows, in milliseconds.
pub const PERIOD_LIMIT_MS: u32 = 3_000;

/// How long a period lasts, in milliseconds.
pub const PERIOD_DURATION_MS: u32 = 60_000;

/// `a - b`, or 0 where `b` is larger.
pub open spec fn sat_sub(a: u32, b: u32) -> u32 {
    if a >= b { (a - b) as u32 } else { 0 }
}

/// The voltage samples, the state of the current hit, the totals and the
/// current period, as fields that the detector's steps update one by one.
struct Detector {
    samples: heapless::Vec<u16, 10>,
    pos: usize,
    hit_active: bool,
    hit_start_time: Option<u32>,
    total_hit_duration_ms: u32,
    current_hit_duration_ms: u32,
    total_hit_count: u32,
    period_start_time: u32,
    period_duration_ms: u32,
}

/// What a `VoltageState` holds.
pub struct VoltageModel {
    /// The samples held, at most `VOLTAGE_HISTORY_SIZE`.
    pub samples: Seq<u16>,
    /// The slot that the next sample overwrites once the buffer is full.
    pub pos: nat,
    pub hit_active: bool,
    pub hit_start_time: Option<u32>,
    pub total_hit_duration_ms: u32,
    pub current_hit_duration_ms: u32,
    pub total_hit_count: u32,
    pub period_start_time: u32,
    pub period_duration_ms: u32,
}

/// One operation on the detector, for stating what holds over a whole run
/// of calls: a sample, a hit check, a periodic check of the period, or a
/// reset of the period, each at the time given.
pub enum VoltageOp {
    Sample(u16),
    Check(u32),
    PeriodCheck(u32),
    PeriodReset(u32),
}

impl VoltageModel {
    /// The state that the operations of `VoltageState` keep: the buffer fills
    /// slot by slot before it wraps round, a hit is active exactly when it has
    /// a start time, an idle detector has no current duration, a period is
    /// never charged past its limit, and no hit is active at the limit.
    pub open spec fn valid(self) -> bool {
        &&& self.samples.len() <= VOLTAGE_HISTORY_SIZE
        &&& self.pos < VOLTAGE_HISTORY_SIZE
        &&& self.samples.len() < VOLTAGE_HISTORY_SIZE ==> self.pos == self.samples.len()
        &&& self.hit_active <==> self.hit_start_time is Some
        &&& !self.hit_active ==> self.current_hit_duration_ms == 0
        &&& self.period_duration_ms <= PERIOD_LIMIT_MS
        &&& self.hit_active ==> self.period_duration_ms < PERIOD_LIMIT_MS
    }

    /// The state of a detector that has seen nothing.
    pub open spec fn initial() -> VoltageModel {
        VoltageModel {
            samples: Seq::empty(),
            pos: 0,
            hit_active: false,
            hit_start_time: None,
            total_hit_duration_ms: 0,
            current_hit_duration_ms: 0,
            total_hit_count: 0,
            period_start_time: 0,
            period_duration_ms: 0,
        }
    }

    /// The state after one operation.
    pub open spec fn apply(self, op: VoltageOp) -> VoltageModel {
        match op {
            VoltageOp::Sample(x) => self.after_sample(x),
            VoltageOp::Check(now) => self.check_hit(now).0,
            VoltageOp::PeriodCheck(now) => self.after_period_check(now),
            VoltageOp::PeriodReset(now) => self.after_period_reset(now),
        }
    }

    /// The state after the operations `ops`, in order.
    pub open spec fn after_ops(self, ops: Seq<VoltageOp>) -> VoltageModel
        decreases ops.len(),
    {
        if ops.len() == 0 {
            self
        } else {
            self.after_ops(ops.drop_last()).apply(ops.last())
        }
    }

    /// How many of the operations `ops` are hit checks that found no hit in
    /// progress and left one in progress.
    pub open spec fn hit_starts(self, ops: Seq<VoltageOp>) -> nat
        decreases ops.len(),
    {
        if ops.len() == 0 {
            0
        } else {
            let prev = self.after_ops(ops.drop_last());
            self.hit_starts(ops.drop_last()) + if ops.last() is Check && !prev.hit_active && prev.apply(
                ops.last(),
            ).hit_active {
                1nat
            } else {
                0nat
            }
        }
    }

    /// The state after one more sample: appended while the buffer is not
    /// full, otherwise written over the slot at `pos`; `pos` moves on.
    pub open spec fn after_sample(self, sample: u16) -> VoltageModel {
        VoltageModel {
            samples: if self.samples.len() < VOLTAGE_HISTORY_SIZE {
                self.samples.push(sample)
            } else {
                self.samples.update(self.pos as int, sample)
            },
            pos: (self.pos + 1) % (VOLTAGE_HISTORY_SIZE as nat),
            ..self
        }
    }

    /// The state after the samples `xs`, in order.
    pub open spec fn after_samples(self, xs: Seq<u16>) -> VoltageModel
        decreases xs.len(),
    {
        if xs.len() == 0 {
            self
        } else {
            self.after_samples(xs.drop_last()).after_sample(xs.last())
        }
    }

    /// The samples held, oldest first: while the buffer fills they stand in
    /// arrival order, and once it is full the oldest stands at `pos`.
    pub open spec fn in_arrival_order(self) -> Seq<u16> {
        if self.samples.len() < VOLTAGE_HISTORY_SIZE {
            self.samples
        } else {
            rotated(self.samples, self.pos as int)
        }
    }

    /// The samples held include `OVER_DEBOUNCE` consecutive ones above `HIT_HIGH`.
    pub open spec fn high_run(self) -> bool {
        has_run(self.in_arrival_order(), above(HIT_HIGH), OVER_DEBOUNCE as nat)
    }

    /// The samples held include `UNDER_DEBOUNCE` consecutive ones below `HIT_LOW`.
    pub open spec fn low_run(self) -> bool {
        has_run(self.in_arrival_order(), below(HIT_LOW), UNDER_DEBOUNCE as nat)
    }

    /// The period has been charged all it allows.
    pub open spec fn limit_reached(self) -> bool {
        self.period_duration_ms >= PERIOD_LIMIT_MS
    }

    /// No hit in progress.
    pub open spec fn idle(self) -> VoltageModel {
        VoltageModel { hit_active: false, hit_start_time: None, current_hit_duration_ms: 0, ..self }
    }

    /// `d` milliseconds charged to the period and to the total; where the
    /// period would pass its limit, only what remains up to the limit is
    /// charged and the period stands at the limit. Sums wrap round at 2^32.
    pub open spec fn charged(self, d: u32) -> VoltageModel {
        let np = u32_specs::wrapping_add(self.period_duration_ms, d);
        if np > PERIOD_LIMIT_MS {
            self.capped()
        } else {
            VoltageModel {
                total_hit_duration_ms: u32_specs::wrapping_add(self.total_hit_duration_ms, d),
                period_duration_ms: np,
                ..self
            }
        }
    }

    /// Whatever remains of the period charged to it and to the total.
    pub open spec fn capped(self) -> VoltageModel {
        VoltageModel {
            total_hit_duration_ms: u32_specs::wrapping_add(
                self.total_hit_duration_ms,
                sat_sub(PERIOD_LIMIT_MS, self.period_duration_ms),
            ),
            period_duration_ms: PERIOD_LIMIT_MS,
            ..self
        }
    }

    /// One step of hit detection at time `now` (milliseconds, wrapping):
    /// the new state, and whether a hit has just ended.
    ///
    /// - Until the buffer is full nothing happens.
    /// - At the limit, an active hit is dropped without being charged.
    /// - A run of `OVER_DEBOUNCE` consecutive high samples starts a hit,
    ///   which is counted.
    /// - A run of `UNDER_DEBOUNCE` consecutive low samples ends an active
    ///   hit, which is charged.
    /// - Otherwise an active hit's current duration is brought up to date,
    ///   and the hit is ended, charging what remains of the period, once
    ///   the period with it would reach the limit.
    pub open spec fn check_hit(self, now: u32) -> (VoltageModel, bool) {
        if self.samples.len() < VOLTAGE_HISTORY_SIZE {
            (self, false)
        } else if self.limit_reached() {
            (if self.hit_active { self.idle() } else { self }, false)
        } else if self.high_run() && !self.hit_active {
            (
                VoltageModel {
                    hit_active: true,
                    hit_start_time: Some(now),
                    current_hit_duration_ms: 0,
                    total_hit_count: u32_specs::wrapping_add(self.total_hit_count, 1),
                    ..self
                },
                false,
            )
        } else if self.low_run() && self.hit_active {
            match self.hit_start_time {
                Some(start) => (self.charged(u32_specs::wrapping_sub(now, start)).idle(), true),
                None => (VoltageModel { hit_active: false, ..self }, false),
            }
        } else if self.hit_active {
            match self.hit_start_time {
                Some(start) => {
                    let current = u32_specs::wrapping_sub(now, start);
                    if u32_specs::wrapping_add(self.period_duration_ms, current) >= PERIOD_LIMIT_MS {
                        (self.capped().idle(), true)
                    } else {
                        (VoltageModel { current_hit_duration_ms: current, ..self }, false)
                    }
                },
                None => (self, false),
            }
        } else {
            (self, false)
        }
    }

    /// A new period starting at `now`, with nothing charged to it.
    pub open spec fn after_period_reset(self, now: u32) -> VoltageModel {
        VoltageModel { period_start_time: now, period_duration_ms: 0, ..self }
    }

    /// A new period starts at `now` once a whole period has passed since the
    /// current one started (times wrap round at 2^32).
    pub open spec fn after_period_check(self, now: u32) -> VoltageModel {
        if u32_specs::wrapping_sub(now, self.period_start_time) >= PERIOD_DURATION_MS {
            self.after_period_reset(now)
        } else {
            self
        }
    }

    /// What the period still allows.
    pub open spec fn period_remaining_ms(self) -> u32 {
        if self.period_duration_ms >= PERIOD_LIMIT_MS {
            0
        } else {
            (PERIOD_LIMIT_MS - self.period_duration_ms) as u32
        }
    }

    /// How long until the current period is over, 0 once it is.
    pub open spec fn time_until_reset_ms(self, now: u32) -> u32 {
        let elapsed = u32_specs::wrapping_sub(now, self.period_start_time);
        if elapsed >= PERIOD_DURATION_MS {
            0
        } else {
            (PERIOD_DURATION_MS - elapsed) as u32
        }
    }
}

impl Detector {
    /// What this state holds.
    spec fn view(&self) -> VoltageModel {
        VoltageModel {
            samples: sample_contents(self.samples),
            pos: self.pos as nat,
            hit_active: self.hit_active,
            hit_start_time: self.hit_start_time,
            total_hit_duration_ms: self.total_hit_duration_ms,
            current_hit_duration_ms: self.current_hit_duration_ms,
            total_hit_count: self.total_hit_count,
            period_start_time: self.period_start_time,
            period_duration_ms: self.period_duration_ms,
        }
    }

    /// The state is valid.
    spec fn wf(&self) -> bool {
        self.view().valid()
    }

    /// A detector that has seen nothing, with no hits and a period that
    /// starts at time 0.
    fn new() -> (r: Detector)
        ensures
            r.wf(),
            r.view() == VoltageModel::initial(),
    {
        Detector {
            samples: empty_samples(),
            pos: 0,
            hit_active: false,
            hit_start_time: None,
            total_hit_duration_ms: 0,
            current_hit_duration_ms: 0,
            total_hit_count: 0,
            period_start_time: 0,
            period_duration_ms: 0,
        }
    }

    /// Records one voltage sample.
    fn update(&mut self, sample: u16)
        requires
            old(self).wf(),
        ensures
            final(self).wf(),
            final(self).view() == old(self).view().after_sample(sample),
    {
        let pos = self.pos;
        if samples_as_slice(&self.samples).len() < VOLTAGE_HISTORY_SIZE {
            let pushed = push_sample(&mut self.samples, sample);
            assert(pushed is Ok);
        } else {
            replace_sample(&mut self.samples, pos, sample);
        }
        self.pos = (self.pos + 1) % VOLTAGE_HISTORY_SIZE;
    }

    /// Runs one step of hit detection at time `current_time_ms` and returns
    /// whether a hit has just ended (see `VoltageModel::check_hit`).
    fn check_hit(&mut self, current_time_ms: u32) -> (ended: bool)
        requires
            old(self).wf(),
        ensures
            final(self).wf(),
            (final(self).view(), ended) == old(self).view().check_hit(current_time_ms),
    {
        let samples = samples_as_slice(&self.samples);
        if samples.len() < VOLTAGE_HISTORY_SIZE {
            return false;
        }
        if self.period_duration_ms >= PERIOD_LIMIT_MS {
            if self.hit_active {
                self.hit_active = false;
                self.hit_start_time = None;
                self.current_hit_duration_ms = 0;
            }
            return false;
        }
        let high_run = has_run_in_arrival_order(samples, self.pos, HIT_HIGH, true, OVER_DEBOUNCE);
        let low_run = has_run_in_arrival_order(samples, self.pos, HIT_LOW, false, UNDER_DEBOUNCE);
        let mut hit_just_ended = false;
        if high_run && !self.hit_active {
            if self.period_duration_ms < PERIOD_LIMIT_MS {
                self.hit_active = true;
                self.hit_start_time = Some(current_time_ms);
                self.current_hit_duration_ms = 0;
                self.total_hit_count = self.total_hit_count.wrapping_add(1);
            }
        } else if low_run && self.hit_active {
            self.hit_active = false;
            if let Some(start) = self.hit_start_time {
                let duration = current_time_ms.wrapping_sub(start);
                let new_period_duration = self.period_duration_ms.wrapping_add(duration);
                if new_period_duration > PERIOD_LIMIT_MS {
                    let allowed_duration = PERIOD_LIMIT_MS.saturating_sub(self.period_duration_ms);
                    self.total_hit_duration_ms = self.total_hit_duration_ms.wrapping_add(allowed_duration);
                    self.period_duration_ms = PERIOD_LIMIT_MS;
                } else {
                    self.total_hit_duration_ms = self.total_hit_duration_ms.wrapping_add(duration);
                    self.period_duration_ms = new_period_duration;
                }
                self.current_hit_duration_ms = 0;
                hit_just_ended = true;
            }
            self.hit_start_time = None;
        } else if self.hit_active {
            if let Some(start) = self.hit_start_time {
                self.current_hit_duration_ms = current_time_ms.wrapping_sub(start);
                let projected_period_duration = self.period_duration_ms.wrapping_add(self.current_hit_duration_ms);
                if projected_period_duration >= PERIOD_LIMIT_MS {
                    self.hit_active = false;
                    let allowed_duration = PERIOD_LIMIT_MS.saturating_sub(self.period_duration_ms);
                    self.total_hit_duration_ms = self.total_hit_duration_ms.wrapping_add(allowed_duration);
                    self.period_duration_ms = PERIOD_LIMIT_MS;
                    self.current_hit_duration_ms = 0;
                    self.hit_start_time = None;
                    hit_just_ended = true;
                }
            }
        }
        hit_just_ended
    }
}

/// The voltage samples, the state of the current hit, the totals and the
/// current period.
pub struct VoltageState {
    detector: Detector,
}

impl VoltageState {
    /// Every `VoltageState` holds a valid model.
    #[verifier::type_invariant]
    closed spec fn inv(self) -> bool {
        self.detector.wf()
    }

    /// What this state holds.
    pub closed spec fn view(&self) -> VoltageModel {
        self.detector.view()
    }

    /// A detector that has seen nothing, with no hits and a period that
    /// starts at time 0.
    pub fn new() -> (r: VoltageState)
        ensures
            r.view() == VoltageModel::initial(),
    {
        VoltageState { detector: Detector::new() }
    }

    /// Records one voltage sample.
    pub fn update(&mut self, sample: u16)
        ensures
            final(self).view() == old(self).view().after_sample(sample),
    {
        proof {
            use_type_invariant(&*self);
        }
        let mut detector = Detector::new();
        core::mem::swap(&mut detector, &mut self.detector);
        detector.update(sample);
        self.detector = detector;
    }

    /// Runs one step of hit detection at time `current_time_ms` and returns
    /// whether a hit has just ended (see `VoltageModel::check_hit`).
    pub fn check_hit(&mut self, current_time_ms: u32) -> (ended: bool)
        ensures
            (final(self).view(), ended) == old(self).view().check_hit(current_time_ms),
    {
        proof {
            use_type_invariant(&*self);
        }
        let mut detector = Detector::new();
        core::mem::swap(&mut detector, &mut self.detector);
        let ended = detector.check_hit(current_time_ms);
        self.detector = detector;
        ended
    }

    /// How long the current hit has lasted so far, 0 when there is none.
    pub fn get_current_duration_ms(&self) -> (r: u32)
        ensures
            r == self.view().current_hit_duration_ms,
    {
        self.detector.current_hit_duration_ms
    }

    /// Whether a hit is in progress.
    pub fn is_hitting(&self) -> (r: bool)
        ensures
            r == self.view().hit_active,
    {
        self.detector.hit_active
    }

    /// How many hits have started, all time (wrapping round at 2^32).
    pub fn get_hit_count(&self) -> (r: u32)
        ensures
            r == self.view().total_hit_count,
    {
        self.detector.total_hit_count
    }

    /// The time charged to all hits, all time, in milliseconds (wrapping round at 2^32).
    pub fn total_hit_duration_ms(&self) -> (r: u32)
        ensures
            r == self.view().total_hit_duration_ms,
    {
        self.detector.total_hit_duration_ms
    }

    /// The time charged to the current period, in milliseconds.
    pub fn period_duration_ms(&self) -> (r: u32)
        ensures
            r == self.view().period_duration_ms,
    {
        self.detector.period_duration_ms
    }

    /// Sets the all-time total duration, as when it is restored from storage.
    pub fn set_total_hit_duration_ms(&mut self, total: u32)
        ensures
            final(self).view() == (VoltageModel { total_hit_duration_ms: total, ..old(self).view() }),
    {
        proof {
            use_type_invariant(&*self);
        }
        self.detector.total_hit_duration_ms = total;
    }

    /// Sets the all-time hit count, as when it is restored from storage.
    pub fn set_total_hit_count(&mut self, count: u32)
        ensures
            final(self).view() == (VoltageModel { total_hit_count: count, ..old(self).view() }),
    {
        proof {
            use_type_invariant(&*self);
        }
        self.detector.total_hit_count = count;
    }

    /// Starts a new period at `current_time_ms` once a whole period has passed.
    pub fn check_period_reset(&mut self, current_time_ms: u32)
        ensures
            final(self).view() == old(self).view().after_period_check(current_time_ms),
    {
        proof {
            use_type_invariant(&*self);
        }
        if current_time_ms.wrapping_sub(self.detector.period_start_time) >= PERIOD_DURATION_MS {
            self.detector.period_start_time = current_time_ms;
            self.detector.period_duration_ms = 0;
        }
    }

    /// Starts a new period at `current_time_ms`, whatever has passed.
    pub fn reset_period(&mut self, current_time_ms: u32)
        ensures
            final(self).view() == old(self).view().after_period_reset(current_time_ms),
    {
        proof {
            use_type_invariant(&*self);
        }
        self.detector.period_start_time = current_time_ms;
        self.detector.period_duration_ms = 0;
    }

    /// What the current period still allows, in milliseconds.
    pub fn get_period_remaining_ms(&self) -> (r: u32)
        ensures
            r == self.view().period_remaining_ms(),
    {
        if self.detector.period_duration_ms >= PERIOD_LIMIT_MS {
            0
        } else {
            PERIOD_LIMIT_MS - self.detector.period_duration_ms
        }
    }

    /// Whether the current period has been charged all it allows.
    pub fn is_limit_reached(&self) -> (r: bool)
        ensures
            r == self.view().limit_reached(),
    {
        self.detector.period_duration_ms >= PERIOD_LIMIT_MS
    }

    /// How long until the current period is over, at time `current_time_ms`;
    /// 0 once it is.
    pub fn get_time_until_reset_ms(&self, current_time_ms: u32) -> (r: u32)
        ensures
            r == self.view().time_until_reset_ms(current_time_ms),
    {
        let elapsed_in_period = current_time_ms.wrapping_sub(self.detector.period_start_time);
        if elapsed_in_period >= PERIOD_DURATION_MS {
            0
        } else {
            PERIOD_DURATION_MS - elapsed_in_period
        }
    }
}

/// Above `t` where `high`, below it otherwise.
pub open spec fn level(t: u16, high: bool) -> spec_fn(u16) -> bool {
    if high {
        above(t)
    } else {
        below(t)
    }
}

/// Whether the samples of the full buffer `s`, taken oldest first from slot
/// `pos` on, hold `k` consecutive ones above `t` (where `high`) or below it.
fn has_run_in_arrival_order(s: &[u16], pos: usize, t: u16, high: bool, k: usize) -> (r: bool)
    requires
        s.len() == VOLTAGE_HISTORY_SIZE,
        pos < VOLTAGE_HISTORY_SIZE,
        1 <= k <= VOLTAGE_HISTORY_SIZE,
    ensures
        r == has_run(rotated(s@, pos as int), level(t, high), k as nat),
{
    let ghost c = rotated(s@, pos as int);
    let ghost p = level(t, high);
    let mut found = false;
    let mut cur: usize = 0;
    let mut j: usize = 0;
    while j < VOLTAGE_HISTORY_SIZE
        invariant
            s.len() == VOLTAGE_HISTORY_SIZE,
            pos < VOLTAGE_HISTORY_SIZE,
            1 <= k <= VOLTAGE_HISTORY_SIZE,
            c == rotated(s@, pos as int),
            p == level(t, high),
            c.len() == VOLTAGE_HISTORY_SIZE,
            j <= VOLTAGE_HISTORY_SIZE,
            cur <= j,
            forall|q: int| j - cur <= q < j ==> p(#[trigger] c[q]),
            cur < j ==> !p(c[j - cur - 1]),
            found == exists|i: int| 0 <= i && i + k <= j && #[trigger] run_at(c, p, i, k as nat),
        decreases VOLTAGE_HISTORY_SIZE - j,
    {
        let idx = if pos + j < VOLTAGE_HISTORY_SIZE { pos + j } else { pos + j - VOLTAGE_HISTORY_SIZE };
        let x = s[idx];
        assert(c[j as int] == x);
        let matches = if high { x > t } else { x < t };
        assert(matches == p(x));
        let ghost old_found = found;
        if matches {
            cur = cur + 1;
        } else {
            cur = 0;
        }
        found = found || cur >= k;
        proof {
            let jn = j + 1;
            let i0 = jn - k;
            if cur >= k {
                assert(run_at(c, p, i0, k as nat));
            }
            if exists|i: int| 0 <= i && i + k <= jn && #[trigger] run_at(c, p, i, k as nat) {
                let w = choose|i: int| 0 <= i && i + k <= jn && #[trigger] run_at(c, p, i, k as nat);
                if w + k > j && cur < k {
                    let q = j - cur;
                    assert(w <= q < w + k);
                    assert(!p(c[q]));
                }
            }
        }
        j = j + 1;
    }
    found
}

/// Every operation on the detector keeps its state valid: in particular no
/// period is ever charged past `PERIOD_LIMIT_MS`, and no hit is in progress
/// while the limit is reached.
pub proof fn law_operations_keep_valid(m: VoltageModel, now: u32, sample: u16, total: u32, count: u32)
    requires
        m.valid(),
    ensures
        m.after_sample(sample).valid(),
        m.check_hit(now).0.valid(),
        m.after_period_check(now).valid(),
        m.after_period_reset(now).valid(),
        (VoltageModel { total_hit_duration_ms: total, ..m }).valid(),
        (VoltageModel { total_hit_count: count, ..m }).valid(),
        m.check_hit(now).0.period_duration_ms <= PERIOD_LIMIT_MS,
{
}

/// Hit detection charges the total exactly what it charges the period: the
/// difference of the two (modulo 2^32) is the same before and after.
pub proof fn law_total_moves_with_period(m: VoltageModel, now: u32)
    requires
        m.valid(),
    ensures
        u32_specs::wrapping_sub(m.check_hit(now).0.total_hit_duration_ms, m.check_hit(now).0.period_duration_ms)
            == u32_specs::wrapping_sub(m.total_hit_duration_ms, m.period_duration_ms),
{
}

/// Once the period's limit is reached, hit detection starts no hit, counts
/// none, charges nothing and reports no hit ending.
pub proof fn law_nothing_happens_at_limit(m: VoltageModel, now: u32)
    requires
        m.valid(),
        m.limit_reached(),
    ensures
        m.check_hit(now) == (m, false),
{
}

/// The hit count goes up (by one, wrapping) exactly when a hit starts.
pub proof fn law_hit_count_counts_starts(m: VoltageModel, now: u32)
    requires
        m.valid(),
    ensures
        m.check_hit(now).0.total_hit_count == if !m.hit_active && m.check_hit(now).0.hit_active {
            u32_specs::wrapping_add(m.total_hit_count, 1)
        } else {
            m.total_hit_count
        },
        !m.hit_active && m.check_hit(now).0.hit_active ==> m.check_hit(now).0.hit_start_time == Some(now),
{
}

/// A hit that is reported as ended was in progress and no longer is; the
/// total and the period only change when a hit ends.
pub proof fn law_charges_only_when_hit_ends(m: VoltageModel, now: u32)
    requires
        m.valid(),
    ensures
        m.check_hit(now).1 ==> m.hit_active && !m.check_hit(now).0.hit_active
            && m.check_hit(now).0.current_hit_duration_ms == 0,
        !m.check_hit(now).1 ==> m.check_hit(now).0.total_hit_duration_ms == m.total_hit_duration_ms
            && m.check_hit(now).0.period_duration_ms == m.period_duration_ms,
{
}

/// A hit starts exactly when none is in progress, the buffer is full, the
/// period allows more, and the samples, in the order they came, hold
/// `OVER_DEBOUNCE` consecutive high ones. A hit ends either on
/// `UNDER_DEBOUNCE` consecutive low samples or at the period's limit.
pub proof fn law_hits_start_and_end_on_runs(m: VoltageModel, now: u32)
    requires
        m.valid(),
    ensures
        (!m.hit_active && m.check_hit(now).0.hit_active) == (!m.hit_active && m.samples.len()
            == VOLTAGE_HISTORY_SIZE && !m.limit_reached() && m.high_run()),
        m.check_hit(now).1 ==> m.low_run() || m.check_hit(now).0.limit_reached(),
{
}

/// An active hit never outlives the period's budget: at a check that finds
/// a full buffer without a run of low samples, if the time already charged to
/// the period and the time since the hit started (both wrapping) reach the
/// limit, the hit is ended and reported, the period stands at the limit, and
/// the total is charged what remained of the period. Otherwise the hit goes
/// on, its current duration is the time since it started, and nothing is
/// charged.
pub proof fn law_active_hit_ends_at_limit(m: VoltageModel, now: u32)
    requires
        m.valid(),
        m.hit_active,
        m.samples.len() == VOLTAGE_HISTORY_SIZE,
        !m.low_run(),
    ensures
        ({
            let start = m.hit_start_time.unwrap();
            let since = u32_specs::wrapping_sub(now, start);
            let (r, ended) = m.check_hit(now);
            &&& u32_specs::wrapping_add(m.period_duration_ms, since) >= PERIOD_LIMIT_MS ==> {
                &&& ended
                &&& !r.hit_active
                &&& r.hit_start_time is None
                &&& r.current_hit_duration_ms == 0
                &&& r.period_duration_ms == PERIOD_LIMIT_MS
                &&& r.limit_reached()
                &&& r.total_hit_duration_ms == u32_specs::wrapping_add(
                    m.total_hit_duration_ms,
                    (PERIOD_LIMIT_MS - m.period_duration_ms) as u32,
                )
            }
            &&& u32_specs::wrapping_add(m.period_duration_ms, since) < PERIOD_LIMIT_MS ==> {
                &&& !ended
                &&& r.hit_active
                &&& r.hit_start_time == m.hit_start_time
                &&& r.current_hit_duration_ms == since
                &&& r.period_duration_ms == m.period_duration_ms
                &&& r.total_hit_duration_ms == m.total_hit_duration_ms
            }
        }),
{
}

/// While a hit is in progress after a check of a full buffer, its current
/// duration is the time since it started (wrapping), whatever has been
/// charged to the period; a hit that starts at the check started then.
pub proof fn law_current_duration_is_time_since_start(m: VoltageModel, now: u32)
    requires
        m.valid(),
        m.samples.len() == VOLTAGE_HISTORY_SIZE,
    ensures
        m.check_hit(now).0.hit_active ==> {
            &&& m.check_hit(now).0.hit_start_time == if m.hit_active {
                m.hit_start_time
            } else {
                Some(now)
            }
            &&& m.check_hit(now).0.current_hit_duration_ms == u32_specs::wrapping_sub(
                now,
                m.check_hit(now).0.hit_start_time.unwrap(),
            )
        },
{
}

/// A run of low samples ends an active hit and charges it: the whole time
/// since the hit started where the period can take it, otherwise only what
/// remains of the period, which then stands at the limit.
pub proof fn law_low_run_ends_and_charges_hit(m: VoltageModel, now: u32)
    requires
        m.valid(),
        m.hit_active,
        m.samples.len() == VOLTAGE_HISTORY_SIZE,
        !m.limit_reached(),
        m.low_run(),
    ensures
        ({
            let d = u32_specs::wrapping_sub(now, m.hit_start_time.unwrap());
            let (r, ended) = m.check_hit(now);
            &&& ended
            &&& !r.hit_active
            &&& r.current_hit_duration_ms == 0
            &&& r.total_hit_count == m.total_hit_count
            &&& m.period_duration_ms + d <= PERIOD_LIMIT_MS ==> r.period_duration_ms == m.period_duration_ms + d
                && r.total_hit_duration_ms == u32_specs::wrapping_add(m.total_hit_duration_ms, d)
            &&& PERIOD_LIMIT_MS < m.period_duration_ms + d <= u32::MAX ==> r.period_duration_ms == PERIOD_LIMIT_MS
                && r.total_hit_duration_ms == u32_specs::wrapping_add(
                m.total_hit_duration_ms,
                (PERIOD_LIMIT_MS - m.period_duration_ms) as u32,
            )
        }),
{
}

/// Starting a new period, by hand or because a whole period has passed,
/// touches nothing but the period: its start becomes `now` and nothing is
/// charged to it; the samples, a hit in progress and the totals are kept. The
/// periodic check starts one exactly when at least `PERIOD_DURATION_MS` have
/// passed (wrapping) since the current period started, and otherwise changes
/// nothing.
pub proof fn law_period_start_touches_only_the_period(m: VoltageModel, now: u32)
    ensures
        ({
            let r = m.after_period_reset(now);
            &&& r.period_start_time == now
            &&& r.period_duration_ms == 0
            &&& r.samples == m.samples
            &&& r.pos == m.pos
            &&& r.hit_active == m.hit_active
            &&& r.hit_start_time == m.hit_start_time
            &&& r.current_hit_duration_ms == m.current_hit_duration_ms
            &&& r.total_hit_duration_ms == m.total_hit_duration_ms
            &&& r.total_hit_count == m.total_hit_count
        }),
        m.after_period_check(now) == if u32_specs::wrapping_sub(now, m.period_start_time) >= PERIOD_DURATION_MS {
            m.after_period_reset(now)
        } else {
            m
        },
{
}

/// The time until the period is over and the time since it started add up
/// to a whole period, until it is over; from then on the time until reset is 0.
pub proof fn law_time_until_reset_complements_elapsed(m: VoltageModel, now: u32)
    ensures
        u32_specs::wrapping_sub(now, m.period_start_time) < PERIOD_DURATION_MS ==> m.time_until_reset_ms(now)
            + u32_specs::wrapping_sub(now, m.period_start_time) == PERIOD_DURATION_MS,
        u32_specs::wrapping_sub(now, m.period_start_time) >= PERIOD_DURATION_MS ==> m.time_until_reset_ms(now) == 0,
{
}

/// The periodic check starts a new period exactly when the time until reset
/// has run out, and afterwards the period is never due.
pub proof fn law_period_check_follows_time_until_reset(m: VoltageModel, now: u32)
    ensures
        m.after_period_check(now) == if m.time_until_reset_ms(now) == 0 {
            m.after_period_reset(now)
        } else {
            m
        },
        m.after_period_check(now).time_until_reset_ms(now) > 0,
{
}

/// What remains of a period and what has been charged to it add up to the
/// limit, and nothing remains exactly when the limit is reached.
pub proof fn law_remaining_complements_charged(m: VoltageModel)
    requires
        m.valid(),
    ensures
        m.period_remaining_ms() + m.period_duration_ms == PERIOD_LIMIT_MS,
        (m.period_remaining_ms() == 0) == m.limit_reached(),
{
}

/// Where the samples `xs` (at most `VOLTAGE_HISTORY_SIZE` of them) land in
/// the buffer: the `j`-th at slot `pos + j` (wrapping), the other slots kept.
proof fn lemma_after_samples_slots(m: VoltageModel, xs: Seq<u16>)
    requires
        m.valid(),
        xs.len() <= VOLTAGE_HISTORY_SIZE,
    ensures
        m.after_samples(xs).valid(),
        m.after_samples(xs).pos == (m.pos + xs.len()) % (VOLTAGE_HISTORY_SIZE as nat),
        m.after_samples(xs).samples.len() == if m.samples.len() + xs.len() < VOLTAGE_HISTORY_SIZE {
            m.samples.len() + xs.len()
        } else {
            VOLTAGE_HISTORY_SIZE as nat
        },
        forall|j: int|
            0 <= j < xs.len() ==> #[trigger] m.after_samples(xs).samples[slot(m.pos, j as nat, 10) as int] == xs[j],
        forall|i: int|
            0 <= i < m.samples.len() && (forall|j: int| 0 <= j < xs.len() ==> i != #[trigger] slot(m.pos, j as nat, 10))
                ==> m.after_samples(xs).samples[i] == m.samples[i],
    decreases xs.len(),
{
    if xs.len() > 0 {
        let k = (xs.len() - 1) as nat;
        let ys = xs.drop_last();
        lemma_after_samples_slots(m, ys);
        let prev = m.after_samples(ys);
        let r = m.after_samples(xs);
        vstd::arithmetic::div_mod::lemma_add_mod_noop((m.pos + k) as int, 1, 10);
        vstd::arithmetic::div_mod::lemma_small_mod(1, 10);
        lemma_slot_value(m.pos, k, 10);
        // the new sample goes to slot `pos + k`
        assert(prev.pos == slot(m.pos, k, 10));
        assert forall|j: int| 0 <= j < xs.len() implies #[trigger] r.samples[slot(m.pos, j as nat, 10) as int] == xs[j] by {
            if j < k {
                lemma_slot_injective(m.pos, j as nat, k, 10);
                assert(ys[j] == xs[j]);
                assert(prev.samples[slot(m.pos, j as nat, 10) as int] == ys[j]);
            }
        }
        assert forall|i: int|
            0 <= i < m.samples.len() && (forall|j: int| 0 <= j < xs.len() ==> i != #[trigger] slot(m.pos, j as nat, 10))
            implies r.samples[i] == m.samples[i] by {
            assert(i != slot(m.pos, k, 10));
            assert forall|j: int| 0 <= j < ys.len() implies i != #[trigger] slot(m.pos, j as nat, 10) by {
                assert(i != slot(m.pos, j as nat, 10));
            }
        }
    }
}

/// Hit detection reads the last ten samples alone, in the order they came:
/// after ten samples from any valid state the buffer is full and holds, oldest
/// first, exactly those ten, so whether a hit starts or ends depends on them
/// and on nothing that came before.
pub proof fn law_detector_reads_last_ten_samples(m: VoltageModel, xs: Seq<u16>)
    requires
        m.valid(),
        xs.len() == VOLTAGE_HISTORY_SIZE,
    ensures
        m.after_samples(xs).samples.len() == VOLTAGE_HISTORY_SIZE,
        m.after_samples(xs).in_arrival_order() == xs,
        m.after_samples(xs).high_run() == has_run(xs, above(HIT_HIGH), OVER_DEBOUNCE as nat),
        m.after_samples(xs).low_run() == has_run(xs, below(HIT_LOW), UNDER_DEBOUNCE as nat),
{
    lemma_after_samples_slots(m, xs);
    let r = m.after_samples(xs);
    lemma_window_is_rotation(r.samples, m.pos, xs);
    vstd::arithmetic::div_mod::lemma_mod_sub_multiples_vanish((m.pos + 10) as int, 10);
    vstd::arithmetic::div_mod::lemma_small_mod(m.pos, 10);
    assert(r.pos == m.pos);
    assert(r.in_arrival_order() =~= xs);
}

/// From a fresh detector, after the samples `xs`, the buffer holds the
/// last (at most ten) of them, the `k`-th in slot `k % 10`, and the next
/// sample goes to slot `xs.len() % 10`.
pub proof fn law_buffer_keeps_last_ten_samples(xs: Seq<u16>)
    ensures
        ({
            let n = xs.len() as int;
            let r = VoltageModel::initial().after_samples(xs);
            &&& r.valid()
            &&& r.samples.len() == if n < 10 { n } else { 10 }
            &&& r.pos == n % 10
            &&& forall|k: int| n - 10 <= k < n && 0 <= k ==> #[trigger] r.samples[k % 10] == xs[k]
        }),
    decreases xs.len(),
{
    let n = xs.len() as int;
    if n > 0 {
        let ys = xs.drop_last();
        law_buffer_keeps_last_ten_samples(ys);
        let prev = VoltageModel::initial().after_samples(ys);
        let r = VoltageModel::initial().after_samples(xs);
        law_operations_keep_valid(prev, 0, xs.last(), 0, 0);
        vstd::arithmetic::div_mod::lemma_add_mod_noop(n - 1, 1, 10);
        vstd::arithmetic::div_mod::lemma_small_mod(1, 10);
        if n - 1 < 10 {
            vstd::arithmetic::div_mod::lemma_small_mod((n - 1) as nat, 10);
        }
        assert forall|k: int| n - 10 <= k < n && 0 <= k implies #[trigger] r.samples[k % 10] == xs[k] by {
            if k < n - 1 {
                lemma_mod_distinct(k, n - 1);
                assert(ys[k] == xs[k]);
                assert(prev.samples[k % 10] == ys[k]);
            }
        }
    }
}

/// One more start on a count taken modulo 2^32 is one more wrapping increment.
proof fn lemma_count_step(c: u32, base: int)
    requires
        base >= 0,
        c == base % 0x1_0000_0000,
    ensures
        u32_specs::wrapping_add(c, 1) == (base + 1) % 0x1_0000_0000,
{
    vstd::arithmetic::div_mod::lemma_add_mod_noop(base, 1, 0x1_0000_0000);
    vstd::arithmetic::div_mod::lemma_small_mod(1, 0x1_0000_0000);
    if c + 1 < 0x1_0000_0000 {
        vstd::arithmetic::div_mod::lemma_small_mod((c + 1) as nat, 0x1_0000_0000);
    } else {
        vstd::arithmetic::div_mod::lemma_mod_self_0(0x1_0000_0000);
    }
}

/// Over any run of operations from a valid state, the hit count goes up by
/// exactly the number of hit checks that started a hit (modulo 2^32).
pub proof fn law_hit_count_is_number_of_starts(m: VoltageModel, ops: Seq<VoltageOp>)
    requires
        m.valid(),
    ensures
        m.after_ops(ops).valid(),
        m.after_ops(ops).total_hit_count == (m.total_hit_count + m.hit_starts(ops)) % 0x1_0000_0000,
    decreases ops.len(),
{
    if ops.len() == 0 {
        vstd::arithmetic::div_mod::lemma_small_mod(m.total_hit_count as nat, 0x1_0000_0000);
    } else {
        let ys = ops.drop_last();
        law_hit_count_is_number_of_starts(m, ys);
        let prev = m.after_ops(ys);
        match ops.last() {
            VoltageOp::Sample(x) => law_operations_keep_valid(prev, 0, x, 0, 0),
            VoltageOp::Check(now) => {
                law_operations_keep_valid(prev, now, 0, 0, 0);
                law_hit_count_counts_starts(prev, now);
                if !prev.hit_active && prev.check_hit(now).0.hit_active {
                    lemma_count_step(prev.total_hit_count, m.total_hit_count + m.hit_starts(ys));
                }
            },
            VoltageOp::PeriodCheck(now) => law_operations_keep_valid(prev, now, 0, 0, 0),
            VoltageOp::PeriodReset(now) => law_operations_keep_valid(prev, now, 0, 0, 0),
        }
    }
}

} // verus!
