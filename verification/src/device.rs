//! The decisions of the device's main loop.
//!
//! The loop reads the buttons, drives the coil, samples the coil voltage,
//! shows the state on a display that sleeps after a while without activity,
//! and keeps the totals in EEPROM. The caller performs each of these actions;
//! `Device` decides them, one step at a time:
//!
//! - `begin_frame` takes the button levels and says whether to wake the
//!   display and whether the coil may be powered;
//! - `finish_frame` takes the voltage sample and says whether to wake the
//!   display and which totals to store because a hit has just ended;
//! - `tick` runs once per display frame and says whether to put the display
//!   to sleep, whether to draw, and which totals to store because the saving
//!   interval has passed.
use vstd::prelude::*;
use vstd::wrapping::u32_specs;
use crate::buttons::{ButtonState, ButtonModel};
use crate::voltage::{VoltageState, VoltageModel, HIT_HIGH};
use crate::eeprom::{is_restorable, restored_word, ERASED_WORD};
use crate::voltage::law_operations_keep_valid;

verus! {

/// How many of the last samples of a button must be high for it to count as pressed.
pub const DEBOUNCE_THRESHOLD: usize = 7;

/// How long the display stays on without activity, in milliseconds.
pub const DISPLAY_TIMEOUT_MS: u32 = 30_000;

/// How far the clock advances per display frame, in milliseconds.
pub const FRAME_MS: u32 = 16;

/// How often changed totals are stored, in milliseconds.
pub const SAVE_INTERVAL_MS: u32 = 10_000;

/// Totals to store: the all-time hit duration and hit count.
#[derive(Clone, Copy, Debug, PartialEq, Eq, Structural)]
pub struct SavedTotals {
    pub duration_ms: u32,
    pub hit_count: u32,
}

/// What to do after the buttons have been read.
#[derive(Clone, Copy, Debug, PartialEq, Eq, Structural)]
pub struct FrameStart {
    /// Re-initialise the display, which was asleep.
    pub wake_display: bool,
    /// Whether the coil may be powered.
    pub coil_enabled: bool,
    /// A fresh press of the left button started a new period.
    pub period_reset_by_button: bool,
    /// A whole period had passed, so a new one started.
    pub period_renewed: bool,
}

/// What to do after the voltage has been sampled.
#[derive(Clone, Copy, Debug, PartialEq, Eq, Structural)]
pub struct FrameEnd {
    /// Re-initialise the display, which was asleep.
    pub wake_display: bool,
    /// Totals to store now because a hit has just ended.
    pub save: Option<SavedTotals>,
}

/// What to do on a display frame.
#[derive(Clone, Copy, Debug, PartialEq, Eq, Structural)]
pub struct TickActions {
    /// Clear the display and let it sleep.
    pub sleep_display: bool,
    /// Draw the current text on the display.
    pub draw_display: bool,
    /// The total duration to store, where it changed since last stored.
    pub save_duration: Option<u32>,
    /// The hit count to store, where it changed since last stored.
    pub save_hit_count: Option<u32>,
}

/// The state of the main loop.
pub struct Device {
    buttons: ButtonState,
    voltage: VoltageState,
    elapsed_ms: u32,
    last_save_time: u32,
    last_saved_duration: u32,
    last_saved_hit_count: u32,
    last_left_state: bool,
    last_activity_time: u32,
    display_on: bool,
}

/// What a `Device` holds.
pub struct DeviceModel {
    pub buttons: ButtonModel,
    pub voltage: VoltageModel,
    /// The clock, in milliseconds since start (wrapping).
    pub elapsed_ms: u32,
    /// When the totals were last considered for storing.
    pub last_save_time: u32,
    /// The total duration as last stored.
    pub last_saved_duration: u32,
    /// The hit count as last stored.
    pub last_saved_hit_count: u32,
    /// Whether the left button counted as pressed at the last frame.
    pub last_left_state: bool,
    /// When a button was last pressed or the voltage last high.
    pub last_activity_time: u32,
    pub display_on: bool,
}

impl DeviceModel {
    /// The buttons and the detector are valid.
    pub open spec fn valid(self) -> bool {
        self.buttons.valid() && self.voltage.valid()
    }

    /// The state at start, given the words read from the EEPROM: a stored
    /// total is restored where it is neither erased nor zero.
    pub open spec fn initial(saved_duration: u32, saved_hit_count: u32) -> DeviceModel {
        let voltage = VoltageModel {
            total_hit_duration_ms: if is_restorable(saved_duration) { saved_duration } else { 0 },
            total_hit_count: if is_restorable(saved_hit_count) { saved_hit_count } else { 0 },
            ..VoltageModel::initial()
        };
        DeviceModel {
            buttons: ButtonModel::initial(),
            voltage,
            elapsed_ms: 0,
            last_save_time: 0,
            last_saved_duration: voltage.total_hit_duration_ms,
            last_saved_hit_count: voltage.total_hit_count,
            last_left_state: false,
            last_activity_time: 0,
            display_on: true,
        }
    }

    /// Activity now: the display wakes if it slept.
    pub open spec fn after_activity(self) -> (DeviceModel, bool) {
        (DeviceModel { last_activity_time: self.elapsed_ms, display_on: true, ..self }, !self.display_on)
    }

    /// The first half of a frame, given the button levels: the buttons are
    /// sampled; any press is activity; a fresh debounced press of the left
    /// button starts a new period; a period that has run out is renewed; and
    /// the coil may be powered exactly when the period's limit is not reached.
    /// Both kinds of new period are reported.
    pub open spec fn begin_frame(self, left: bool, right: bool, middle: bool) -> (DeviceModel, FrameStart) {
        let buttons = self.buttons.after_update(left, right, middle);
        let left_debounced = buttons.debounced(DEBOUNCE_THRESHOLD as nat).0;
        let s1 = DeviceModel { buttons, ..self };
        let (s2, wake) = if left || right || middle { s1.after_activity() } else { (s1, false) };
        let reset_by_button = left_debounced && !self.last_left_state;
        let v1 = if reset_by_button {
            s2.voltage.after_period_reset(self.elapsed_ms)
        } else {
            s2.voltage
        };
        let renewed = v1.time_until_reset_ms(self.elapsed_ms) == 0;
        let voltage = v1.after_period_check(self.elapsed_ms);
        (
            DeviceModel { voltage, last_left_state: left_debounced, ..s2 },
            FrameStart {
                wake_display: wake,
                coil_enabled: !voltage.limit_reached(),
                period_reset_by_button: reset_by_button,
                period_renewed: renewed,
            },
        )
    }

    /// The second half of a frame, given the voltage sample: the sample is
    /// recorded and hit detection runs; a sample above `HIT_HIGH` is
    /// activity; and when a hit has just ended the totals are stored.
    pub open spec fn finish_frame(self, sample: u16) -> (DeviceModel, FrameEnd) {
        let (voltage, ended) = self.voltage.after_sample(sample).check_hit(self.elapsed_ms);
        let s1 = DeviceModel { voltage, ..self };
        let (s2, wake) = if sample > HIT_HIGH { s1.after_activity() } else { (s1, false) };
        if ended {
            (
                DeviceModel {
                    last_saved_duration: voltage.total_hit_duration_ms,
                    last_saved_hit_count: voltage.total_hit_count,
                    ..s2
                },
                FrameEnd {
                    wake_display: wake,
                    save: Some(
                        SavedTotals {
                            duration_ms: voltage.total_hit_duration_ms,
                            hit_count: voltage.total_hit_count,
                        },
                    ),
                },
            )
        } else {
            (s2, FrameEnd { wake_display: wake, save: None })
        }
    }

    /// A display frame: the display sleeps once it has been on for more than
    /// `DISPLAY_TIMEOUT_MS` without activity, and is drawn while on; the clock
    /// advances by `FRAME_MS`; and once more than `SAVE_INTERVAL_MS` have
    /// passed since the totals were last considered, each total that differs
    /// from what was last stored is stored.
    pub open spec fn tick(self) -> (DeviceModel, TickActions) {
        let sleep = u32_specs::wrapping_sub(self.elapsed_ms, self.last_activity_time) > DISPLAY_TIMEOUT_MS
            && self.display_on;
        let display_on = self.display_on && !sleep;
        let elapsed = u32_specs::wrapping_add(self.elapsed_ms, FRAME_MS);
        let due = u32_specs::wrapping_sub(elapsed, self.last_save_time) > SAVE_INTERVAL_MS;
        let total = self.voltage.total_hit_duration_ms;
        let count = self.voltage.total_hit_count;
        let save_duration = due && total != self.last_saved_duration;
        let save_hit_count = due && count != self.last_saved_hit_count;
        (
            DeviceModel {
                display_on,
                elapsed_ms: elapsed,
                last_saved_duration: if save_duration { total } else { self.last_saved_duration },
                last_saved_hit_count: if save_hit_count { count } else { self.last_saved_hit_count },
                last_save_time: if due { elapsed } else { self.last_save_time },
                ..self
            },
            TickActions {
                sleep_display: sleep,
                draw_display: display_on,
                save_duration: if save_duration { Some(total) } else { None },
                save_hit_count: if save_hit_count { Some(count) } else { None },
            },
        )
    }
}

impl Device {
    /// What this state holds.
    pub closed spec fn view(&self) -> DeviceModel {
        DeviceModel {
            buttons: self.buttons.view(),
            voltage: self.voltage.view(),
            elapsed_ms: self.elapsed_ms,
            last_save_time: self.last_save_time,
            last_saved_duration: self.last_saved_duration,
            last_saved_hit_count: self.last_saved_hit_count,
            last_left_state: self.last_left_state,
            last_activity_time: self.last_activity_time,
            display_on: self.display_on,
        }
    }

    /// The state at start, given the words read from where the totals are
    /// stored: the clock and the period start at 0, the display is on.
    pub fn new(saved_duration: u32, saved_hit_count: u32) -> (r: Device)
        ensures
            r.view() == DeviceModel::initial(saved_duration, saved_hit_count),
    {
        let buttons = ButtonState::new();
        let mut voltage = VoltageState::new();
        let elapsed_ms: u32 = 0;
        match restored_word(saved_duration) {
            Some(d) => voltage.set_total_hit_duration_ms(d),
            None => {},
        }
        match restored_word(saved_hit_count) {
            Some(c) => voltage.set_total_hit_count(c),
            None => {},
        }
        voltage.reset_period(elapsed_ms);
        let last_saved_duration = voltage.total_hit_duration_ms();
        let last_saved_hit_count = voltage.get_hit_count();
        Device {
            buttons,
            voltage,
            elapsed_ms,
            last_save_time: elapsed_ms,
            last_saved_duration,
            last_saved_hit_count,
            last_left_state: false,
            last_activity_time: elapsed_ms,
            display_on: true,
        }
    }

    /// Records activity now, waking the display if it slept; returns whether it did.
    fn note_activity(&mut self) -> (woke: bool)
        ensures
            (final(self).view(), woke) == old(self).view().after_activity(),
            final(self).buttons == old(self).buttons,
            final(self).voltage == old(self).voltage,
    {
        self.last_activity_time = self.elapsed_ms;
        if !self.display_on {
            self.display_on = true;
            true
        } else {
            false
        }
    }

    /// The first half of a frame (see `DeviceModel::begin_frame`).
    pub fn begin_frame(&mut self, left_pressed: bool, right_pressed: bool, middle_pressed: bool) -> (r: FrameStart)
        ensures
            (final(self).view(), r) == old(self).view().begin_frame(left_pressed, right_pressed, middle_pressed),
    {
        self.buttons.update(left_pressed, right_pressed, middle_pressed);
        let (left_debounced, _right_debounced, _middle_debounced) = self.buttons.is_debounced(DEBOUNCE_THRESHOLD);
        let mut wake_display = false;
        if left_pressed || right_pressed || middle_pressed {
            wake_display = self.note_activity();
        }
        let period_reset_by_button = left_debounced && !self.last_left_state;
        if period_reset_by_button {
            self.voltage.reset_period(self.elapsed_ms);
        }
        self.last_left_state = left_debounced;
        let period_renewed = self.voltage.get_time_until_reset_ms(self.elapsed_ms) == 0;
        self.voltage.check_period_reset(self.elapsed_ms);
        let coil_enabled = !self.voltage.is_limit_reached();
        FrameStart { wake_display, coil_enabled, period_reset_by_button, period_renewed }
    }

    /// The second half of a frame (see `DeviceModel::finish_frame`).
    pub fn finish_frame(&mut self, sample: u16) -> (r: FrameEnd)
        ensures
            (final(self).view(), r) == old(self).view().finish_frame(sample),
    {
        self.voltage.update(sample);
        let hit_just_ended = self.voltage.check_hit(self.elapsed_ms);
        let mut wake_display = false;
        if sample > HIT_HIGH {
            wake_display = self.note_activity();
        }
        if hit_just_ended {
            self.last_saved_duration = self.voltage.total_hit_duration_ms();
            self.last_saved_hit_count = self.voltage.get_hit_count();
            FrameEnd {
                wake_display,
                save: Some(
                    SavedTotals { duration_ms: self.last_saved_duration, hit_count: self.last_saved_hit_count },
                ),
            }
        } else {
            FrameEnd { wake_display, save: None }
        }
    }

    /// A display frame (see `DeviceModel::tick`).
    pub fn tick(&mut self) -> (r: TickActions)
        ensures
            (final(self).view(), r) == old(self).view().tick(),
    {
        let mut sleep_display = false;
        if self.elapsed_ms.wrapping_sub(self.last_activity_time) > DISPLAY_TIMEOUT_MS && self.display_on {
            self.display_on = false;
            sleep_display = true;
        }
        let draw_display = self.display_on;
        self.elapsed_ms = self.elapsed_ms.wrapping_add(FRAME_MS);
        let mut save_duration = None;
        let mut save_hit_count = None;
        if self.elapsed_ms.wrapping_sub(self.last_save_time) > SAVE_INTERVAL_MS {
            let total = self.voltage.total_hit_duration_ms();
            if total != self.last_saved_duration {
                save_duration = Some(total);
                self.last_saved_duration = total;
            }
            let count = self.voltage.get_hit_count();
            if count != self.last_saved_hit_count {
                save_hit_count = Some(count);
                self.last_saved_hit_count = count;
            }
            self.last_save_time = self.elapsed_ms;
        }
        TickActions { sleep_display, draw_display, save_duration, save_hit_count }
    }

    /// The detector, for showing its state.
    pub fn voltage(&self) -> (r: &VoltageState)
        ensures
            r.view() == self.view().voltage,
    {
        &self.voltage
    }

    /// The clock, in milliseconds since start (wrapping).
    pub fn elapsed_ms(&self) -> (r: u32)
        ensures
            r == self.view().elapsed_ms,
    {
        self.elapsed_ms
    }

    /// Whether the display is on.
    pub fn is_display_on(&self) -> (r: bool)
        ensures
            r == self.view().display_on,
    {
        self.display_on
    }
}

/// A restart restores the stored totals, but for the erased pattern, which
/// reads as no total at all; and it counts them as already stored.
pub proof fn law_restart_restores_saved_totals(saved_duration: u32, saved_hit_count: u32)
    ensures
        DeviceModel::initial(saved_duration, saved_hit_count).valid(),
        DeviceModel::initial(saved_duration, saved_hit_count).voltage.total_hit_duration_ms == if saved_duration
            == ERASED_WORD {
            0
        } else {
            saved_duration
        },
        DeviceModel::initial(saved_duration, saved_hit_count).voltage.total_hit_count == if saved_hit_count
            == ERASED_WORD {
            0
        } else {
            saved_hit_count
        },
        DeviceModel::initial(saved_duration, saved_hit_count).last_saved_duration == DeviceModel::initial(
            saved_duration,
            saved_hit_count,
        ).voltage.total_hit_duration_ms,
        DeviceModel::initial(saved_duration, saved_hit_count).last_saved_hit_count == DeviceModel::initial(
            saved_duration,
            saved_hit_count,
        ).voltage.total_hit_count,
{
}

/// Every step of the main loop keeps the state valid.
pub proof fn law_steps_keep_valid(m: DeviceModel, left: bool, right: bool, middle: bool, sample: u16)
    requires
        m.valid(),
    ensures
        m.begin_frame(left, right, middle).0.valid(),
        m.finish_frame(sample).0.valid(),
        m.tick().0.valid(),
{
    law_operations_keep_valid(m.voltage, m.elapsed_ms, sample, 0, 0);
    law_operations_keep_valid(m.voltage.after_period_reset(m.elapsed_ms), m.elapsed_ms, sample, 0, 0);
    law_operations_keep_valid(m.voltage.after_sample(sample), m.elapsed_ms, sample, 0, 0);
}

/// The coil may be powered exactly when the period still allows hitting:
/// never once its limit is reached.
pub proof fn law_coil_follows_limit(m: DeviceModel, left: bool, right: bool, middle: bool)
    requires
        m.valid(),
    ensures
        m.begin_frame(left, right, middle).1.coil_enabled == !m.begin_frame(left, right, middle).0.voltage.limit_reached(),
        m.begin_frame(left, right, middle).1.coil_enabled ==> m.begin_frame(left, right, middle).0.voltage.period_remaining_ms() > 0,
{
}

/// A fresh press of the left button (debounced, and not pressed at the last
/// frame) starts a new period now, with nothing charged to it.
pub proof fn law_left_press_starts_new_period(m: DeviceModel, left: bool, right: bool, middle: bool)
    requires
        m.valid(),
        m.buttons.after_update(left, right, middle).debounced(DEBOUNCE_THRESHOLD as nat).0,
        !m.last_left_state,
    ensures
        m.begin_frame(left, right, middle).0.voltage.period_duration_ms == 0,
        m.begin_frame(left, right, middle).0.voltage.period_start_time == m.elapsed_ms,
        m.begin_frame(left, right, middle).1.coil_enabled,
{
}

/// A frame starts a new period exactly when it reports one, by a fresh
/// press of the left button or because a whole period had passed; otherwise
/// the period is kept as it was.
pub proof fn law_reported_period_starts(m: DeviceModel, left: bool, right: bool, middle: bool)
    ensures
        ({
            let (n, a) = m.begin_frame(left, right, middle);
            &&& (a.period_reset_by_button || a.period_renewed) ==> n.voltage.period_duration_ms == 0
                && n.voltage.period_start_time == m.elapsed_ms
            &&& !(a.period_reset_by_button || a.period_renewed) ==> n.voltage.period_duration_ms
                == m.voltage.period_duration_ms && n.voltage.period_start_time == m.voltage.period_start_time
        }),
{
}

/// The second half of a frame stores the totals exactly when hit detection,
/// run on the detector with this frame's sample at the frame's time, reports
/// that a hit has ended; the detector is then left as that run leaves it.
pub proof fn law_finish_frame_stores_on_hit_end(m: DeviceModel, sample: u16)
    ensures
        ({
            let (v, ended) = m.voltage.after_sample(sample).check_hit(m.elapsed_ms);
            let (n, a) = m.finish_frame(sample);
            &&& n.voltage == v
            &&& (a.save is Some) == ended
            &&& n.elapsed_ms == m.elapsed_ms
            &&& n.buttons == m.buttons
        }),
{
}

/// A frame remembers whether the left button now counts as pressed, from the
/// buttons' histories with this frame's samples, and reports a reset by the
/// button exactly when it counts as pressed now but did not at the frame
/// before; so each press of the left button, however long held, resets the
/// period once.
pub proof fn law_left_state_follows_debounce(m: DeviceModel, left: bool, right: bool, middle: bool)
    ensures
        ({
            let (n, a) = m.begin_frame(left, right, middle);
            &&& n.buttons == m.buttons.after_update(left, right, middle)
            &&& n.last_left_state == m.buttons.after_update(left, right, middle).debounced(
                DEBOUNCE_THRESHOLD as nat,
            ).0
            &&& a.period_reset_by_button == (n.last_left_state && !m.last_left_state)
            &&& n.begin_frame(left, right, middle).1.period_reset_by_button ==> !n.last_left_state
        }),
{
}

/// A display frame at which the saving interval has passed starts the next
/// interval at the new time, so that the frame after it stores nothing;
/// any other frame keeps the interval's start.
pub proof fn law_saving_frame_restarts_interval(m: DeviceModel)
    ensures
        ({
            let (n, a) = m.tick();
            &&& u32_specs::wrapping_sub(n.elapsed_ms, m.last_save_time) > SAVE_INTERVAL_MS ==> {
                &&& n.last_save_time == n.elapsed_ms
                &&& n.tick().1.save_duration is None
                &&& n.tick().1.save_hit_count is None
            }
            &&& u32_specs::wrapping_sub(n.elapsed_ms, m.last_save_time) <= SAVE_INTERVAL_MS ==> n.last_save_time
                == m.last_save_time
        }),
{
}

/// Pressing any button, or a voltage sample above `HIT_HIGH`, is activity:
/// the display is on afterwards, and is woken exactly when it slept. Without
/// activity a frame neither wakes nor puts out the display.
pub proof fn law_activity_wakes_display(m: DeviceModel, left: bool, right: bool, middle: bool, sample: u16)
    ensures
        (left || right || middle) ==> m.begin_frame(left, right, middle).0.display_on
            && m.begin_frame(left, right, middle).0.last_activity_time == m.elapsed_ms,
        !(left || right || middle) ==> m.begin_frame(left, right, middle).0.display_on == m.display_on
            && m.begin_frame(left, right, middle).0.last_activity_time == m.last_activity_time,
        m.begin_frame(left, right, middle).1.wake_display == ((left || right || middle) && !m.display_on),
        sample > HIT_HIGH ==> m.finish_frame(sample).0.display_on && m.finish_frame(sample).0.last_activity_time
            == m.elapsed_ms,
        sample <= HIT_HIGH ==> m.finish_frame(sample).0.display_on == m.display_on
            && m.finish_frame(sample).0.last_activity_time == m.last_activity_time,
        m.finish_frame(sample).1.wake_display == (sample > HIT_HIGH && !m.display_on),
{
}

/// The display goes to sleep only on a display frame, and only after more
/// than `DISPLAY_TIMEOUT_MS` without activity; a display frame never wakes it,
/// and it is drawn exactly while it is on.
pub proof fn law_display_sleeps_after_timeout(m: DeviceModel)
    ensures
        m.tick().1.sleep_display == (m.display_on && !m.tick().0.display_on),
        m.tick().1.sleep_display == (m.display_on && u32_specs::wrapping_sub(m.elapsed_ms, m.last_activity_time)
            > DISPLAY_TIMEOUT_MS),
        !m.display_on ==> !m.tick().0.display_on,
        m.tick().1.draw_display == m.tick().0.display_on,
        m.tick().0.elapsed_ms == u32_specs::wrapping_add(m.elapsed_ms, FRAME_MS),
{
}

/// What is stored is the live totals: a hit that ends stores both at once,
/// and a display frame at which the saving interval has passed stores each
/// total that changed since it was last stored, so that afterwards the
/// stored totals equal the live ones. Nothing is stored otherwise.
pub proof fn law_stored_totals_follow_live_totals(m: DeviceModel, sample: u16)
    ensures
        m.finish_frame(sample).1.save is Some ==> m.finish_frame(sample).1.save == Some(
            SavedTotals {
                duration_ms: m.finish_frame(sample).0.voltage.total_hit_duration_ms,
                hit_count: m.finish_frame(sample).0.voltage.total_hit_count,
            },
        ),
        m.finish_frame(sample).1.save is Some ==> m.finish_frame(sample).0.last_saved_duration
            == m.finish_frame(sample).0.voltage.total_hit_duration_ms
            && m.finish_frame(sample).0.last_saved_hit_count == m.finish_frame(sample).0.voltage.total_hit_count,
        m.finish_frame(sample).1.save is None ==> m.finish_frame(sample).0.last_saved_duration
            == m.last_saved_duration && m.finish_frame(sample).0.last_saved_hit_count == m.last_saved_hit_count,
        u32_specs::wrapping_sub(m.tick().0.elapsed_ms, m.last_save_time) > SAVE_INTERVAL_MS ==> {
            &&& m.tick().0.last_saved_duration == m.voltage.total_hit_duration_ms
            &&& m.tick().0.last_saved_hit_count == m.voltage.total_hit_count
            &&& m.tick().1.save_duration == if m.voltage.total_hit_duration_ms != m.last_saved_duration {
                Some(m.voltage.total_hit_duration_ms)
            } else {
                None
            }
            &&& m.tick().1.save_hit_count == if m.voltage.total_hit_count != m.last_saved_hit_count {
                Some(m.voltage.total_hit_count)
            } else {
                None
            }
        },
        u32_specs::wrapping_sub(m.tick().0.elapsed_ms, m.last_save_time) <= SAVE_INTERVAL_MS ==> {
            &&& m.tick().1.save_duration is None
            &&& m.tick().1.save_hit_count is None
            &&& m.tick().0.last_saved_duration == m.last_saved_duration
            &&& m.tick().0.last_saved_hit_count == m.last_saved_hit_count
        },
{
}

} // verus!
