use vgrs::device::{Device, FrameEnd, FrameStart, SavedTotals, TickActions, DISPLAY_TIMEOUT_MS, FRAME_MS};

/// One pass of the main loop without buttons and with the given voltage.
fn frame(d: &mut Device, sample: u16) -> (FrameStart, FrameEnd) {
    let s = d.begin_frame(false, false, false);
    let e = d.finish_frame(sample);
    (s, e)
}

fn ticks(d: &mut Device, n: usize) -> Vec<TickActions> {
    (0..n).map(|_| d.tick()).collect()
}

#[test]
fn start_restores_stored_totals() {
    let d = Device::new(1_234, 5);
    assert_eq!(d.voltage().total_hit_duration_ms(), 1_234);
    assert_eq!(d.voltage().get_hit_count(), 5);
    assert_eq!(d.elapsed_ms(), 0);
    assert!(d.is_display_on());
}

#[test]
fn start_ignores_erased_and_zero_words() {
    let d = Device::new(0xFFFF_FFFF, 0);
    assert_eq!(d.voltage().total_hit_duration_ms(), 0);
    assert_eq!(d.voltage().get_hit_count(), 0);
    let e = Device::new(0, 0xFFFF_FFFF);
    assert_eq!(e.voltage().total_hit_duration_ms(), 0);
    assert_eq!(e.voltage().get_hit_count(), 0);
}

#[test]
fn coil_is_enabled_while_the_period_allows() {
    let mut d = Device::new(0, 0);
    let s = d.begin_frame(false, false, false);
    assert_eq!(
        s,
        FrameStart { wake_display: false, coil_enabled: true, period_reset_by_button: false, period_renewed: false }
    );
}

#[test]
fn clock_advances_one_frame_per_tick() {
    let mut d = Device::new(0, 0);
    let t = d.tick();
    assert_eq!(t, TickActions { sleep_display: false, draw_display: true, save_duration: None, save_hit_count: None });
    assert_eq!(d.elapsed_ms(), FRAME_MS);
    ticks(&mut d, 9);
    assert_eq!(d.elapsed_ms(), 10 * FRAME_MS);
}

#[test]
fn display_sleeps_after_timeout_and_a_press_wakes_it() {
    let mut d = Device::new(0, 0);
    let n = (DISPLAY_TIMEOUT_MS / FRAME_MS) as usize; // 1875 frames reach exactly the timeout
    let acts = ticks(&mut d, n + 1);
    assert!(acts.iter().all(|a| !a.sleep_display && a.draw_display));
    assert!(d.is_display_on());
    let a = d.tick();
    assert!(a.sleep_display);
    assert!(!a.draw_display);
    assert!(!d.is_display_on());
    let b = d.tick();
    assert!(!b.sleep_display && !b.draw_display);
    let s = d.begin_frame(false, true, false);
    assert!(s.wake_display);
    assert!(d.is_display_on());
    let s2 = d.begin_frame(false, true, false);
    assert!(!s2.wake_display);
}

#[test]
fn high_voltage_wakes_the_display() {
    let mut d = Device::new(0, 0);
    ticks(&mut d, 1_900);
    assert!(!d.is_display_on());
    let (_, e) = frame(&mut d, 100);
    assert!(!e.wake_display);
    assert!(!d.is_display_on());
    let (_, e) = frame(&mut d, 141);
    assert!(e.wake_display);
    assert!(d.is_display_on());
}

#[test]
fn ended_hit_is_stored_at_once() {
    let mut d = Device::new(0, 0);
    for _ in 0..10 {
        let (_, e) = frame(&mut d, 200);
        assert_eq!(e.save, None);
    }
    assert!(d.voltage().is_hitting());
    ticks(&mut d, 50); // 800 ms
    for _ in 0..2 {
        let (_, e) = frame(&mut d, 50);
        assert_eq!(e.save, None);
    }
    let (_, e) = frame(&mut d, 50);
    assert_eq!(e.save, Some(SavedTotals { duration_ms: 800, hit_count: 1 }));
    assert!(!d.voltage().is_hitting());
}

#[test]
fn changed_totals_are_stored_after_the_interval() {
    let mut d = Device::new(0, 0);
    for _ in 0..10 {
        frame(&mut d, 200);
    }
    assert_eq!(d.voltage().get_hit_count(), 1);
    // 625 frames make exactly 10 s, which is not yet past the interval
    let acts = ticks(&mut d, 625);
    assert!(acts.iter().all(|a| a.save_duration.is_none() && a.save_hit_count.is_none()));
    let a = d.tick();
    assert_eq!(a.save_hit_count, Some(1));
    assert_eq!(a.save_duration, None);
    // stored now: nothing more to store at the next interval
    let acts = ticks(&mut d, 700);
    assert!(acts.iter().all(|a| a.save_duration.is_none() && a.save_hit_count.is_none()));
}

#[test]
fn limit_disables_the_coil_until_left_press_resets_the_period() {
    let mut d = Device::new(0, 0);
    for _ in 0..10 {
        frame(&mut d, 200);
    }
    ticks(&mut d, 200); // 3200 ms
    let (s, e) = frame(&mut d, 200);
    assert!(s.coil_enabled);
    assert_eq!(e.save, Some(SavedTotals { duration_ms: 3_000, hit_count: 1 }));
    assert!(d.voltage().is_limit_reached());
    let (s, e) = frame(&mut d, 200);
    assert!(!s.coil_enabled);
    assert_eq!(e.save, None);
    assert_eq!(d.voltage().get_hit_count(), 1);
    // the left button must be debounced: seven of the last ten samples high
    for _ in 0..6 {
        let s = d.begin_frame(true, false, false);
        assert!(!s.coil_enabled);
        d.finish_frame(100);
    }
    let s = d.begin_frame(true, false, false);
    assert!(s.coil_enabled);
    assert!(s.period_reset_by_button);
    assert!(!s.period_renewed);
    assert_eq!(d.voltage().period_duration_ms(), 0);
    // holding the button on does not reset again
    d.finish_frame(100);
    let s = d.begin_frame(true, false, false);
    assert!(!s.period_reset_by_button);
    assert_eq!(d.voltage().total_hit_duration_ms(), 3_000);
}

#[test]
fn period_renews_after_a_minute() {
    let mut d = Device::new(0, 0);
    for _ in 0..10 {
        frame(&mut d, 200);
    }
    ticks(&mut d, 200);
    frame(&mut d, 200);
    assert!(d.voltage().is_limit_reached());
    ticks(&mut d, 3_550); // past 60 s
    let s = d.begin_frame(false, false, false);
    assert!(s.coil_enabled);
    assert!(s.period_renewed);
    assert!(!s.period_reset_by_button);
    let s = d.begin_frame(false, false, false);
    assert!(!s.period_renewed);
    assert!(!d.voltage().is_limit_reached());
}
