use vgrs::voltage::{VoltageState, PERIOD_DURATION_MS, PERIOD_LIMIT_MS};

const HIGH: u16 = 200;
const MID: u16 = 130;
const LOW: u16 = 50;

fn feed(v: &mut VoltageState, sample: u16, n: usize) {
    for _ in 0..n {
        v.update(sample);
    }
}

/// A detector with a hit started at `t`.
fn hitting_at(t: u32) -> VoltageState {
    let mut v = VoltageState::new();
    feed(&mut v, HIGH, 10);
    assert!(!v.check_hit(t));
    assert!(v.is_hitting());
    v
}

#[test]
fn fresh_detector_is_idle() {
    let v = VoltageState::new();
    assert!(!v.is_hitting());
    assert_eq!(v.get_hit_count(), 0);
    assert_eq!(v.get_current_duration_ms(), 0);
    assert_eq!(v.total_hit_duration_ms(), 0);
    assert_eq!(v.period_duration_ms(), 0);
    assert_eq!(v.get_period_remaining_ms(), PERIOD_LIMIT_MS);
    assert!(!v.is_limit_reached());
    assert_eq!(v.get_time_until_reset_ms(1_000), 59_000);
}

#[test]
fn nothing_happens_before_the_buffer_is_full() {
    let mut v = VoltageState::new();
    feed(&mut v, HIGH, 9);
    assert!(!v.check_hit(10));
    assert!(!v.is_hitting());
    assert_eq!(v.get_hit_count(), 0);
    v.update(HIGH);
    assert!(!v.check_hit(20));
    assert!(v.is_hitting());
}

#[test]
fn five_high_samples_start_a_hit() {
    let mut v = VoltageState::new();
    feed(&mut v, MID, 5);
    feed(&mut v, HIGH, 5);
    assert!(!v.check_hit(100));
    assert!(v.is_hitting());
    assert_eq!(v.get_hit_count(), 1);
    assert_eq!(v.get_current_duration_ms(), 0);
}

#[test]
fn four_high_samples_do_not_start_a_hit() {
    let mut v = VoltageState::new();
    feed(&mut v, MID, 6);
    feed(&mut v, HIGH, 4);
    assert!(!v.check_hit(100));
    assert!(!v.is_hitting());
    assert_eq!(v.get_hit_count(), 0);
}

#[test]
fn samples_at_the_thresholds_count_as_neither() {
    let mut v = VoltageState::new();
    feed(&mut v, 140, 10);
    assert!(!v.check_hit(0));
    assert!(!v.is_hitting());
    let mut w = hitting_at(0);
    feed(&mut w, 120, 10);
    assert!(!w.check_hit(100));
    assert!(w.is_hitting());
    assert_eq!(w.get_current_duration_ms(), 100);
}

#[test]
fn three_low_samples_end_a_hit_and_charge_it() {
    let mut v = hitting_at(100);
    feed(&mut v, LOW, 3);
    assert!(v.check_hit(600));
    assert!(!v.is_hitting());
    assert_eq!(v.total_hit_duration_ms(), 500);
    assert_eq!(v.period_duration_ms(), 500);
    assert_eq!(v.get_period_remaining_ms(), 2_500);
    assert_eq!(v.get_current_duration_ms(), 0);
    assert_eq!(v.get_hit_count(), 1);
}

#[test]
fn active_hit_tracks_its_duration() {
    let mut v = hitting_at(1_000);
    assert!(!v.check_hit(1_750));
    assert_eq!(v.get_current_duration_ms(), 750);
    assert!(v.is_hitting());
    assert_eq!(v.period_duration_ms(), 0);
}

#[test]
fn long_hit_is_ended_at_the_limit() {
    let mut v = hitting_at(0);
    assert!(!v.check_hit(2_999));
    assert_eq!(v.get_current_duration_ms(), 2_999);
    assert!(v.check_hit(3_000));
    assert!(!v.is_hitting());
    assert_eq!(v.total_hit_duration_ms(), 3_000);
    assert_eq!(v.period_duration_ms(), PERIOD_LIMIT_MS);
    assert!(v.is_limit_reached());
    assert_eq!(v.get_period_remaining_ms(), 0);
}

#[test]
fn no_hit_starts_at_the_limit() {
    let mut v = hitting_at(0);
    assert!(v.check_hit(5_000));
    assert!(v.is_limit_reached());
    assert!(!v.check_hit(5_100));
    assert!(!v.is_hitting());
    assert_eq!(v.get_hit_count(), 1);
    assert_eq!(v.total_hit_duration_ms(), 3_000);
    // a new period lets hits start again
    v.reset_period(5_200);
    assert!(!v.is_limit_reached());
    assert!(!v.check_hit(5_300));
    assert!(v.is_hitting());
    assert_eq!(v.get_hit_count(), 2);
}

#[test]
fn hit_ending_past_the_limit_is_charged_only_up_to_it() {
    let mut v = hitting_at(0);
    feed(&mut v, LOW, 3);
    assert!(v.check_hit(2_000));
    assert_eq!(v.period_duration_ms(), 2_000);
    feed(&mut v, HIGH, 10);
    assert!(!v.check_hit(5_000));
    assert_eq!(v.get_hit_count(), 2);
    feed(&mut v, LOW, 3);
    assert!(v.check_hit(7_000));
    assert_eq!(v.total_hit_duration_ms(), 3_000);
    assert_eq!(v.period_duration_ms(), PERIOD_LIMIT_MS);
    assert!(v.is_limit_reached());
}

#[test]
fn total_moves_with_period() {
    let mut v = VoltageState::new();
    v.set_total_hit_duration_ms(1_000);
    feed(&mut v, HIGH, 10);
    assert!(!v.check_hit(10));
    feed(&mut v, LOW, 3);
    assert!(v.check_hit(510));
    assert_eq!(v.total_hit_duration_ms(), 1_500);
    assert_eq!(v.total_hit_duration_ms() - v.period_duration_ms(), 1_000);
}

#[test]
fn restored_count_goes_on_counting_and_wraps() {
    let mut v = VoltageState::new();
    v.set_total_hit_count(41);
    feed(&mut v, HIGH, 10);
    v.check_hit(0);
    assert_eq!(v.get_hit_count(), 42);
    let mut w = VoltageState::new();
    w.set_total_hit_count(u32::MAX);
    feed(&mut w, HIGH, 10);
    w.check_hit(0);
    assert_eq!(w.get_hit_count(), 0);
}

#[test]
fn only_the_last_ten_samples_count() {
    let mut v = VoltageState::new();
    feed(&mut v, HIGH, 10);
    feed(&mut v, MID, 10);
    assert!(!v.check_hit(0));
    assert!(!v.is_hitting());
    // wrapped round several times: the last five are high
    feed(&mut v, MID, 27);
    feed(&mut v, HIGH, 5);
    assert!(!v.check_hit(0));
    assert!(v.is_hitting());
}

#[test]
fn period_resets_once_a_whole_period_has_passed() {
    let mut v = hitting_at(0);
    assert!(v.check_hit(4_000));
    assert!(v.is_limit_reached());
    v.check_period_reset(PERIOD_DURATION_MS - 1);
    assert!(v.is_limit_reached());
    assert_eq!(v.get_time_until_reset_ms(PERIOD_DURATION_MS - 1), 1);
    assert_eq!(v.get_time_until_reset_ms(PERIOD_DURATION_MS), 0);
    v.check_period_reset(PERIOD_DURATION_MS);
    assert!(!v.is_limit_reached());
    assert_eq!(v.period_duration_ms(), 0);
    assert_eq!(v.get_period_remaining_ms(), PERIOD_LIMIT_MS);
    assert_eq!(v.get_time_until_reset_ms(PERIOD_DURATION_MS), PERIOD_DURATION_MS);
    assert_eq!(v.total_hit_duration_ms(), 3_000);
}

#[test]
fn time_until_reset_wraps_round_the_clock() {
    let mut v = VoltageState::new();
    v.reset_period(u32::MAX - 999);
    assert_eq!(v.get_time_until_reset_ms(500), 58_500);
    v.check_period_reset(500);
    assert_eq!(v.get_time_until_reset_ms(500), 58_500);
    v.check_period_reset(58_999);
    assert_eq!(v.get_time_until_reset_ms(58_999), 1);
    v.check_period_reset(59_000);
    assert_eq!(v.get_time_until_reset_ms(59_000), PERIOD_DURATION_MS);
}

#[test]
fn manual_reset_starts_a_period_at_once() {
    let mut v = hitting_at(0);
    feed(&mut v, LOW, 3);
    assert!(v.check_hit(1_000));
    v.reset_period(2_000);
    assert_eq!(v.period_duration_ms(), 0);
    assert_eq!(v.total_hit_duration_ms(), 1_000);
    assert_eq!(v.get_time_until_reset_ms(2_000), PERIOD_DURATION_MS);
}

#[test]
fn buffer_keeps_the_last_ten_of_many_samples() {
    // after 37 samples, exactly the last ten are counted: four high, then
    // six that are neither
    let mut v = VoltageState::new();
    feed(&mut v, HIGH, 27);
    feed(&mut v, HIGH, 4);
    feed(&mut v, MID, 6);
    assert!(!v.check_hit(0));
    assert!(!v.is_hitting());
    // five more high ones: the last ten are five neither, five high
    feed(&mut v, HIGH, 5);
    assert!(!v.check_hit(0));
    assert!(v.is_hitting());
}

#[test]
fn hit_count_counts_each_start_once() {
    let mut v = VoltageState::new();
    let mut t = 0;
    for round in 1..=3u32 {
        feed(&mut v, HIGH, 10);
        assert!(!v.check_hit(t));
        // further checks during the same hit start nothing new
        assert!(!v.check_hit(t + 10));
        assert!(!v.check_hit(t + 20));
        assert_eq!(v.get_hit_count(), round);
        feed(&mut v, LOW, 10);
        assert!(v.check_hit(t + 100));
        v.check_period_reset(t + 200);
        t += 1_000;
    }
    assert_eq!(v.get_hit_count(), 3);
}

#[test]
fn alternating_samples_start_no_hit() {
    // half the samples are high, but never five in a row
    let mut v = VoltageState::new();
    for x in [200u16, 100, 200, 100, 200, 100, 200, 100, 200, 100] {
        v.update(x);
    }
    assert!(!v.check_hit(0));
    assert!(!v.is_hitting());
    assert_eq!(v.get_hit_count(), 0);
}

#[test]
fn five_high_samples_in_a_row_start_a_hit_anywhere_in_the_window() {
    let mut v = VoltageState::new();
    for x in [100u16, 200, 200, 200, 200, 200, 100, 200, 100, 130] {
        v.update(x);
    }
    assert!(!v.check_hit(0));
    assert!(v.is_hitting());
}

#[test]
fn runs_are_read_in_arrival_order_across_the_wrap() {
    // after 13 samples the oldest stands at slot 3; the run of five high
    // samples spans the end of the buffer and its start
    let mut v = VoltageState::new();
    for x in [130u16, 130, 130, 130, 130, 130, 130, 130, 200, 200, 200, 200, 200] {
        v.update(x);
    }
    assert!(!v.check_hit(0));
    assert!(v.is_hitting());
    // slots 0..2 and 7..9 hold high samples, but not five in a row in
    // arrival order
    let mut w = VoltageState::new();
    for x in [200u16, 200, 200, 130, 130, 130, 130, 200, 200, 200] {
        w.update(x);
    }
    assert!(!w.check_hit(0));
    assert!(!w.is_hitting());
}

#[test]
fn scattered_low_samples_do_not_end_a_hit() {
    let mut v = hitting_at(0);
    // five low samples, never three in a row
    for x in [50u16, 50, 200, 50, 50, 200, 50, 200, 200, 200] {
        v.update(x);
    }
    assert!(!v.check_hit(100));
    assert!(v.is_hitting());
    v.update(50);
    v.update(50);
    v.update(50);
    assert!(v.check_hit(200));
    assert!(!v.is_hitting());
    assert_eq!(v.total_hit_duration_ms(), 200);
}
