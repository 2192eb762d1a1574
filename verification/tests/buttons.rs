use vgrs::buttons::ButtonState;

fn feed(b: &mut ButtonState, samples: &[(bool, bool, bool)]) {
    for &(l, r, m) in samples {
        b.update(l, r, m);
    }
}

#[test]
fn fresh_buttons_are_not_pressed() {
    let b = ButtonState::new();
    assert_eq!(b.is_debounced(7), (false, false, false));
    assert_eq!(b.is_debounced(1), (false, false, false));
    assert_eq!(b.is_debounced(0), (true, true, true));
}

#[test]
fn held_buttons_debounce_independently() {
    let mut b = ButtonState::new();
    feed(&mut b, &[(true, false, true); 10]);
    assert_eq!(b.is_debounced(7), (true, false, true));
    assert_eq!(b.is_debounced(10), (true, false, true));
    assert_eq!(b.is_debounced(11), (false, false, false));
}

#[test]
fn threshold_is_inclusive() {
    let mut b = ButtonState::new();
    // seven high samples and three low ones
    feed(&mut b, &[(true, true, false); 7]);
    feed(&mut b, &[(false, false, false); 3]);
    assert_eq!(b.is_debounced(7), (true, true, false));
    assert_eq!(b.is_debounced(8), (false, false, false));
}

#[test]
fn fewer_high_samples_than_threshold_is_not_pressed() {
    let mut b = ButtonState::new();
    feed(&mut b, &[(true, true, true); 6]);
    assert_eq!(b.is_debounced(7), (false, false, false));
    b.update(true, false, true);
    assert_eq!(b.is_debounced(7), (true, false, true));
}

#[test]
fn window_forgets_samples_older_than_ten() {
    let mut b = ButtonState::new();
    feed(&mut b, &[(true, true, true); 10]);
    feed(&mut b, &[(false, false, false); 10]);
    assert_eq!(b.is_debounced(1), (false, false, false));
}

#[test]
fn last_ten_samples_decide_whatever_came_before() {
    // the same ten samples, after two different histories, give the same result
    let tail: Vec<(bool, bool, bool)> = (0..10).map(|i| (i % 3 != 0, i < 2, i % 2 == 0)).collect();
    let mut a = ButtonState::new();
    feed(&mut a, &[(true, true, true); 13]);
    feed(&mut a, &tail);
    let mut b = ButtonState::new();
    feed(&mut b, &[(false, false, false); 4]);
    feed(&mut b, &tail);
    for t in 0..12 {
        assert_eq!(a.is_debounced(t), b.is_debounced(t));
    }
    // left: 6 high, right: 2 high, middle: 5 high
    assert_eq!(a.is_debounced(6), (true, false, false));
    assert_eq!(a.is_debounced(5), (true, false, true));
    assert_eq!(a.is_debounced(2), (true, true, true));
}

#[test]
fn history_keeps_samples_across_many_rounds() {
    // 23 samples: the last ten decide, with the ring wrapped round twice
    let mut b = ButtonState::new();
    for i in 0..23 {
        b.update(i >= 13 && i % 2 == 0, i < 13, i >= 16);
    }
    // left: 14,16,18,20,22 high = 5; right: none; middle: 16..=22 = 7
    assert_eq!(b.is_debounced(5), (true, false, true));
    assert_eq!(b.is_debounced(6), (false, false, true));
    assert_eq!(b.is_debounced(7), (false, false, true));
    assert_eq!(b.is_debounced(8), (false, false, false));
}
