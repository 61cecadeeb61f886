use device_mirror::rate::FrameRateWindow;

const SECOND: u64 = 1_000_000;

#[test]
fn empty_window_has_zero_rate() {
    let w = FrameRateWindow::new(2 * SECOND);
    assert_eq!(w.frames_in_window(10 * SECOND), 0);
    assert_eq!(w.current_rate_millihertz(10 * SECOND), 0);
}

#[test]
fn uniform_arrivals_all_within_window() {
    // 4 arrivals spaced 0.5 s apart in a 2 s window: 4 * 0.5 s fits, so all
    // 4 are retained and the rate is 4 / 2 s = 2 Hz.
    let mut w = FrameRateWindow::new(2 * SECOND);
    for t in [0, SECOND / 2, SECOND, 3 * SECOND / 2] {
        w.record_arrival(t);
    }
    assert_eq!(w.frames_in_window(3 * SECOND / 2), 4);
    assert_eq!(w.current_rate_millihertz(3 * SECOND / 2), 2000);
}

#[test]
fn concrete_two_second_window_scenario() {
    // Window of 2 s; frames at t = 0.0, 0.5, 1.0, 1.5, 2.0, 2.5 s. At
    // t = 2.5 s the instants within [0.5, 2.5] are {0.5, 1.0, 1.5, 2.0, 2.5},
    // so the rate is 5 / 2 s = 2.5 Hz = 2500 mHz.
    let mut w = FrameRateWindow::new(2 * SECOND);
    for t in [
        0,
        SECOND / 2,
        SECOND,
        3 * SECOND / 2,
        2 * SECOND,
        5 * SECOND / 2,
    ] {
        w.record_arrival(t);
    }
    assert_eq!(w.frames_in_window(5 * SECOND / 2), 5);
    assert_eq!(w.current_rate_millihertz(5 * SECOND / 2), 2500);
}

#[test]
fn rate_zero_after_full_window_gap() {
    let mut w = FrameRateWindow::new(2 * SECOND);
    w.record_arrival(SECOND);
    w.record_arrival(2 * SECOND);
    // Strictly more than one full window after the last arrival: nothing is
    // left in the window.
    assert_eq!(w.frames_in_window(4 * SECOND + 1), 0);
    assert_eq!(w.current_rate_millihertz(4 * SECOND + 1), 0);
}

#[test]
fn arrival_exactly_one_window_back_is_retained() {
    // Eviction removes only instants strictly older than `now - window`, so
    // a gap of exactly one window still counts the boundary arrival.
    let mut w = FrameRateWindow::new(2 * SECOND);
    w.record_arrival(SECOND);
    w.record_arrival(2 * SECOND);
    assert_eq!(w.frames_in_window(4 * SECOND), 1);
    assert_eq!(w.current_rate_millihertz(4 * SECOND), 500);
}

#[test]
fn rate_decays_as_instants_age_out() {
    let mut w = FrameRateWindow::new(2 * SECOND);
    for t in [0, SECOND / 2, SECOND] {
        w.record_arrival(t);
    }
    assert_eq!(w.frames_in_window(SECOND), 3);
    assert_eq!(w.frames_in_window(2 * SECOND + 1), 2);
    assert_eq!(w.frames_in_window(5 * SECOND / 2 + 1), 1);
    assert_eq!(w.frames_in_window(4 * SECOND), 0);
}

#[test]
fn reset_clears_the_record() {
    let mut w = FrameRateWindow::new(2 * SECOND);
    w.record_arrival(SECOND);
    w.record_arrival(2 * SECOND);
    w.reset();
    assert_eq!(w.frames_in_window(2 * SECOND), 0);
    assert_eq!(w.current_rate_millihertz(2 * SECOND), 0);
}

#[test]
fn eviction_happens_on_arrival() {
    // An arrival first appends, then evicts everything older than the new
    // window; old instants do not linger past a late arrival.
    let mut w = FrameRateWindow::new(SECOND);
    w.record_arrival(0);
    w.record_arrival(10 * SECOND);
    assert_eq!(w.frames_in_window(10 * SECOND), 1);
}
