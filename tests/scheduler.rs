use worksmart::scheduler::{window_poll_interval, WINDOW_LOG_INITIAL_DELAY};
use worksmart::{capture_window, is_valid_capture_delay, pick_capture_delay, MEDIA_CAPTURE_LAG};

#[test]
fn capture_window_for_two_minutes() {
    assert_eq!(capture_window(120, 20), Some((12, 100)));
    assert!(is_valid_capture_delay(120, 20, 12));
    assert!(is_valid_capture_delay(120, 20, 100));
    assert!(!is_valid_capture_delay(120, 20, 150));
    assert!(!is_valid_capture_delay(120, 20, 11));
    assert!(!is_valid_capture_delay(120, 20, 101));
}

#[test]
fn drawn_delays_stay_in_window() {
    let mut seen = std::collections::BTreeSet::new();
    for _ in 0..500 {
        let d = pick_capture_delay(120, 20).unwrap();
        assert!((12..=100).contains(&d));
        assert!(is_valid_capture_delay(120, 20, d));
        seen.insert(d);
    }
    // the draw is random, not pinned to one end of the window
    assert!(seen.len() > 1);
    for (t, l) in [(600, MEDIA_CAPTURE_LAG), (30, 20), (30, 0), (1, 0)] {
        let d = pick_capture_delay(t, l).unwrap();
        assert!(t / 10 <= d && d <= t - l);
    }
}

#[test]
fn default_duration_window() {
    assert_eq!(capture_window(600, MEDIA_CAPTURE_LAG), Some((60, 580)));
}

#[test]
fn empty_windows_give_no_delay() {
    // the lag is not shorter than the capsule
    assert_eq!(capture_window(20, 20), None);
    assert_eq!(pick_capture_delay(10, 20), None);
    assert_eq!(pick_capture_delay(0, 0), None);
    // a tenth of the capsule is already past the last allowed moment
    assert_eq!(capture_window(20, 19), None);
    assert_eq!(pick_capture_delay(20, 19), None);
    assert!(!is_valid_capture_delay(20, 19, 1));
    assert!(!is_valid_capture_delay(20, 19, 2));
}

#[test]
fn poll_interval_is_a_tenth() {
    assert_eq!(window_poll_interval(120), 12);
    assert_eq!(window_poll_interval(600), 60);
    assert_eq!(window_poll_interval(9), 0);
    assert_eq!(WINDOW_LOG_INITIAL_DELAY, 10);
}
