use worksmart::TrackHistory;

#[test]
fn increments_combine() {
    let day = 739_100;
    let mut split = TrackHistory::new();
    split.increment_track_for_day(day, 30);
    split.increment_track_for_day(day, 45);
    let mut once = TrackHistory::new();
    once.increment_track_for_day(day, 75);
    let mut swapped = TrackHistory::new();
    swapped.increment_track_for_day(day, 45);
    swapped.increment_track_for_day(day, 30);
    assert_eq!(split.get_track_for_day(day), 75);
    assert_eq!(split.history, once.history);
    assert_eq!(split.history, swapped.history);
}

#[test]
fn increment_creates_entry() {
    let mut t = TrackHistory::new();
    assert_eq!(t.get_track_for_day(5), 0);
    t.increment_track_for_day(5, 12);
    assert_eq!(t.get_track_for_day(5), 12);
    assert_eq!(t.get_track_for_day(6), 0);
    assert_eq!(t.history.len(), 1);
}

#[test]
fn increment_saturates() {
    let mut t = TrackHistory::new();
    t.increment_track_for_day(1, u64::MAX - 1);
    t.increment_track_for_day(1, 5);
    assert_eq!(t.get_track_for_day(1), u64::MAX);
}

#[test]
fn clean_up_keeps_only_today() {
    let mut t = TrackHistory::new();
    t.increment_track_for_day(10, 1);
    t.increment_track_for_day(11, 2);
    t.increment_track_for_day(12, 3);
    t.clean_up_for_day(11);
    assert_eq!(t.history.len(), 1);
    assert_eq!(t.get_track_for_day(11), 2);
    assert_eq!(t.get_track_for_day(10), 0);

    let mut u = TrackHistory::new();
    u.increment_track_for_day(10, 1);
    u.increment_track_for_day(12, 3);
    u.clean_up_for_day(11);
    assert!(u.history.is_empty());

    let mut empty = TrackHistory::new();
    empty.clean_up_for_day(11);
    assert!(empty.history.is_empty());
}

#[test]
fn today_functions_use_one_day() {
    let mut t = TrackHistory::new();
    t.increment_track_for_day(1, 99);
    t.increment_track_for_today(40);
    t.increment_track_for_today(2);
    assert_eq!(t.get_track_for_today(), 42);
    t.clean_up();
    assert_eq!(t.history.len(), 1);
    assert_eq!(t.get_track_for_today(), 42);
    assert_eq!(t.get_track_for_day(1), 0);
}

#[test]
fn clean_up_of_other_days_leaves_nothing() {
    let mut t = TrackHistory::new();
    t.increment_track_for_day(1, 99);
    t.clean_up();
    assert!(t.history.is_empty());
    assert_eq!(t.get_track_for_today(), 0);
}
