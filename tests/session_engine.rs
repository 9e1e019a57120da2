use worksmart::{
    CapsuleEnd, CapsuleOutcome, LoopPhase, Session, SessionController, SessionLoop, TimeCapsule,
    TrackHistory,
};

fn capsule(id: &str) -> TimeCapsule {
    TimeCapsule::new(
        id.to_string(),
        "session-1".to_string(),
        "Mon, 1 Jan 2024 10:00:00 +0000".to_string(),
        "/data/capsules/".to_string() + id,
    )
}

#[test]
fn shutdown_during_capsule_stops_the_session() {
    let mut lp = SessionLoop::new();
    assert_eq!(lp.begin_capsule(0), Some(0));
    let mut c = capsule("c1");
    let shutdown = c.end(CapsuleEnd::Shutdown, "t=5".to_string());
    assert!(shutdown);
    assert_eq!(c.ended_at(), &Some("t=5".to_string()));
    let report = lp.finish_capsule(5, CapsuleOutcome::Shutdown, false).unwrap();
    assert_eq!(report.started, 0);
    assert_eq!(report.ended, 5);
    assert_eq!(report.elapsed, 5);
    assert!(report.stop);
    assert_eq!(lp.phase(), LoopPhase::Stopped);
    assert!(lp.is_stopped());
    assert_eq!(lp.begin_capsule(6), None);
    assert_eq!(lp.phase(), LoopPhase::Stopped);
}

#[test]
fn timeout_keeps_the_session_going() {
    let mut lp = SessionLoop::new();
    lp.begin_capsule(10).unwrap();
    let mut c = capsule("c1");
    assert!(!c.end(CapsuleEnd::Timeout, "t=130".to_string()));
    let report = lp.finish_capsule(130, CapsuleOutcome::Timeout, false).unwrap();
    assert!(!report.stop);
    assert_eq!(report.elapsed, 120);
    assert_eq!(lp.phase(), LoopPhase::Idle);
    assert_eq!(lp.begin_capsule(130), Some(130));
}

#[test]
fn soft_stop_ends_after_current_capsule() {
    let mut controller = SessionController::default();
    let mut lp = SessionLoop::new();
    lp.begin_capsule(0).unwrap();
    controller.shutdown();
    assert!(controller.is_shutdown());
    let report = lp.finish_capsule(120, CapsuleOutcome::Timeout, controller.is_shutdown()).unwrap();
    assert!(report.stop);
    assert_eq!(report.elapsed, 120);
    assert_eq!(lp.begin_capsule(121), None);
    controller.start();
    assert!(!controller.is_shutdown());
}

#[test]
fn failed_capsule_does_not_end_the_session() {
    let mut lp = SessionLoop::new();
    lp.begin_capsule(0).unwrap();
    let report = lp.finish_capsule(1, CapsuleOutcome::Failed, false).unwrap();
    assert!(!report.stop);
    assert_eq!(lp.phase(), LoopPhase::Idle);
}

#[test]
fn capsule_is_accounted_once() {
    let mut lp = SessionLoop::new();
    assert_eq!(lp.finish_capsule(3, CapsuleOutcome::Timeout, false), None);
    lp.begin_capsule(0).unwrap();
    assert_eq!(lp.begin_capsule(1), None);
    assert!(lp.finish_capsule(3, CapsuleOutcome::Timeout, false).is_some());
    assert_eq!(lp.finish_capsule(4, CapsuleOutcome::Timeout, false), None);
}

#[test]
fn consecutive_capsules_do_not_overlap() {
    let mut lp = SessionLoop::new();
    let s1 = lp.begin_capsule(100).unwrap();
    let r1 = lp.finish_capsule(220, CapsuleOutcome::Timeout, false).unwrap();
    // the clock steps back between capsules
    let s2 = lp.begin_capsule(200).unwrap();
    assert_eq!(s1, 100);
    assert!(r1.ended <= s2);
    assert_eq!(s2, 220);
    // and within a capsule
    let r2 = lp.finish_capsule(210, CapsuleOutcome::Timeout, false).unwrap();
    assert_eq!(r2.ended, 220);
    assert_eq!(r2.elapsed, 0);
}

#[test]
fn two_capsules_add_up_in_the_tracker() {
    let day = 739_000;
    let mut tracker = TrackHistory::new();
    let mut lp = SessionLoop::new();
    let s1 = lp.begin_capsule(1_000).unwrap();
    let r1 = lp.finish_capsule(s1 + 120, CapsuleOutcome::Timeout, false).unwrap();
    tracker.increment_track_for_day(day, r1.elapsed);
    let s2 = lp.begin_capsule(r1.ended).unwrap();
    let r2 = lp.finish_capsule(s2 + 120, CapsuleOutcome::Timeout, false).unwrap();
    tracker.increment_track_for_day(day, r2.elapsed);
    assert_eq!(tracker.get_track_for_day(day), 240);
}

#[test]
fn session_begin_and_finish() {
    let mut s = Session::new("first".to_string());
    assert!(s.detail().is_none());
    assert!(!s.is_stopped());
    let d = s.begin("abc".to_string(), "2024-01-01T10:00:00Z".to_string()).unwrap();
    assert_eq!(d.id, "abc");
    assert_eq!(d.started_at, "2024-01-01T10:00:00Z");
    assert!(d.ended_at.is_none());
    assert!(s.is_running);
    assert!(s.begin("other".to_string(), "later".to_string()).is_none());
    assert_eq!(s.id, "abc");
    s.finish("2024-01-01T11:00:00Z".to_string());
    assert!(!s.is_running);
    let d = s.detail().unwrap();
    assert_eq!(d.ended_at, Some("2024-01-01T11:00:00Z".to_string()));
    s.finish("again".to_string());
    assert_eq!(s.ended_at, Some("2024-01-01T11:00:00Z".to_string()));
}

#[test]
fn session_stopped_after_signal() {
    let mut s = Session::new("x".to_string());
    s.shutdown.observe_signal();
    assert!(s.is_stopped());
}
