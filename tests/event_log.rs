use easytier_gui::{event_stamp, Event, EventLog, Launcher, LauncherState, EVENT_LOG_CAPACITY};

fn numbered(n: i64) -> Event {
    Event::new(n, format!("event {}", n))
}

#[test]
fn log_keeps_the_last_hundred_of_150() {
    let mut log = EventLog::new();
    for n in 1..=150 {
        log.push(numbered(n));
    }
    let entries = log.to_vec();
    assert_eq!(entries.len(), 100);
    for (k, e) in entries.iter().enumerate() {
        assert_eq!(e.time, 51 + k as i64);
        assert_eq!(e.payload, format!("event {}", 51 + k as i64));
    }
}

#[test]
fn log_below_capacity_keeps_everything() {
    let mut log = EventLog::new();
    for n in 0..EVENT_LOG_CAPACITY as i64 {
        log.push(numbered(n));
    }
    assert_eq!(log.len(), 100);
    assert_eq!(log.to_vec()[0].time, 0);
    log.push(numbered(100));
    assert_eq!(log.len(), 100);
    assert_eq!(log.to_vec()[0].time, 1);
    assert_eq!(log.to_vec()[99].time, 100);
}

#[test]
fn extend_matches_pushing_one_by_one() {
    let batch: Vec<Event> = (0..130).map(numbered).collect();
    let mut a = EventLog::new();
    a.extend(&batch);
    let mut b = EventLog::new();
    for e in batch.iter() {
        b.push(e.duplicate());
    }
    let (va, vb) = (a.to_vec(), b.to_vec());
    assert_eq!(va.len(), 100);
    for k in 0..100 {
        assert_eq!(va[k].time, vb[k].time);
        assert_eq!(va[k].time, 30 + k as i64);
    }
}

#[test]
fn empty_log() {
    let log = EventLog::new();
    assert_eq!(log.len(), 0);
    assert!(log.to_vec().is_empty());
}

#[test]
fn launcher_config_error_never_runs() {
    let mut l = Launcher::new();
    let r: Option<u8> = l.start(Err("bad config".to_string()));
    assert!(r.is_none());
    assert!(!l.running());
    assert_eq!(l.state(), LauncherState::NotStarted);
    assert_eq!(l.error(), Some("bad config".to_string()));
}

#[test]
fn launcher_cannot_restart() {
    let mut l = Launcher::new();
    assert_eq!(l.start(Ok::<u8, String>(7)), Some(7));
    assert!(l.running());
    assert_eq!(l.start(Ok::<u8, String>(8)), None);
    assert!(l.stop());
    l.engine_exited(Ok(()));
    assert_eq!(l.state(), LauncherState::Stopped);
    assert!(!l.running());
    assert!(!l.stop());
    assert_eq!(l.start(Ok::<u8, String>(9)), None);
}

#[test]
fn launcher_engine_failure_is_recorded() {
    let mut l = Launcher::new();
    l.start(Ok::<u8, String>(1));
    l.engine_exited(Err("bind failed".to_string()));
    assert_eq!(l.state(), LauncherState::Errored);
    assert!(!l.running());
    assert_eq!(l.error(), Some("bind failed".to_string()));
    l.engine_exited(Ok(()));
    assert_eq!(l.state(), LauncherState::Errored);
}

#[test]
fn launcher_records_events_with_current_time() {
    let mut l = Launcher::new();
    l.record_event(Event::new(5, "listener bound".to_string()));
    l.record_event_now("peer connected".to_string());
    let evs = l.events();
    assert_eq!(evs.len(), 2);
    assert_eq!(evs[0].time, 5);
    assert_eq!(evs[1].payload, "peer connected");
    assert!(evs[1].time > 1_600_000_000_000);
}

#[test]
fn stamps_follow_the_clock_but_never_go_back() {
    assert_eq!(event_stamp(None, None), 0);
    assert_eq!(event_stamp(Some(1_000), None), 1_000);
    assert_eq!(event_stamp(Some(1_000), Some(2_000)), 2_000);
    assert_eq!(event_stamp(Some(3_000), Some(2_000)), 3_000);
    assert_eq!(event_stamp(Some(u128::MAX), None), 0);
    assert_eq!(event_stamp(Some(i64::MAX as u128), Some(5)), i64::MAX);
    assert_eq!(event_stamp(None, Some(-5)), 0);
    assert_eq!(event_stamp(None, Some(7)), 7);
}
