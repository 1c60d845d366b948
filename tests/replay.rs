use tinker::event::{BrowserEvent, EventEntry};
use tinker::event_log::EventViewer;
use tinker::replay::{EventPlayer, EventRecorder};

fn nav(url: &str) -> BrowserEvent {
    BrowserEvent::Navigation { url: url.to_string() }
}

fn recorded_three() -> Vec<EventEntry> {
    let mut r = EventRecorder::new();
    r.record_event(nav("ignored"), 5);
    r.start();
    r.record_event(nav("a"), 1000);
    r.record_event(nav("b"), 1400);
    r.record_event(nav("c"), 2000);
    r.stop();
    r.record_event(nav("late"), 3000);
    r.entries().to_vec()
}

#[test]
fn recorder_appends_only_while_recording() {
    let e = recorded_three();
    assert_eq!(e.len(), 3);
    assert_eq!(e[0], EventEntry { timestamp: 1000, event: nav("a") });
    assert_eq!(e[2].timestamp, 2000);
}

#[test]
fn recorder_keeps_save_path() {
    let mut r = EventRecorder::new();
    assert!(r.save_path().is_none());
    r.set_save_path("/tmp/session.json");
    assert_eq!(r.save_path().unwrap(), "/tmp/session.json");
}

#[test]
fn replay_at_real_time_waits_for_offsets() {
    let mut p = EventPlayer::new();
    p.load(recorded_three(), 10_000);
    assert_eq!(p.next_event(10_000), None);
    p.start();
    let first = p.next_event(10_000).unwrap();
    assert_eq!(first.event, nav("a"));
    assert_eq!(p.next_event(10_399), None);
    assert_eq!(p.next_event(10_400).unwrap().event, nav("b"));
    assert_eq!(p.next_event(10_999), None);
    assert_eq!(p.next_event(11_000).unwrap().event, nav("c"));
    assert_eq!(p.next_event(50_000), None);
    assert!(p.is_finished());
}

#[test]
fn replay_at_double_speed_takes_half_the_time() {
    let mut p = EventPlayer::new();
    p.load(recorded_three(), 0);
    assert!(p.set_speed(2000));
    p.start();
    assert_eq!(p.next_event(0).unwrap().event, nav("a"));
    assert_eq!(p.next_event(199), None);
    assert_eq!(p.next_event(200).unwrap().event, nav("b"));
    assert_eq!(p.next_event(499), None);
    assert_eq!(p.next_event(500).unwrap().event, nav("c"));
}

#[test]
fn zero_speed_is_refused() {
    let mut p = EventPlayer::new();
    assert!(!p.set_speed(0));
    assert_eq!(p.speed(), 1000);
    assert!(p.set_speed(500));
    assert_eq!(p.speed(), 500);
}

#[test]
fn stopping_keeps_position() {
    let mut p = EventPlayer::new();
    p.load(recorded_three(), 0);
    p.start();
    assert!(p.next_event(0).is_some());
    p.stop();
    assert_eq!(p.next_event(5000), None);
    p.start();
    assert_eq!(p.next_event(5000).unwrap().event, nav("b"));
}

#[test]
fn viewer_keeps_only_the_last_entries() {
    let mut v = EventViewer::with_capacity(2);
    v.add_event(nav("a"), 1);
    v.add_event(nav("b"), 2);
    v.add_event(nav("c"), 3);
    assert_eq!(v.len(), 2);
    let recent = v.get_recent_events(10);
    assert_eq!(recent[0].event, nav("b"));
    assert_eq!(recent[1].event, nav("c"));
    let last = v.get_recent_events(1);
    assert_eq!(last, vec![EventEntry { timestamp: 3, event: nav("c") }]);
    v.clear();
    assert!(v.get_recent_events(5).is_empty());
}
