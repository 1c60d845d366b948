use tinker::browser::{BrowserEngine, ContentNotice, Effect};
use tinker::event::{BrowserCommand, BrowserEvent};

fn publish(e: BrowserEvent) -> Effect {
    Effect::Publish { event: e }
}

#[test]
fn create_then_switch_announces_and_loads_once() {
    let mut e = BrowserEngine::new(true);
    assert!(e.handle_command(BrowserCommand::CreateTab { url: "https://example.com".into() }, 1));
    let id = e.tabs().get_all_tabs()[0].id;
    assert!(e.handle_command(BrowserCommand::SwitchTab { id }, 2));
    let effects = e.take_effects();
    assert_eq!(
        effects,
        vec![
            publish(BrowserEvent::TabCreated { id, url: "https://example.com".into() }),
            publish(BrowserEvent::TabActivated { id }),
            Effect::LoadUrl { url: "https://example.com".into() },
        ]
    );
    let loads = effects.iter().filter(|x| matches!(x, Effect::LoadUrl { .. })).count();
    assert_eq!(loads, 1);
    assert!(e.take_effects().is_empty());
}

#[test]
fn navigate_updates_active_tab() {
    let mut e = BrowserEngine::new(true);
    let id = e.create_tab("about:blank", 0);
    e.switch_to_tab(id, 0);
    e.take_effects();
    e.navigate("https://rust-lang.org", 5);
    assert_eq!(e.get_active_tab(), Some("https://rust-lang.org".to_string()));
    assert_eq!(
        e.take_effects(),
        vec![
            publish(BrowserEvent::TabUrlChanged { id, url: "https://rust-lang.org".into() }),
            Effect::LoadUrl { url: "https://rust-lang.org".into() },
            publish(BrowserEvent::Navigation { url: "https://rust-lang.org".into() }),
        ]
    );
}

#[test]
fn failed_close_and_switch_emit_nothing() {
    let mut e = BrowserEngine::new(true);
    assert!(!e.handle_command(BrowserCommand::CloseTab { id: 4 }, 0));
    assert!(!e.handle_command(BrowserCommand::SwitchTab { id: 4 }, 0));
    assert!(e.take_effects().is_empty());
    assert!(e.get_recent_events(10).is_empty());
}

#[test]
fn events_are_logged_and_recorded() {
    let mut e = BrowserEngine::new(true);
    e.start_recording("/tmp/rec.json");
    let id = e.create_tab("a", 7);
    e.close_tab(id, 9);
    e.stop_recording();
    e.create_tab("b", 11);
    let rec = e.recorder().entries();
    assert_eq!(rec.len(), 2);
    assert_eq!(rec[1].timestamp, 9);
    assert_eq!(rec[1].event, BrowserEvent::TabClosed { id });
    assert_eq!(e.get_recent_events(10).len(), 3);
    e.clear_event_history();
    assert!(e.get_recent_events(10).is_empty());
}

#[test]
fn record_event_goes_only_to_recorder() {
    let mut e = BrowserEngine::new(true);
    e.start_recording("/tmp/rec.json");
    assert!(e.handle_command(
        BrowserCommand::RecordEvent { event: BrowserEvent::PageLoaded { url: "x".into() } },
        3
    ));
    assert_eq!(e.recorder().entries().len(), 1);
    assert!(e.take_effects().is_empty());
    assert!(e.get_recent_events(10).is_empty());
}

#[test]
fn replayed_events_act_like_live_ones() {
    let mut source = BrowserEngine::new(true);
    source.start_recording("/tmp/r.json");
    let id = source.create_tab("https://a.example", 100);
    source.switch_to_tab(id, 150);
    source.navigate("https://b.example", 300);
    let entries = source.recorder().entries().to_vec();

    let mut e = BrowserEngine::new(true);
    e.load_recording(entries, 1000);
    e.start_replay();
    let mut steps = 0;
    let mut now = 1000;
    while now <= 1300 {
        while let Some(cmd) = e.poll_replay(now) {
            e.handle_command(cmd, now);
            steps += 1;
        }
        now += 10;
    }
    assert_eq!(steps, 4);
    assert_eq!(e.get_active_tab(), Some("https://b.example".to_string()));
}

#[test]
fn content_notices_update_the_active_tab() {
    let mut e = BrowserEngine::new(false);
    assert_eq!(e.ensure_initial_tab(0), Some(0));
    assert_eq!(e.ensure_initial_tab(0), None);
    e.switch_to_tab(0, 0);
    e.take_effects();
    e.handle_ipc_message(ContentNotice::TitleChanged { title: "Home".into() }, 1);
    e.handle_ipc_message(ContentNotice::PageLoaded { url: "about:blank".into() }, 2);
    assert_eq!(e.tabs().get_active_tab().unwrap().title, "Home");
    assert_eq!(
        e.take_effects(),
        vec![
            publish(BrowserEvent::TabTitleChanged { id: 0, title: "Home".into() }),
            publish(BrowserEvent::TitleChanged { title: "Home".into() }),
            publish(BrowserEvent::PageLoaded { url: "about:blank".into() }),
        ]
    );
}

#[test]
fn replay_speed_zero_is_refused() {
    let mut e = BrowserEngine::new(true);
    assert!(!e.set_replay_speed(0));
    assert!(e.set_replay_speed(2000));
    assert_eq!(e.player().speed(), 2000);
}
