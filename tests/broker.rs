use tinker::broker::{EventSystem, PublishAction, COMMAND_TOPIC};
use tinker::event::{BrowserCommand, BrowserEvent};

#[test]
fn new_adds_scheme_and_reads_host_and_port() {
    let es = EventSystem::new("broker.example:1884", "tinker-browser");
    assert_eq!(es.broker_url, "mqtt://broker.example:1884");
    assert_eq!(es.host(), "broker.example");
    assert_eq!(es.port(), 1884);
    assert_eq!(es.client_id(), "tinker-browser");
    assert_eq!(es.keep_alive_secs(), 5);
    assert!(es.clean_session());
    assert!(!es.is_connected());
}

#[test]
fn new_keeps_scheme_and_defaults_port() {
    let es = EventSystem::new("mqtt://example.org", "c");
    assert_eq!(es.broker_url, "mqtt://example.org");
    assert_eq!(es.host(), "example.org");
    assert_eq!(es.port(), 3003);
}

#[test]
fn unparsable_url_falls_back_to_localhost() {
    let es = EventSystem::new("mqtt://[bad", "c");
    assert_eq!(es.host(), "localhost");
    assert_eq!(es.port(), 3003);
}

#[test]
fn topics_follow_event_kind() {
    let es = EventSystem::new("localhost", "c");
    assert_eq!(es.get_topic(&BrowserEvent::Navigation { url: "u".into() }), "browser/navigation");
    assert_eq!(es.get_topic(&BrowserEvent::PageLoaded { url: "u".into() }), "browser/page/loaded");
    assert_eq!(es.get_topic(&BrowserEvent::TitleChanged { title: "t".into() }), "browser/page/title");
    assert_eq!(es.get_topic(&BrowserEvent::TabCreated { id: 1, url: "u".into() }), "browser/tabs/created");
    assert_eq!(es.get_topic(&BrowserEvent::TabClosed { id: 1 }), "browser/tabs/closed");
    assert_eq!(es.get_topic(&BrowserEvent::TabActivated { id: 1 }), "browser/tabs/activated");
    assert_eq!(es.get_topic(&BrowserEvent::TabUrlChanged { id: 1, url: "u".into() }), "browser/tabs/url");
    assert_eq!(es.get_topic(&BrowserEvent::TabTitleChanged { id: 1, title: "t".into() }), "browser/tabs/title");
    assert_eq!(es.get_topic(&BrowserEvent::Error { message: "m".into() }), "browser/error");
    assert_eq!(es.get_topic(&BrowserEvent::CommandReceived { command: "c".into() }), "browser/command/received");
    assert_eq!(
        es.get_topic(&BrowserEvent::CommandExecuted { command: "c".into(), success: true }),
        "browser/command/executed"
    );
}

#[test]
fn broken_connection_reconnects_once_then_fails() {
    let mut es = EventSystem::new("localhost", "c");
    es.set_connected(true);
    let (mut attempt, first) = es.publish(&BrowserEvent::TabClosed { id: 3 });
    assert_eq!(attempt.topic(), "browser/tabs/closed");
    assert_eq!(first, PublishAction::Send);
    assert_eq!(attempt.on_send(false), PublishAction::Reconnect);
    assert_eq!(attempt.on_reconnect(true), PublishAction::Send);
    assert_eq!(attempt.on_send(false), PublishAction::ConnectionFailure);
    assert!(attempt.is_finished());

    let (mut again, action) = es.publish(&BrowserEvent::TabClosed { id: 3 });
    assert_eq!(action, PublishAction::Send);
    assert_eq!(again.on_send(true), PublishAction::Delivered);
}

#[test]
fn missing_connection_reconnects_first() {
    let es = EventSystem::new("localhost", "c");
    let (mut attempt, first) = es.publish(&BrowserEvent::TabActivated { id: 1 });
    assert_eq!(first, PublishAction::Reconnect);
    assert_eq!(attempt.on_reconnect(false), PublishAction::ConnectionFailure);
    let (mut second, first) = es.publish(&BrowserEvent::TabActivated { id: 1 });
    assert_eq!(first, PublishAction::Reconnect);
    assert_eq!(second.on_reconnect(true), PublishAction::Send);
    assert_eq!(second.on_send(true), PublishAction::Delivered);
}

#[test]
fn subscribe_needs_a_connection() {
    let mut es = EventSystem::new("localhost", "c");
    assert!(!es.subscribe("browser/#"));
    es.set_connected(true);
    assert!(es.subscribe("browser/#"));
}

#[test]
fn inbound_command_is_echoed_and_handed_on() {
    let es = EventSystem::new("localhost", "c");
    let cmd = BrowserCommand::CloseTab { id: 2 };
    let inbound = es.handle_incoming_message(COMMAND_TOPIC, "{\"close_tab\":{\"id\":2}}", Some(cmd.clone()));
    assert_eq!(inbound.command, Some(cmd));
    assert_eq!(
        inbound.events,
        vec![BrowserEvent::CommandReceived { command: "{\"close_tab\":{\"id\":2}}".into() }]
    );
    let ok = es.delivery_events("p", None);
    assert_eq!(ok, vec![BrowserEvent::CommandExecuted { command: "p".into(), success: true }]);
    let failed = es.delivery_events("p", Some("closed"));
    assert_eq!(
        failed,
        vec![
            BrowserEvent::Error { message: "Failed to send command: closed".into() },
            BrowserEvent::CommandExecuted { command: "p".into(), success: false },
        ]
    );
}

#[test]
fn malformed_command_reports_an_error() {
    let es = EventSystem::new("localhost", "c");
    let inbound = es.handle_incoming_message("browser/command", "nonsense", None);
    assert!(inbound.command.is_none());
    assert_eq!(
        inbound.events,
        vec![
            BrowserEvent::CommandReceived { command: "nonsense".into() },
            BrowserEvent::Error { message: "Invalid command format: nonsense".into() },
            BrowserEvent::CommandExecuted { command: "nonsense".into(), success: false },
        ]
    );
}

#[test]
fn other_topics_are_ignored() {
    let es = EventSystem::new("localhost", "c");
    let inbound = es.handle_incoming_message("browser/navigation", "x", None);
    assert!(inbound.events.is_empty());
    assert!(inbound.command.is_none());
}
