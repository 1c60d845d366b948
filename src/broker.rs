//! The bridge to the publish/subscribe broker: connection settings, the topic of
//! each event, the retry rule of a publish, and what an inbound command yields.
//!
//! The network calls themselves are made by the caller, which reports back how
//! each one went.
use vstd::prelude::*;
use vstd::string::*;
use crate::event::{topic_for, topic_of, BrowserCommand, BrowserEvent};

verus! {

/// The topic on which commands arrive.
pub const COMMAND_TOPIC: &'static str = "browser/command";

/// The topic on which the connection status is announced.
pub const CONNECTION_TOPIC: &'static str = "browser/connection";

/// The scheme that a broker address is given.
pub const SCHEME_PREFIX: &'static str = "mqtt://";

/// The host used when the address names none.
pub const DEFAULT_HOST: &'static str = "localhost";

/// The port used when the address names none.
pub const DEFAULT_PORT: u16 = 3003;

/// The keep-alive interval, in seconds.
pub const KEEP_ALIVE_SECS: u64 = 5;

/// The host that `url::Url::parse` finds in `s`; none when `s` does not parse or
/// names no host.
pub uninterp spec fn url_host(s: Seq<char>) -> Option<Seq<char>>;

/// The port that `url::Url::parse` finds written in `s`; none when `s` does not
/// parse or gives no port.
pub uninterp spec fn url_port(s: Seq<char>) -> Option<u16>;

/// Relies on `url::Url::parse` and `url::Url::host_str`: the host of the address.
#[verifier::external_body]
fn parsed_host(s: &str) -> (r: Option<String>)
    ensures
        r is None <==> url_host(s@) is None,
        r matches Some(h) ==> url_host(s@) == Some(h@),
{
    url::Url::parse(s).ok().and_then(|u| u.host_str().map(|h| h.to_string()))
}

/// Relies on `url::Url::parse` and `url::Url::port`: the port written in the address.
#[verifier::external_body]
fn parsed_port(s: &str) -> (r: Option<u16>)
    ensures
        r == url_port(s@),
{
    url::Url::parse(s).ok().and_then(|u| u.port())
}

/// Whether `s` begins with `p`.
pub open spec fn has_prefix(s: Seq<char>, p: Seq<char>) -> bool {
    p.len() <= s.len() && s.subrange(0, p.len() as int) == p
}

/// The broker address with the scheme put in front when it is missing.
pub open spec fn normalized_url(s: Seq<char>) -> Seq<char> {
    if has_prefix(s, SCHEME_PREFIX@) { s } else { SCHEME_PREFIX@ + s }
}

/// Whether `s` begins with `p`.
pub fn starts_with(s: &str, p: &str) -> (r: bool)
    ensures
        r == has_prefix(s@, p@),
{
    let n = p.unicode_len();
    if n > s.unicode_len() {
        return false;
    }
    let mut i: usize = 0;
    while i < n
        invariant
            n == p@.len(),
            n <= s@.len(),
            i <= n,
            forall|k: int| 0 <= k < i ==> s@[k] == p@[k],
        decreases n - i,
    {
        if s.get_char(i) != p.get_char(i) {
            assert(s@.subrange(0, n as int)[i as int] != p@[i as int]);
            return false;
        }
        i = i + 1;
    }
    assert(s@.subrange(0, n as int) =~= p@);
    true
}

/// Whether `a` and `b` hold the same characters.
pub fn same_text(a: &str, b: &str) -> (r: bool)
    ensures
        r == (a@ == b@),
{
    if a.unicode_len() != b.unicode_len() {
        return false;
    }
    let r = starts_with(a, b);
    assert(a@.subrange(0, b@.len() as int) =~= a@);
    r
}

/// What a publish asks of the caller next, or how it ended.
#[derive(Debug, Clone, Copy, PartialEq, Eq, Structural)]
pub enum PublishAction {
    /// Send the payload on the attempt's topic and report whether it went out.
    Send,
    /// Connect again and report whether that worked.
    Reconnect,
    /// The payload went out.
    Delivered,
    /// The broker could not be reached, after one reconnect.
    ConnectionFailure,
}

/// Where a publish stands.
#[derive(Debug, Clone, Copy, PartialEq, Eq, Structural)]
pub enum Stage {
    Waiting(PublishAction),
    Finished,
}

/// One publish: a send, and on a missing or broken connection one reconnect and
/// one more send.
pub struct PublishAttempt {
    topic: &'static str,
    stage: Stage,
    reconnects: u8,
}

impl PublishAttempt {
    /// The topic the payload goes to.
    pub closed spec fn topic_view(&self) -> Seq<char> {
        self.topic@
    }

    /// The topic the payload goes to.
    pub fn topic(&self) -> (r: &'static str)
        ensures
            r@ == self.topic_view(),
    {
        self.topic
    }

    /// How many reconnects this publish has asked for.
    pub closed spec fn reconnect_count(&self) -> nat {
        self.reconnects as nat
    }

    /// What the publish waits to hear of: a send or a reconnect; none once ended.
    pub closed spec fn awaiting(&self) -> Option<PublishAction> {
        match self.stage {
            Stage::Waiting(a) => Some(a),
            Stage::Finished => None,
        }
    }

    pub open spec fn wf(&self) -> bool {
        &&& self.reconnect_count() <= 1
        &&& (self.awaiting() matches Some(a) ==> (a == PublishAction::Send || a
            == PublishAction::Reconnect))
        &&& (self.awaiting() == Some(PublishAction::Reconnect) ==> self.reconnect_count() == 1)
    }

    /// Whether the publish has ended.
    pub fn is_finished(&self) -> (r: bool)
        ensures
            r == (self.awaiting() is None),
    {
        match self.stage {
            Stage::Finished => true,
            Stage::Waiting(_) => false,
        }
    }

    /// Takes the outcome of a send. A failed first send asks for the one
    /// reconnect; a failed send after it ends the publish with a connection
    /// failure.
    pub fn on_send(&mut self, ok: bool) -> (r: PublishAction)
        requires
            old(self).wf(),
            old(self).awaiting() == Some(PublishAction::Send),
        ensures
            final(self).wf(),
            final(self).topic_view() == old(self).topic_view(),
            ok ==> r == PublishAction::Delivered && final(self).reconnect_count()
                == old(self).reconnect_count(),
            !ok && old(self).reconnect_count() == 0 ==> r == PublishAction::Reconnect
                && final(self).reconnect_count() == 1,
            !ok && old(self).reconnect_count() == 1 ==> r == PublishAction::ConnectionFailure
                && final(self).reconnect_count() == 1,
            final(self).awaiting() == (if r == PublishAction::Send || r == PublishAction::Reconnect {
                Some(r)
            } else {
                None
            }),
    {
        if ok {
            self.stage = Stage::Finished;
            PublishAction::Delivered
        } else if self.reconnects == 0 {
            self.reconnects = 1;
            self.stage = Stage::Waiting(PublishAction::Reconnect);
            PublishAction::Reconnect
        } else {
            self.stage = Stage::Finished;
            PublishAction::ConnectionFailure
        }
    }

    /// Takes the outcome of the reconnect: on success the payload is sent once
    /// more, else the publish ends with a connection failure.
    pub fn on_reconnect(&mut self, ok: bool) -> (r: PublishAction)
        requires
            old(self).wf(),
            old(self).awaiting() == Some(PublishAction::Reconnect),
        ensures
            final(self).wf(),
            final(self).topic_view() == old(self).topic_view(),
            final(self).reconnect_count() == 1,
            r == (if ok { PublishAction::Send } else { PublishAction::ConnectionFailure }),
            final(self).awaiting() == (if ok { Some(PublishAction::Send) } else { None }),
    {
        if ok {
            self.stage = Stage::Waiting(PublishAction::Send);
            PublishAction::Send
        } else {
            self.stage = Stage::Finished;
            PublishAction::ConnectionFailure
        }
    }
}

/// What an inbound message yields: the events that report it, and the command
/// to hand to the dispatcher, if any.
pub struct Inbound {
    pub events: Vec<BrowserEvent>,
    pub command: Option<BrowserCommand>,
}

/// The settings and state of the broker connection.
pub struct EventSystem {
    pub broker_url: String,
    client_id: String,
    host: String,
    port: u16,
    connected: bool,
    subscriptions: Vec<String>,
}

impl EventSystem {
    /// The broker's address, with its scheme.
    pub closed spec fn url_view(&self) -> Seq<char> {
        self.broker_url@
    }

    pub closed spec fn client_id_view(&self) -> Seq<char> {
        self.client_id@
    }

    pub closed spec fn host_view(&self) -> Seq<char> {
        self.host@
    }

    pub closed spec fn port_view(&self) -> u16 {
        self.port
    }

    pub closed spec fn is_connected_view(&self) -> bool {
        self.connected
    }

    /// The extra topics subscribed to, besides the command topic.
    pub closed spec fn subscriptions_view(&self) -> Seq<Seq<char>> {
        self.subscriptions@.map_values(|s: String| s@)
    }

    /// Disconnected settings for the broker at `broker_url` (the scheme is added
    /// when missing), with host and port read from it, or the defaults where it
    /// gives none.
    pub fn new(broker_url: &str, client_id: &str) -> (r: Self)
        ensures
            r.url_view() == normalized_url(broker_url@),
            r.client_id_view() == client_id@,
            r.host_view() == (match url_host(normalized_url(broker_url@)) {
                Some(h) => h,
                None => DEFAULT_HOST@,
            }),
            r.port_view() == (match url_port(normalized_url(broker_url@)) {
                Some(p) => p,
                None => DEFAULT_PORT,
            }),
            !r.is_connected_view(),
            r.subscriptions_view() == Seq::<Seq<char>>::empty(),
    {
        let url = if starts_with(broker_url, SCHEME_PREFIX) {
            broker_url.to_owned()
        } else {
            let mut u = String::from_str(SCHEME_PREFIX);
            u.append(broker_url);
            u
        };
        let host = match parsed_host(url.as_str()) {
            Some(h) => h,
            None => DEFAULT_HOST.to_owned(),
        };
        let port = match parsed_port(url.as_str()) {
            Some(p) => p,
            None => DEFAULT_PORT,
        };
        let r = EventSystem {
            broker_url: url,
            client_id: client_id.to_owned(),
            host,
            port,
            connected: false,
            subscriptions: Vec::new(),
        };
        assert(r.subscriptions_view() =~= Seq::<Seq<char>>::empty());
        r
    }

    /// The client id given to the broker.
    pub fn client_id(&self) -> (r: &str)
        ensures
            r@ == self.client_id_view(),
    {
        self.client_id.as_str()
    }

    /// The broker's host.
    pub fn host(&self) -> (r: &str)
        ensures
            r@ == self.host_view(),
    {
        self.host.as_str()
    }

    /// The broker's port.
    pub fn port(&self) -> (r: u16)
        ensures
            r == self.port_view(),
    {
        self.port
    }

    /// The keep-alive interval, in seconds.
    pub fn keep_alive_secs(&self) -> (r: u64)
        ensures
            r == KEEP_ALIVE_SECS,
    {
        KEEP_ALIVE_SECS
    }

    /// Whether each session starts clean.
    pub fn clean_session(&self) -> (r: bool)
        ensures
            r,
    {
        true
    }

    /// Whether a session is established.
    pub fn is_connected(&self) -> (r: bool)
        ensures
            r == self.is_connected_view(),
    {
        self.connected
    }

    /// Records whether a session is established.
    pub fn set_connected(&mut self, connected: bool)
        ensures
            final(self).is_connected_view() == connected,
            final(self).url_view() == old(self).url_view(),
            final(self).client_id_view() == old(self).client_id_view(),
            final(self).host_view() == old(self).host_view(),
            final(self).port_view() == old(self).port_view(),
            final(self).subscriptions_view() == old(self).subscriptions_view(),
    {
        self.connected = connected;
    }

    /// Adds a subscription to `topic`; refused, with nothing changed, while not
    /// connected.
    pub fn subscribe(&mut self, topic: &str) -> (r: bool)
        ensures
            r == old(self).is_connected_view(),
            final(self).subscriptions_view() == (if r {
                old(self).subscriptions_view().push(topic@)
            } else {
                old(self).subscriptions_view()
            }),
            final(self).is_connected_view() == old(self).is_connected_view(),
            final(self).url_view() == old(self).url_view(),
            final(self).client_id_view() == old(self).client_id_view(),
            final(self).host_view() == old(self).host_view(),
            final(self).port_view() == old(self).port_view(),
    {
        if self.connected {
            self.subscriptions.push(topic.to_owned());
            assert(self.subscriptions_view() =~= old(self).subscriptions_view().push(topic@));
            true
        } else {
            false
        }
    }

    /// The topic on which `event` is published.
    pub fn get_topic(&self, event: &BrowserEvent) -> (r: &'static str)
        ensures
            r@ == topic_of(*event),
    {
        topic_for(event)
    }

    /// Begins publishing `event`: a send when connected, else a reconnect first.
    pub fn publish(&self, event: &BrowserEvent) -> (r: (PublishAttempt, PublishAction))
        ensures
            r.0.wf(),
            r.0.topic_view() == topic_of(*event),
            r.1 == (if self.is_connected_view() {
                PublishAction::Send
            } else {
                PublishAction::Reconnect
            }),
            r.0.awaiting() == Some(r.1),
            r.0.reconnect_count() == (if self.is_connected_view() { 0nat } else { 1nat }),
    {
        let topic = topic_for(event);
        if self.connected {
            (PublishAttempt { topic, stage: Stage::Waiting(PublishAction::Send), reconnects: 0 }, PublishAction::Send)
        } else {
            (PublishAttempt { topic, stage: Stage::Waiting(PublishAction::Reconnect), reconnects: 1 }, PublishAction::Reconnect)
        }
    }

    /// What a message on `topic` with text `payload` yields, given what the
    /// payload parsed to. Off the command topic: nothing. On it: a
    /// `CommandReceived` echo and the command to hand on; a payload that did not
    /// parse adds an `Error` and an unsuccessful `CommandExecuted` instead.
    pub fn handle_incoming_message(
        &self,
        topic: &str,
        payload: &str,
        parsed: Option<BrowserCommand>,
    ) -> (r: Inbound)
        ensures
            !(topic@ == COMMAND_TOPIC@) ==> r.events@ == Seq::<BrowserEvent>::empty()
                && r.command is None,
            topic@ == COMMAND_TOPIC@ ==> r.command == parsed && reports_inbound(r.events@, payload@, parsed is Some),
    {
        if !same_text(topic, COMMAND_TOPIC) {
            let r = Inbound { events: Vec::new(), command: None };
            assert(r.events@ =~= Seq::<BrowserEvent>::empty());
            return r;
        }
        let mut events: Vec<BrowserEvent> = Vec::new();
        events.push(BrowserEvent::CommandReceived { command: payload.to_owned() });
        if parsed.is_none() {
            let mut message = String::from_str("Invalid command format: ");
            message.append(payload);
            events.push(BrowserEvent::Error { message });
            events.push(BrowserEvent::CommandExecuted { command: payload.to_owned(), success: false });
        }
        Inbound { events, command: parsed }
    }

    /// What is reported once the command parsed from `payload` was handed on:
    /// success, or the error `send_error` and an unsuccessful `CommandExecuted`.
    pub fn delivery_events(&self, payload: &str, send_error: Option<&str>) -> (r: Vec<BrowserEvent>)
        ensures
            reports_delivery(
                r@,
                payload@,
                match send_error {
                    Some(e) => Some(e@),
                    None => None,
                },
            ),
    {
        let mut events: Vec<BrowserEvent> = Vec::new();
        match send_error {
            None => {
                events.push(BrowserEvent::CommandExecuted { command: payload.to_owned(), success: true });
            },
            Some(e) => {
                let mut message = String::from_str("Failed to send command: ");
                message.append(e);
                events.push(BrowserEvent::Error { message });
                events.push(BrowserEvent::CommandExecuted { command: payload.to_owned(), success: false });
            },
        }
        events
    }
}

/// Whether `e` carries the given texts: a command echo of `c`, or an error
/// message `m`.
pub open spec fn is_received(e: BrowserEvent, c: Seq<char>) -> bool {
    e matches BrowserEvent::CommandReceived { command } && command@ == c
}

pub open spec fn is_error(e: BrowserEvent, m: Seq<char>) -> bool {
    e matches BrowserEvent::Error { message } && message@ == m
}

pub open spec fn is_executed(e: BrowserEvent, c: Seq<char>, ok: bool) -> bool {
    e matches BrowserEvent::CommandExecuted { command, success } && command@ == c && success == ok
}

/// `events` report a message with text `payload` on the command topic: the echo,
/// and when it did not parse, an error and an unsuccessful `CommandExecuted`.
pub open spec fn reports_inbound(events: Seq<BrowserEvent>, payload: Seq<char>, parsed: bool) -> bool {
    if parsed {
        events.len() == 1 && is_received(events[0], payload)
    } else {
        &&& events.len() == 3
        &&& is_received(events[0], payload)
        &&& is_error(events[1], "Invalid command format: "@ + payload)
        &&& is_executed(events[2], payload, false)
    }
}

/// `events` report how handing on the command of `payload` went: success, or the
/// error text `send_error` and an unsuccessful `CommandExecuted`.
pub open spec fn reports_delivery(
    events: Seq<BrowserEvent>,
    payload: Seq<char>,
    send_error: Option<Seq<char>>,
) -> bool {
    match send_error {
        None => events.len() == 1 && is_executed(events[0], payload, true),
        Some(e) => {
            &&& events.len() == 2
            &&& is_error(events[0], "Failed to send command: "@ + e)
            &&& is_executed(events[1], payload, false)
        },
    }
}

} // verus!
