//! Domain events and commands.
use vstd::prelude::*;

verus! {

/// Something that already happened to browser state.
#[derive(Debug, Clone, PartialEq, Eq)]
pub enum BrowserEvent {
    Navigation { url: String },
    PageLoaded { url: String },
    TitleChanged { title: String },
    TabCreated { id: usize, url: String },
    TabClosed { id: usize },
    TabActivated { id: usize },
    TabUrlChanged { id: usize, url: String },
    TabTitleChanged { id: usize, title: String },
    Error { message: String },
    CommandReceived { command: String },
    CommandExecuted { command: String, success: bool },
}

/// A request to change browser state.
#[derive(Debug, Clone, PartialEq, Eq)]
pub enum BrowserCommand {
    Navigate { url: String },
    CreateTab { url: String },
    CloseTab { id: usize },
    SwitchTab { id: usize },
    RecordEvent { event: BrowserEvent },
    PlayEvent { event: BrowserEvent },
}

/// The broker topic on which events of each kind are published.
pub open spec fn topic_of(e: BrowserEvent) -> Seq<char> {
    match e {
        BrowserEvent::Navigation { .. } => "browser/navigation"@,
        BrowserEvent::PageLoaded { .. } => "browser/page/loaded"@,
        BrowserEvent::TitleChanged { .. } => "browser/page/title"@,
        BrowserEvent::TabCreated { .. } => "browser/tabs/created"@,
        BrowserEvent::TabClosed { .. } => "browser/tabs/closed"@,
        BrowserEvent::TabActivated { .. } => "browser/tabs/activated"@,
        BrowserEvent::TabUrlChanged { .. } => "browser/tabs/url"@,
        BrowserEvent::TabTitleChanged { .. } => "browser/tabs/title"@,
        BrowserEvent::Error { .. } => "browser/error"@,
        BrowserEvent::CommandReceived { .. } => "browser/command/received"@,
        BrowserEvent::CommandExecuted { .. } => "browser/command/executed"@,
    }
}

impl BrowserEvent {
    /// An equal copy of this event.
    pub fn duplicate(&self) -> (r: Self)
        ensures
            r == *self,
    {
        match self {
            BrowserEvent::Navigation { url } => BrowserEvent::Navigation { url: url.clone() },
            BrowserEvent::PageLoaded { url } => BrowserEvent::PageLoaded { url: url.clone() },
            BrowserEvent::TitleChanged { title } => BrowserEvent::TitleChanged { title: title.clone() },
            BrowserEvent::TabCreated { id, url } => BrowserEvent::TabCreated { id: *id, url: url.clone() },
            BrowserEvent::TabClosed { id } => BrowserEvent::TabClosed { id: *id },
            BrowserEvent::TabActivated { id } => BrowserEvent::TabActivated { id: *id },
            BrowserEvent::TabUrlChanged { id, url } => BrowserEvent::TabUrlChanged { id: *id, url: url.clone() },
            BrowserEvent::TabTitleChanged { id, title } => BrowserEvent::TabTitleChanged { id: *id, title: title.clone() },
            BrowserEvent::Error { message } => BrowserEvent::Error { message: message.clone() },
            BrowserEvent::CommandReceived { command } => BrowserEvent::CommandReceived { command: command.clone() },
            BrowserEvent::CommandExecuted { command, success } => BrowserEvent::CommandExecuted {
                command: command.clone(),
                success: *success,
            },
        }
    }
}

/// An event together with the time, in milliseconds, at which it arrived.
#[derive(Debug, Clone, PartialEq, Eq)]
pub struct EventEntry {
    pub timestamp: u64,
    pub event: BrowserEvent,
}

impl EventEntry {
    /// An equal copy of this entry.
    pub fn duplicate(&self) -> (r: Self)
        ensures
            r == *self,
    {
        EventEntry { timestamp: self.timestamp, event: self.event.duplicate() }
    }
}

/// What an event records, as plain values.
pub enum EventView {
    Navigation { url: Seq<char> },
    PageLoaded { url: Seq<char> },
    TitleChanged { title: Seq<char> },
    TabCreated { id: usize, url: Seq<char> },
    TabClosed { id: usize },
    TabActivated { id: usize },
    TabUrlChanged { id: usize, url: Seq<char> },
    TabTitleChanged { id: usize, title: Seq<char> },
    Error { message: Seq<char> },
    CommandReceived { command: Seq<char> },
    CommandExecuted { command: Seq<char>, success: bool },
}

impl View for BrowserEvent {
    type V = EventView;

    open spec fn view(&self) -> EventView {
        match self {
            BrowserEvent::Navigation { url } => EventView::Navigation { url: url@ },
            BrowserEvent::PageLoaded { url } => EventView::PageLoaded { url: url@ },
            BrowserEvent::TitleChanged { title } => EventView::TitleChanged { title: title@ },
            BrowserEvent::TabCreated { id, url } => EventView::TabCreated { id: *id, url: url@ },
            BrowserEvent::TabClosed { id } => EventView::TabClosed { id: *id },
            BrowserEvent::TabActivated { id } => EventView::TabActivated { id: *id },
            BrowserEvent::TabUrlChanged { id, url } => EventView::TabUrlChanged { id: *id, url: url@ },
            BrowserEvent::TabTitleChanged { id, title } => EventView::TabTitleChanged { id: *id, title: title@ },
            BrowserEvent::Error { message } => EventView::Error { message: message@ },
            BrowserEvent::CommandReceived { command } => EventView::CommandReceived { command: command@ },
            BrowserEvent::CommandExecuted { command, success } => EventView::CommandExecuted {
                command: command@,
                success: *success,
            },
        }
    }
}

/// A recorded entry, as plain values.
pub struct EntryView {
    pub timestamp: u64,
    pub event: EventView,
}

impl View for EventEntry {
    type V = EntryView;

    open spec fn view(&self) -> EntryView {
        EntryView { timestamp: self.timestamp, event: self.event@ }
    }
}

/// The topic for an event's kind.
pub fn topic_for(e: &BrowserEvent) -> (r: &'static str)
    ensures
        r@ == topic_of(*e),
{
    match e {
        BrowserEvent::Navigation { .. } => "browser/navigation",
        BrowserEvent::PageLoaded { .. } => "browser/page/loaded",
        BrowserEvent::TitleChanged { .. } => "browser/page/title",
        BrowserEvent::TabCreated { .. } => "browser/tabs/created",
        BrowserEvent::TabClosed { .. } => "browser/tabs/closed",
        BrowserEvent::TabActivated { .. } => "browser/tabs/activated",
        BrowserEvent::TabUrlChanged { .. } => "browser/tabs/url",
        BrowserEvent::TabTitleChanged { .. } => "browser/tabs/title",
        BrowserEvent::Error { .. } => "browser/error",
        BrowserEvent::CommandReceived { .. } => "browser/command/received",
        BrowserEvent::CommandExecuted { .. } => "browser/command/executed",
    }
}

} // verus!
