//! The dispatcher: the single writer of tab state. Each command becomes changes
//! to the tabs and a run of effects; every published event also goes to the
//! recent-events log and, while recording, to the recorder.
use vstd::prelude::*;
pub use crate::event::BrowserCommand;
use crate::event::{BrowserEvent, EntryView, EventEntry, EventView};
use crate::event_log::{keep_last, EventViewer};
use crate::replay::{EventPlayer, EventRecorder};
use crate::tabs::{fallback_active, has_id, TabManager, TabView};

verus! {

/// The url of the tab that a session starts with.
pub const BLANK_PAGE: &'static str = "about:blank";

/// What the dispatcher asks the outside world to do, in order.
#[derive(Debug, Clone, PartialEq, Eq)]
pub enum Effect {
    /// Publish the event to the broker.
    Publish { event: BrowserEvent },
    /// Have the content renderer load the url.
    LoadUrl { url: String },
}

/// An effect, as plain values.
pub enum EffectView {
    Publish(EventView),
    LoadUrl(Seq<char>),
}

impl View for Effect {
    type V = EffectView;

    open spec fn view(&self) -> EffectView {
        match self {
            Effect::Publish { event } => EffectView::Publish(event@),
            Effect::LoadUrl { url } => EffectView::LoadUrl(url@),
        }
    }
}

/// What the content renderer reports back.
#[derive(Debug, Clone, PartialEq, Eq)]
pub enum ContentNotice {
    PageLoaded { url: String },
    TitleChanged { title: String },
    Navigated { url: String },
}

/// The events among `effects`, in order.
pub open spec fn published(effects: Seq<EffectView>) -> Seq<EventView>
    decreases effects.len(),
{
    if effects.len() == 0 {
        Seq::empty()
    } else {
        let init = published(effects.drop_last());
        match effects.last() {
            EffectView::Publish(e) => init.push(e),
            EffectView::LoadUrl(_) => init,
        }
    }
}

/// `events`, each stamped with `now`.
pub open spec fn stamped(events: Seq<EventView>, now: u64) -> Seq<EntryView> {
    events.map_values(|e: EventView| EntryView { timestamp: now, event: e })
}

pub open spec fn entry_views(s: Seq<EventEntry>) -> Seq<EntryView> {
    s.map_values(|e: EventEntry| e@)
}

proof fn lemma_published_concat(x: Seq<EffectView>, y: Seq<EffectView>)
    ensures
        published(x + y) == published(x) + published(y),
    decreases y.len(),
{
    if y.len() == 0 {
        assert(x + y =~= x);
        assert(published(y) =~= Seq::<EventView>::empty());
        assert(published(x) + published(y) =~= published(x));
    } else {
        lemma_published_concat(x, y.drop_last());
        assert((x + y).drop_last() =~= x + y.drop_last());
        assert((x + y).last() == y.last());
        match y.last() {
            EffectView::Publish(e) => {
                assert(published(x) + published(y.drop_last()).push(e) =~= (published(x)
                    + published(y.drop_last())).push(e));
            },
            EffectView::LoadUrl(_) => {},
        }
    }
}

proof fn lemma_keep_last_concat<A>(s: Seq<A>, t: Seq<A>, u: Seq<A>, n: nat)
    requires
        n > 0,
    ensures
        keep_last(keep_last(s + t, n) + u, n) == keep_last(s + t + u, n),
{
    let st = s + t;
    let k = keep_last(st, n);
    if st.len() > n {
        let lhs = keep_last(k + u, n);
        let rhs = keep_last(st + u, n);
        assert(k.len() == n);
        assert forall|j: int| 0 <= j < n implies #[trigger] lhs[j] == rhs[j] by {
            if u.len() + j < n {
                assert(lhs[j] == k[u.len() + j]);
                assert(k[u.len() + j] == st[st.len() - n + u.len() + j]);
            } else {
                assert(lhs[j] == u[u.len() + j - n]);
                assert(rhs[j] == (st + u)[st.len() + u.len() - n + j]);
            }
        }
        assert(lhs =~= rhs);
    }
    assert(st + u =~= s + t + u);
}

/// Holds the tabs, the recent-events log, the recorder, the player and the
/// effects not yet taken.
pub struct BrowserEngine {
    headless: bool,
    tabs: TabManager,
    viewer: EventViewer,
    recorder: EventRecorder,
    player: EventPlayer,
    outbox: Vec<Effect>,
}

impl BrowserEngine {
    pub closed spec fn tab_state(&self) -> TabManager {
        self.tabs
    }

    pub closed spec fn viewer_state(&self) -> EventViewer {
        self.viewer
    }

    pub closed spec fn recorder_state(&self) -> EventRecorder {
        self.recorder
    }

    pub closed spec fn player_state(&self) -> EventPlayer {
        self.player
    }

    pub closed spec fn is_headless(&self) -> bool {
        self.headless
    }

    /// The effects not yet taken, oldest first.
    pub closed spec fn outbox_view(&self) -> Seq<EffectView> {
        self.outbox@.map_values(|e: Effect| e@)
    }

    pub open spec fn wf(&self) -> bool {
        &&& self.tab_state().wf()
        &&& self.viewer_state().wf()
        &&& self.player_state().wf()
    }

    /// `self` is `old` after the effects `added` went out at `now`: they are
    /// queued, and their events are logged and, while recording, recorded.
    pub open spec fn fans_out(&self, old: &BrowserEngine, added: Seq<EffectView>, now: u64) -> bool {
        &&& self.outbox_view() == old.outbox_view() + added
        &&& self.viewer_state().cap() == old.viewer_state().cap()
        &&& entry_views(self.viewer_state().entries_view()) == keep_last(
            entry_views(old.viewer_state().entries_view()) + stamped(published(added), now),
            old.viewer_state().cap(),
        )
        &&& self.recorder_state().is_on() == old.recorder_state().is_on()
        &&& self.recorder_state().path() == old.recorder_state().path()
        &&& entry_views(self.recorder_state().entries_view()) == entry_views(
            old.recorder_state().entries_view(),
        ) + (if old.recorder_state().is_on() {
            stamped(published(added), now)
        } else {
            Seq::empty()
        })
        &&& self.player_state() == old.player_state()
        &&& self.is_headless() == old.is_headless()
    }

    proof fn lemma_fans_out_none(&self)
        requires
            self.wf(),
        ensures
            self.fans_out(self, Seq::empty(), 0),
            forall|now: u64| #[trigger] self.fans_out(self, Seq::empty(), now),
    {
        assert forall|now: u64| #[trigger] self.fans_out(self, Seq::empty(), now) by {
            let s = entry_views(self.viewer_state().entries_view());
            assert(stamped(published(Seq::<EffectView>::empty()), now) =~= Seq::<EntryView>::empty());
            assert(s + Seq::<EntryView>::empty() =~= s);
            assert(self.outbox_view() + Seq::<EffectView>::empty() =~= self.outbox_view());
            let r = entry_views(self.recorder_state().entries_view());
            assert(r + Seq::<EntryView>::empty() =~= r);
        }
    }

    proof fn lemma_fans_out_trans(
        a: &BrowserEngine,
        b: &BrowserEngine,
        c: &BrowserEngine,
        x: Seq<EffectView>,
        y: Seq<EffectView>,
        now: u64,
    )
        requires
            a.wf(),
            b.fans_out(a, x, now),
            c.fans_out(b, y, now),
        ensures
            c.fans_out(a, x + y, now),
    {
        lemma_published_concat(x, y);
        let px = stamped(published(x), now);
        let py = stamped(published(y), now);
        assert(stamped(published(x + y), now) =~= px + py);
        let s = entry_views(a.viewer_state().entries_view());
        lemma_keep_last_concat(s, px, py, a.viewer_state().cap());
        assert(s + (px + py) =~= s + px + py);
        assert(a.outbox_view() + x + y =~= a.outbox_view() + (x + y));
        let r = entry_views(a.recorder_state().entries_view());
        if a.recorder_state().is_on() {
            assert(r + px + py =~= r + (px + py));
        } else {
            assert(r + Seq::<EntryView>::empty() + Seq::<EntryView>::empty() =~= r + Seq::<EntryView>::empty());
        }
    }

    /// A fresh engine with no tabs, an empty log, a stopped recorder and player,
    /// and nothing queued.
    pub fn new(headless: bool) -> (r: Self)
        ensures
            r.wf(),
            r.is_headless() == headless,
            r.tab_state().tabs_view() == Seq::<TabView>::empty(),
            r.tab_state().active() == None::<usize>,
            r.tab_state().next() == 0,
            r.viewer_state().entries_view() == Seq::<EventEntry>::empty(),
            r.recorder_state().entries_view() == Seq::<EventEntry>::empty(),
            !r.recorder_state().is_on(),
            r.player_state().entries_view() == Seq::<EventEntry>::empty(),
            !r.player_state().is_on(),
            r.outbox_view() == Seq::<EffectView>::empty(),
    {
        let r = BrowserEngine {
            headless,
            tabs: TabManager::new(),
            viewer: EventViewer::new(),
            recorder: EventRecorder::new(),
            player: EventPlayer::new(),
            outbox: Vec::new(),
        };
        assert(r.outbox_view() =~= Seq::<EffectView>::empty());
        r
    }

    /// Publishes `event`: logs it, records it while recording, and queues it.
    fn emit(&mut self, event: BrowserEvent, now: u64)
        requires
            old(self).wf(),
        ensures
            final(self).wf(),
            final(self).tab_state() == old(self).tab_state(),
            final(self).fans_out(old(self), seq![EffectView::Publish(event@)], now),
    {
        let ghost ev = event@;
        let ghost s0 = entry_views(self.viewer.entries_view());
        let ghost r0 = entry_views(self.recorder.entries_view());
        self.viewer.add_event(event.duplicate(), now);
        self.recorder.record_event(event.duplicate(), now);
        self.outbox.push(Effect::Publish { event });
        proof {
            let added = seq![EffectView::Publish(ev)];
            assert(added.drop_last() =~= Seq::<EffectView>::empty());
            reveal_with_fuel(published, 2);
            assert(published(added) =~= seq![ev]);
            let st = stamped(published(added), now);
            assert(st =~= seq![EntryView { timestamp: now, event: ev }]);
            let pushed = old(self).viewer.entries_view().push(EventEntry { timestamp: now, event });
            assert(entry_views(pushed) =~= s0 + st);
            let cap = old(self).viewer.cap();
            if pushed.len() > cap {
                assert(entry_views(keep_last(pushed, cap)) =~= keep_last(entry_views(pushed), cap));
            }
            assert(entry_views(self.viewer.entries_view()) == keep_last(s0 + st, cap));
            if old(self).recorder.is_on() {
                assert(entry_views(self.recorder.entries_view()) =~= r0 + st);
            } else {
                assert(r0 + Seq::<EntryView>::empty() =~= r0);
            }
            assert(self.outbox_view() =~= old(self).outbox_view() + added);
        }
    }

    /// Asks the renderer to load `url`.
    fn load(&mut self, url: &str, now: u64)
        requires
            old(self).wf(),
        ensures
            final(self).wf(),
            final(self).tab_state() == old(self).tab_state(),
            final(self).fans_out(old(self), seq![EffectView::LoadUrl(url@)], now),
    {
        self.outbox.push(Effect::LoadUrl { url: url.to_owned() });
        proof {
            let added = seq![EffectView::LoadUrl(url@)];
            assert(added.drop_last() =~= Seq::<EffectView>::empty());
            reveal_with_fuel(published, 2);
            assert(published(added) =~= Seq::<EventView>::empty());
            assert(stamped(published(added), now) =~= Seq::<EntryView>::empty());
            let s0 = entry_views(self.viewer.entries_view());
            assert(s0 + Seq::<EntryView>::empty() =~= s0);
            let r0 = entry_views(self.recorder.entries_view());
            assert(r0 + Seq::<EntryView>::empty() =~= r0);
            assert(self.outbox_view() =~= old(self).outbox_view() + added);
        }
    }
}


/// Tab state and engine parts other than the fan-out are as they were.
pub open spec fn tabs_kept(new: &BrowserEngine, old: &BrowserEngine) -> bool {
    new.tab_state() == old.tab_state()
}

/// `new` is `old` after navigating the active tab to `url`: its url is set and
/// `TabUrlChanged` published, the renderer loads `url`, and `Navigation` is
/// published. With no active tab only the last two happen.
pub open spec fn navigated(new: &BrowserEngine, old: &BrowserEngine, url: Seq<char>, now: u64) -> bool {
    &&& new.tab_state().active() == old.tab_state().active()
    &&& new.tab_state().next() == old.tab_state().next()
    &&& match old.tab_state().active() {
        None => new.tab_state().tabs_view() == old.tab_state().tabs_view() && new.fans_out(
            old,
            seq![EffectView::LoadUrl(url), EffectView::Publish(EventView::Navigation { url })],
            now,
        ),
        Some(a) => (exists|p: int|
            0 <= p < old.tab_state().tabs_view().len() && old.tab_state().tabs_view()[p].id == a
                && new.tab_state().tabs_view() == old.tab_state().tabs_view().update(
                    p,
                    TabView { id: a, url, title: old.tab_state().tabs_view()[p].title },
                )) && new.fans_out(
            old,
            seq![
                EffectView::Publish(EventView::TabUrlChanged { id: a, url }),
                EffectView::LoadUrl(url),
                EffectView::Publish(EventView::Navigation { url }),
            ],
            now,
        ),
    }
}

/// `new` is `old` after creating a tab for `url` under id `id`, which is
/// announced with `TabCreated`.
pub open spec fn created(new: &BrowserEngine, old: &BrowserEngine, url: Seq<char>, id: usize, now: u64) -> bool {
    &&& id == old.tab_state().next()
    &&& new.tab_state().next() == id + 1
    &&& new.tab_state().tabs_view() == old.tab_state().tabs_view().push(
        TabView { id, url, title: Seq::<char>::empty() },
    )
    &&& new.tab_state().active() == old.tab_state().active()
    &&& new.fans_out(old, seq![EffectView::Publish(EventView::TabCreated { id, url })], now)
}

/// `new` is `old` after closing tab `id`; `r` says whether it was there. Only a
/// removal is announced, with `TabClosed`.
pub open spec fn closed(new: &BrowserEngine, old: &BrowserEngine, id: usize, r: bool, now: u64) -> bool {
    &&& r == has_id(old.tab_state().tabs_view(), id)
    &&& new.tab_state().next() == old.tab_state().next()
    &&& !r ==> tabs_kept(new, old) && new.fans_out(old, Seq::empty(), now)
    &&& r ==> (exists|p: int|
        0 <= p < old.tab_state().tabs_view().len() && old.tab_state().tabs_view()[p].id == id
            && new.tab_state().tabs_view() == old.tab_state().tabs_view().remove(p)
            && new.tab_state().active() == (if old.tab_state().active() == Some(id) {
                fallback_active(old.tab_state().tabs_view(), p)
            } else {
                old.tab_state().active()
            })) && new.fans_out(old, seq![EffectView::Publish(EventView::TabClosed { id })], now)
}

/// `new` is `old` after switching to tab `id`; `r` says whether it was there.
/// Only a switch is announced, with `TabActivated`, and the renderer then loads
/// the tab's url.
pub open spec fn switched(new: &BrowserEngine, old: &BrowserEngine, id: usize, r: bool, now: u64) -> bool {
    &&& r == has_id(old.tab_state().tabs_view(), id)
    &&& new.tab_state().tabs_view() == old.tab_state().tabs_view()
    &&& new.tab_state().next() == old.tab_state().next()
    &&& !r ==> tabs_kept(new, old) && new.fans_out(old, Seq::empty(), now)
    &&& r ==> new.tab_state().active() == Some(id) && exists|p: int|
        0 <= p < old.tab_state().tabs_view().len() && old.tab_state().tabs_view()[p].id == id
            && new.fans_out(
            old,
            seq![
                EffectView::Publish(EventView::TabActivated { id }),
                EffectView::LoadUrl(old.tab_state().tabs_view()[p].url),
            ],
            now,
        )
}

/// `new` is `old` after handing `event` straight to the recorder.
pub open spec fn recorded(new: &BrowserEngine, old: &BrowserEngine, event: EventView, now: u64) -> bool {
    &&& tabs_kept(new, old)
    &&& new.outbox_view() == old.outbox_view()
    &&& new.viewer_state() == old.viewer_state()
    &&& new.player_state() == old.player_state()
    &&& new.is_headless() == old.is_headless()
    &&& new.recorder_state().is_on() == old.recorder_state().is_on()
    &&& new.recorder_state().path() == old.recorder_state().path()
    &&& entry_views(new.recorder_state().entries_view()) == entry_views(old.recorder_state().entries_view())
        + (if old.recorder_state().is_on() {
        seq![EntryView { timestamp: now, event }]
    } else {
        Seq::empty()
    })
}

/// `new` is `old` after `cmd` was carried out at `now` with result `r`.
pub open spec fn command_done(new: &BrowserEngine, old: &BrowserEngine, cmd: BrowserCommand, r: bool, now: u64) -> bool {
    match cmd {
        BrowserCommand::Navigate { url } => r && navigated(new, old, url@, now),
        BrowserCommand::CreateTab { url } => r && created(new, old, url@, old.tab_state().next(), now),
        BrowserCommand::CloseTab { id } => closed(new, old, id, r, now),
        BrowserCommand::SwitchTab { id } => switched(new, old, id, r, now),
        BrowserCommand::RecordEvent { event } => r && recorded(new, old, event@, now),
        BrowserCommand::PlayEvent { event } => match event {
            BrowserEvent::Navigation { url } => r && navigated(new, old, url@, now),
            BrowserEvent::TabCreated { url, .. } => r && created(new, old, url@, old.tab_state().next(), now),
            BrowserEvent::TabClosed { id } => closed(new, old, id, r, now),
            BrowserEvent::TabActivated { id } => switched(new, old, id, r, now),
            _ => r && tabs_kept(new, old) && new.fans_out(old, seq![EffectView::Publish(event@)], now),
        },
    }
}

impl BrowserEngine {
    /// Navigates the active tab to `url`.
    pub fn navigate(&mut self, url: &str, now: u64)
        requires
            old(self).wf(),
        ensures
            final(self).wf(),
            navigated(final(self), old(self), url@, now),
    {
        let ghost s0 = *self;
        match self.tabs.set_active_url(url) {
            Some(id) => {
                let ghost s1 = *self;
                proof { s0.lemma_fans_out_none(); }
                self.emit(BrowserEvent::TabUrlChanged { id, url: url.to_owned() }, now);
                let ghost s2 = *self;
                self.load(url, now);
                let ghost s3 = *self;
                self.emit(BrowserEvent::Navigation { url: url.to_owned() }, now);
                proof {
                    let e1 = seq![EffectView::Publish(EventView::TabUrlChanged { id, url: url@ })];
                    let e2 = seq![EffectView::LoadUrl(url@)];
                    let e3 = seq![EffectView::Publish(EventView::Navigation { url: url@ })];
                    assert(s2.fans_out(&s0, e1, now));
                    Self::lemma_fans_out_trans(&s0, &s2, &s3, e1, e2, now);
                    Self::lemma_fans_out_trans(&s0, &s3, self, e1 + e2, e3, now);
                    assert(e1 + e2 + e3 =~= seq![
                        EffectView::Publish(EventView::TabUrlChanged { id, url: url@ }),
                        EffectView::LoadUrl(url@),
                        EffectView::Publish(EventView::Navigation { url: url@ }),
                    ]);
                }
            },
            None => {
                let ghost s1 = *self;
                self.load(url, now);
                let ghost s2 = *self;
                self.emit(BrowserEvent::Navigation { url: url.to_owned() }, now);
                proof {
                    let e1 = seq![EffectView::LoadUrl(url@)];
                    let e2 = seq![EffectView::Publish(EventView::Navigation { url: url@ })];
                    Self::lemma_fans_out_trans(&s0, &s2, self, e1, e2, now);
                    assert(e1 + e2 =~= seq![
                        EffectView::LoadUrl(url@),
                        EffectView::Publish(EventView::Navigation { url: url@ }),
                    ]);
                }
            },
        }
    }

    /// Creates a tab for `url` and announces it; returns its id.
    pub fn create_tab(&mut self, url: &str, now: u64) -> (id: usize)
        requires
            old(self).wf(),
            old(self).tab_state().next() < usize::MAX,
        ensures
            final(self).wf(),
            created(final(self), old(self), url@, id, now),
    {
        let id = self.tabs.create_tab(url);
        self.emit(BrowserEvent::TabCreated { id, url: url.to_owned() }, now);
        id
    }

    /// Closes tab `id` and announces it; returns false, changing nothing, when
    /// there is no such tab.
    pub fn close_tab(&mut self, id: usize, now: u64) -> (r: bool)
        requires
            old(self).wf(),
        ensures
            final(self).wf(),
            closed(final(self), old(self), id, r, now),
    {
        if self.tabs.close_tab(id) {
            self.emit(BrowserEvent::TabClosed { id }, now);
            true
        } else {
            proof { self.lemma_fans_out_none(); }
            false
        }
    }

    /// Makes tab `id` active, announces it and has its url loaded; returns false,
    /// changing nothing, when there is no such tab.
    pub fn switch_to_tab(&mut self, id: usize, now: u64) -> (r: bool)
        requires
            old(self).wf(),
        ensures
            final(self).wf(),
            switched(final(self), old(self), id, r, now),
    {
        let ghost s0 = *self;
        if !self.tabs.switch_to_tab(id) {
            proof { self.lemma_fans_out_none(); }
            return false;
        }
        let url = match self.tabs.get_active_tab() {
            Some(t) => {
                let u = t.url.clone();
                proof {
                    let i = choose|i: int|
                        0 <= i < self.tabs.tabs_view().len() && #[trigger] self.tabs.tabs_view()[i] == t@;
                    assert(self.tabs.tabs_view()[i].id == id && self.tabs.tabs_view()[i].url == u@);
                }
                u
            },
            None => String::new(),
        };
        assert(exists|i: int|
            0 <= i < self.tabs.tabs_view().len() && #[trigger] self.tabs.tabs_view()[i].id == id
                && self.tabs.tabs_view()[i].url == url@);
        let ghost p = choose|i: int|
            0 <= i < self.tabs.tabs_view().len() && #[trigger] self.tabs.tabs_view()[i].id == id
                && self.tabs.tabs_view()[i].url == url@;
        let ghost s1 = *self;
        self.emit(BrowserEvent::TabActivated { id }, now);
        let ghost s2 = *self;
        self.load(url.as_str(), now);
        proof {
            let e1 = seq![EffectView::Publish(EventView::TabActivated { id })];
            let e2 = seq![EffectView::LoadUrl(url@)];
            assert(s1.fans_out(&s0, Seq::empty(), now)) by {
                s0.lemma_fans_out_none();
            }
            Self::lemma_fans_out_trans(&s0, &s2, self, e1, e2, now);
            assert(e1 + e2 =~= seq![
                EffectView::Publish(EventView::TabActivated { id }),
                EffectView::LoadUrl(s0.tab_state().tabs_view()[p].url),
            ]);
        }
        true
    }

    /// Carries out `command`; returns false only for a close or switch of a tab
    /// that is not there.
    pub fn handle_command(&mut self, command: BrowserCommand, now: u64) -> (r: bool)
        requires
            old(self).wf(),
            old(self).tab_state().next() < usize::MAX,
        ensures
            final(self).wf(),
            command_done(final(self), old(self), command, r, now),
    {
        match command {
            BrowserCommand::Navigate { url } => {
                self.navigate(url.as_str(), now);
                true
            },
            BrowserCommand::CreateTab { url } => {
                self.create_tab(url.as_str(), now);
                true
            },
            BrowserCommand::CloseTab { id } => self.close_tab(id, now),
            BrowserCommand::SwitchTab { id } => self.switch_to_tab(id, now),
            BrowserCommand::RecordEvent { event } => {
                let ghost ev = event@;
                self.recorder.record_event(event, now);
                proof {
                    let r0 = entry_views(old(self).recorder.entries_view());
                    if old(self).recorder.is_on() {
                        assert(entry_views(self.recorder.entries_view()) =~= r0 + seq![
                            EntryView { timestamp: now, event: ev },
                        ]);
                    } else {
                        assert(r0 + Seq::<EntryView>::empty() =~= r0);
                    }
                }
                true
            },
            BrowserCommand::PlayEvent { event } => match event {
                BrowserEvent::Navigation { url } => {
                    self.navigate(url.as_str(), now);
                    true
                },
                BrowserEvent::TabCreated { url, .. } => {
                    self.create_tab(url.as_str(), now);
                    true
                },
                BrowserEvent::TabClosed { id } => self.close_tab(id, now),
                BrowserEvent::TabActivated { id } => self.switch_to_tab(id, now),
                other => {
                    self.emit(other, now);
                    true
                },
            },
        }
    }

    /// Takes a report of the content renderer: a loaded page is announced; a new
    /// title or an in-page navigation is set on the active tab and announced for
    /// it, then announced in general.
    pub fn handle_ipc_message(&mut self, notice: ContentNotice, now: u64)
        requires
            old(self).wf(),
        ensures
            final(self).wf(),
            final(self).tab_state().active() == old(self).tab_state().active(),
            final(self).tab_state().next() == old(self).tab_state().next(),
            notice matches ContentNotice::PageLoaded { url } ==> tabs_kept(final(self), old(self))
                && final(self).fans_out(old(self), seq![EffectView::Publish(EventView::PageLoaded { url: url@ })], now),
            notice matches ContentNotice::TitleChanged { title } ==> match old(self).tab_state().active() {
                None => final(self).tab_state().tabs_view() == old(self).tab_state().tabs_view()
                    && final(self).fans_out(old(self), seq![EffectView::Publish(EventView::TitleChanged { title: title@ })], now),
                Some(a) => (exists|p: int|
                    0 <= p < old(self).tab_state().tabs_view().len() && old(self).tab_state().tabs_view()[p].id == a
                        && final(self).tab_state().tabs_view() == old(self).tab_state().tabs_view().update(
                            p,
                            TabView { id: a, url: old(self).tab_state().tabs_view()[p].url, title: title@ },
                        )) && final(self).fans_out(
                    old(self),
                    seq![
                        EffectView::Publish(EventView::TabTitleChanged { id: a, title: title@ }),
                        EffectView::Publish(EventView::TitleChanged { title: title@ }),
                    ],
                    now,
                ),
            },
            notice matches ContentNotice::Navigated { url } ==> match old(self).tab_state().active() {
                None => final(self).tab_state().tabs_view() == old(self).tab_state().tabs_view()
                    && final(self).fans_out(old(self), seq![EffectView::Publish(EventView::Navigation { url: url@ })], now),
                Some(a) => (exists|p: int|
                    0 <= p < old(self).tab_state().tabs_view().len() && old(self).tab_state().tabs_view()[p].id == a
                        && final(self).tab_state().tabs_view() == old(self).tab_state().tabs_view().update(
                            p,
                            TabView { id: a, url: url@, title: old(self).tab_state().tabs_view()[p].title },
                        )) && final(self).fans_out(
                    old(self),
                    seq![
                        EffectView::Publish(EventView::TabUrlChanged { id: a, url: url@ }),
                        EffectView::Publish(EventView::Navigation { url: url@ }),
                    ],
                    now,
                ),
            },
    {
        let ghost s0 = *self;
        match notice {
            ContentNotice::PageLoaded { url } => {
                self.emit(BrowserEvent::PageLoaded { url }, now);
            },
            ContentNotice::TitleChanged { title } => {
                let ghost tv = title@;
                match self.tabs.set_active_title(title.as_str()) {
                    Some(id) => {
                        let ghost s1 = *self;
                        proof { s0.lemma_fans_out_none(); }
                        self.emit(BrowserEvent::TabTitleChanged { id, title: title.clone() }, now);
                        let ghost s2 = *self;
                        self.emit(BrowserEvent::TitleChanged { title }, now);
                        proof {
                            let e1 = seq![EffectView::Publish(EventView::TabTitleChanged { id, title: tv })];
                            let e2 = seq![EffectView::Publish(EventView::TitleChanged { title: tv })];
                            assert(s2.fans_out(&s0, e1, now));
                            Self::lemma_fans_out_trans(&s0, &s2, self, e1, e2, now);
                            assert(e1 + e2 =~= seq![
                                EffectView::Publish(EventView::TabTitleChanged { id, title: tv }),
                                EffectView::Publish(EventView::TitleChanged { title: tv }),
                            ]);
                        }
                    },
                    None => {
                        self.emit(BrowserEvent::TitleChanged { title }, now);
                    },
                }
            },
            ContentNotice::Navigated { url } => {
                let ghost uv = url@;
                match self.tabs.set_active_url(url.as_str()) {
                    Some(id) => {
                        let ghost s1 = *self;
                        proof { s0.lemma_fans_out_none(); }
                        self.emit(BrowserEvent::TabUrlChanged { id, url: url.clone() }, now);
                        let ghost s2 = *self;
                        self.emit(BrowserEvent::Navigation { url }, now);
                        proof {
                            let e1 = seq![EffectView::Publish(EventView::TabUrlChanged { id, url: uv })];
                            let e2 = seq![EffectView::Publish(EventView::Navigation { url: uv })];
                            assert(s2.fans_out(&s0, e1, now));
                            Self::lemma_fans_out_trans(&s0, &s2, self, e1, e2, now);
                            assert(e1 + e2 =~= seq![
                                EffectView::Publish(EventView::TabUrlChanged { id, url: uv }),
                                EffectView::Publish(EventView::Navigation { url: uv }),
                            ]);
                        }
                    },
                    None => {
                        self.emit(BrowserEvent::Navigation { url }, now);
                    },
                }
            },
        }
    }

    /// Whether the engine runs without a window.
    pub fn headless(&self) -> (r: bool)
        ensures
            r == self.is_headless(),
    {
        self.headless
    }

    /// The tab store.
    pub fn tabs(&self) -> (r: &TabManager)
        ensures
            *r == self.tab_state(),
    {
        &self.tabs
    }

    /// The recorder.
    pub fn recorder(&self) -> (r: &EventRecorder)
        ensures
            *r == self.recorder_state(),
    {
        &self.recorder
    }

    /// The player.
    pub fn player(&self) -> (r: &EventPlayer)
        ensures
            *r == self.player_state(),
    {
        &self.player
    }

    /// Starts a session: when there is no tab yet, creates a blank one and
    /// announces it, returning its id; otherwise changes nothing.
    pub fn ensure_initial_tab(&mut self, now: u64) -> (r: Option<usize>)
        requires
            old(self).wf(),
            old(self).tab_state().next() < usize::MAX,
        ensures
            final(self).wf(),
            final(self).tab_state().tabs_view().len() > 0,
            old(self).tab_state().tabs_view().len() > 0 ==> r is None && tabs_kept(final(self), old(self))
                && final(self).fans_out(old(self), Seq::empty(), now),
            old(self).tab_state().tabs_view().len() == 0 ==> (r matches Some(id) && created(
                final(self),
                old(self),
                BLANK_PAGE@,
                id,
                now,
            )),
    {
        if self.tabs.get_all_tabs().len() == 0 {
            let id = self.create_tab(BLANK_PAGE, now);
            Some(id)
        } else {
            proof { self.lemma_fans_out_none(); }
            None
        }
    }

    /// The active tab's url, if there is an active tab.
    pub fn get_active_tab(&self) -> (r: Option<String>)
        requires
            self.wf(),
        ensures
            r is Some == self.tab_state().active() is Some,
            r matches Some(u) ==> (self.tab_state().active() matches Some(a) && exists|i: int|
                0 <= i < self.tab_state().tabs_view().len() && #[trigger] self.tab_state().tabs_view()[i].id == a
                    && self.tab_state().tabs_view()[i].url == u@),
    {
        match self.tabs.get_active_tab() {
            Some(t) => {
                let u = t.url.clone();
                proof {
                    let i = choose|i: int|
                        0 <= i < self.tabs.tabs_view().len() && #[trigger] self.tabs.tabs_view()[i] == t@;
                    assert(self.tabs.tabs_view()[i].url == u@ && self.tabs.tabs_view()[i].id == t.id);
                }
                Some(u)
            },
            None => None,
        }
    }

    /// Starts recording, to be saved at `path`.
    pub fn start_recording(&mut self, path: &str)
        requires
            old(self).wf(),
        ensures
            final(self).wf(),
            final(self).recorder_state().is_on(),
            final(self).recorder_state().path() == Some(path@),
            final(self).recorder_state().entries_view() == old(self).recorder_state().entries_view(),
            tabs_kept(final(self), old(self)),
            final(self).viewer_state() == old(self).viewer_state(),
            final(self).player_state() == old(self).player_state(),
            final(self).outbox_view() == old(self).outbox_view(),
    {
        self.recorder.set_save_path(path);
        self.recorder.start();
    }

    /// Stops recording; what was recorded stays.
    pub fn stop_recording(&mut self)
        requires
            old(self).wf(),
        ensures
            final(self).wf(),
            !final(self).recorder_state().is_on(),
            final(self).recorder_state().path() == old(self).recorder_state().path(),
            final(self).recorder_state().entries_view() == old(self).recorder_state().entries_view(),
            tabs_kept(final(self), old(self)),
            final(self).viewer_state() == old(self).viewer_state(),
            final(self).player_state() == old(self).player_state(),
            final(self).outbox_view() == old(self).outbox_view(),
    {
        self.recorder.stop();
    }

    /// Loads `entries` into the player, replay taken to begin at `now`.
    pub fn load_recording(&mut self, entries: Vec<EventEntry>, now: u64)
        requires
            old(self).wf(),
        ensures
            final(self).wf(),
            final(self).player_state().entries_view() == entries@,
            final(self).player_state().released() == 0,
            final(self).player_state().began() == now,
            final(self).player_state().speed_view() == old(self).player_state().speed_view(),
            final(self).player_state().is_on() == old(self).player_state().is_on(),
            tabs_kept(final(self), old(self)),
            final(self).recorder_state() == old(self).recorder_state(),
            final(self).viewer_state() == old(self).viewer_state(),
            final(self).outbox_view() == old(self).outbox_view(),
    {
        self.player.load(entries, now);
    }

    /// Lets replay release entries.
    pub fn start_replay(&mut self)
        requires
            old(self).wf(),
        ensures
            final(self).wf(),
            final(self).player_state().is_on(),
            final(self).player_state().entries_view() == old(self).player_state().entries_view(),
            final(self).player_state().released() == old(self).player_state().released(),
            final(self).player_state().began() == old(self).player_state().began(),
            final(self).player_state().speed_view() == old(self).player_state().speed_view(),
            tabs_kept(final(self), old(self)),
            final(self).recorder_state() == old(self).recorder_state(),
            final(self).viewer_state() == old(self).viewer_state(),
            final(self).outbox_view() == old(self).outbox_view(),
    {
        self.player.start();
    }

    /// Stops replay; the position is kept.
    pub fn stop_replay(&mut self)
        requires
            old(self).wf(),
        ensures
            final(self).wf(),
            !final(self).player_state().is_on(),
            final(self).player_state().entries_view() == old(self).player_state().entries_view(),
            final(self).player_state().released() == old(self).player_state().released(),
            final(self).player_state().began() == old(self).player_state().began(),
            final(self).player_state().speed_view() == old(self).player_state().speed_view(),
            tabs_kept(final(self), old(self)),
            final(self).recorder_state() == old(self).recorder_state(),
            final(self).viewer_state() == old(self).viewer_state(),
            final(self).outbox_view() == old(self).outbox_view(),
    {
        self.player.stop();
    }

    /// Sets the replay speed, in thousandths of real time; zero is refused.
    pub fn set_replay_speed(&mut self, speed: u64) -> (r: bool)
        requires
            old(self).wf(),
        ensures
            final(self).wf(),
            r == (speed > 0),
            final(self).player_state().speed_view() == (if r {
                speed as nat
            } else {
                old(self).player_state().speed_view()
            }),
            final(self).player_state().entries_view() == old(self).player_state().entries_view(),
            final(self).player_state().released() == old(self).player_state().released(),
            final(self).player_state().began() == old(self).player_state().began(),
            final(self).player_state().is_on() == old(self).player_state().is_on(),
            tabs_kept(final(self), old(self)),
            final(self).recorder_state() == old(self).recorder_state(),
            final(self).viewer_state() == old(self).viewer_state(),
            final(self).outbox_view() == old(self).outbox_view(),
    {
        self.player.set_speed(speed)
    }

    /// The replay command due at `now`, if any: the next entry's event as a
    /// `PlayEvent`, for the dispatcher to carry out in turn.
    pub fn poll_replay(&mut self, now: u64) -> (r: Option<BrowserCommand>)
        requires
            old(self).wf(),
        ensures
            final(self).wf(),
            r is Some == old(self).player_state().next_due(now),
            r matches Some(c) ==> (c matches BrowserCommand::PlayEvent { event } && event
                == old(self).player_state().entries_view()[old(self).player_state().released() as int].event)
                && final(self).player_state().released() == old(self).player_state().released() + 1,
            r is None ==> final(self).player_state().released() == old(self).player_state().released(),
            final(self).player_state().entries_view() == old(self).player_state().entries_view(),
            final(self).player_state().began() == old(self).player_state().began(),
            final(self).player_state().speed_view() == old(self).player_state().speed_view(),
            final(self).player_state().is_on() == old(self).player_state().is_on(),
            tabs_kept(final(self), old(self)),
            final(self).recorder_state() == old(self).recorder_state(),
            final(self).viewer_state() == old(self).viewer_state(),
            final(self).outbox_view() == old(self).outbox_view(),
    {
        match self.player.next_event(now) {
            Some(entry) => Some(BrowserCommand::PlayEvent { event: entry.event }),
            None => None,
        }
    }

    /// The last `count` logged events, oldest first.
    pub fn get_recent_events(&self, count: usize) -> (r: Vec<EventEntry>)
        requires
            self.wf(),
        ensures
            r@ == keep_last(self.viewer_state().entries_view(), count as nat),
    {
        self.viewer.get_recent_events(count)
    }

    /// Empties the recent-events log.
    pub fn clear_event_history(&mut self)
        requires
            old(self).wf(),
        ensures
            final(self).wf(),
            final(self).viewer_state().entries_view() == Seq::<EventEntry>::empty(),
            final(self).viewer_state().cap() == old(self).viewer_state().cap(),
            tabs_kept(final(self), old(self)),
            final(self).recorder_state() == old(self).recorder_state(),
            final(self).player_state() == old(self).player_state(),
            final(self).outbox_view() == old(self).outbox_view(),
    {
        self.viewer.clear();
    }

    /// Hands over the queued effects, oldest first, leaving none.
    pub fn take_effects(&mut self) -> (r: Vec<Effect>)
        requires
            old(self).wf(),
        ensures
            final(self).wf(),
            r@.map_values(|e: Effect| e@) == old(self).outbox_view(),
            final(self).outbox_view() == Seq::<EffectView>::empty(),
            tabs_kept(final(self), old(self)),
            final(self).recorder_state() == old(self).recorder_state(),
            final(self).player_state() == old(self).player_state(),
            final(self).viewer_state() == old(self).viewer_state(),
    {
        let r = self.outbox.split_off(0);
        assert(r@ =~= old(self).outbox@);
        assert(self.outbox_view() =~= Seq::<EffectView>::empty());
        r
    }
}

/// No command lowers the next tab id, so an id handed out is never handed out
/// again.
pub proof fn lemma_next_id_never_decreases(
    new: &BrowserEngine,
    old: &BrowserEngine,
    cmd: BrowserCommand,
    r: bool,
    now: u64,
)
    requires
        command_done(new, old, cmd, r, now),
    ensures
        new.tab_state().next() >= old.tab_state().next(),
{
}

/// Creating a tab, closing it and creating another gives the second a
/// different, larger id.
pub proof fn lemma_ids_never_reused(
    e0: &BrowserEngine,
    e1: &BrowserEngine,
    e2: &BrowserEngine,
    e3: &BrowserEngine,
    url1: Seq<char>,
    url2: Seq<char>,
    id1: usize,
    id2: usize,
    closed_ok: bool,
    t1: u64,
    t2: u64,
    t3: u64,
)
    requires
        created(e1, e0, url1, id1, t1),
        closed(e2, e1, id1, closed_ok, t2),
        created(e3, e2, url2, id2, t3),
    ensures
        id2 != id1,
        id2 > id1,
{
}

/// Creating a tab for `url` and then switching to it publishes `TabCreated`
/// then `TabActivated`, and has the renderer load `url` once, after both.
pub proof fn lemma_create_then_switch(
    e0: &BrowserEngine,
    e1: &BrowserEngine,
    e2: &BrowserEngine,
    url: Seq<char>,
    id: usize,
    r: bool,
    t1: u64,
    t2: u64,
)
    requires
        e0.wf(),
        e1.wf(),
        created(e1, e0, url, id, t1),
        switched(e2, e1, id, r, t2),
    ensures
        r,
        e2.tab_state().active() == Some(id),
        e2.outbox_view() == e0.outbox_view() + seq![
            EffectView::Publish(EventView::TabCreated { id, url }),
            EffectView::Publish(EventView::TabActivated { id }),
            EffectView::LoadUrl(url),
        ],
{
    let tabs = e1.tab_state().tabs_view();
    let last = tabs.len() - 1;
    assert(tabs[last].id == id);
    assert(has_id(tabs, id));
    let p = choose|p: int|
        0 <= p < tabs.len() && tabs[p].id == id && e2.fans_out(
            e1,
            seq![
                EffectView::Publish(EventView::TabActivated { id }),
                EffectView::LoadUrl(tabs[p].url),
            ],
            t2,
        );
    assert(p == last);
    assert(tabs[last].url == url);
    assert(e0.outbox_view() + seq![EffectView::Publish(EventView::TabCreated { id, url })] + seq![
        EffectView::Publish(EventView::TabActivated { id }),
        EffectView::LoadUrl(url),
    ] =~= e0.outbox_view() + seq![
        EffectView::Publish(EventView::TabCreated { id, url }),
        EffectView::Publish(EventView::TabActivated { id }),
        EffectView::LoadUrl(url),
    ]);
}

} // verus!
