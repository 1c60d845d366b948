//! The tab store: the authoritative tabs, in display order, and the active tab.
use vstd::prelude::*;

verus! {

/// One navigable tab.
#[derive(Debug, Clone, PartialEq, Eq)]
pub struct Tab {
    pub id: usize,
    pub url: String,
    pub title: String,
}

/// What a tab holds, as plain values.
pub struct TabView {
    pub id: usize,
    pub url: Seq<char>,
    pub title: Seq<char>,
}

impl View for Tab {
    type V = TabView;

    open spec fn view(&self) -> TabView {
        TabView { id: self.id, url: self.url@, title: self.title@ }
    }
}

/// Whether some tab of `tabs` has id `id`.
pub open spec fn has_id(tabs: Seq<TabView>, id: usize) -> bool {
    exists|i: int| 0 <= i < tabs.len() && #[trigger] tabs[i].id == id
}

/// No two tabs share an id.
pub open spec fn ids_unique(tabs: Seq<TabView>) -> bool {
    forall|i: int, j: int|
        0 <= i < tabs.len() && 0 <= j < tabs.len() && i != j ==> #[trigger] tabs[i].id
            != #[trigger] tabs[j].id
}

/// The tab that becomes active when the active tab at position `p` of `tabs` is
/// closed: the one before it in display order, or else the new first tab, or none
/// when no tab is left.
pub open spec fn fallback_active(tabs: Seq<TabView>, p: int) -> Option<usize> {
    if tabs.len() <= 1 {
        None
    } else if p > 0 {
        Some(tabs[p - 1].id)
    } else {
        Some(tabs[1].id)
    }
}

/// Holds the tabs in display order, the active tab and the next id to hand out.
pub struct TabManager {
    tabs: Vec<Tab>,
    active_id: Option<usize>,
    next_id: usize,
}

impl TabManager {
    /// The tabs, in display order.
    pub closed spec fn tabs_view(&self) -> Seq<TabView> {
        self.tabs@.map_values(|t: Tab| t@)
    }

    pub closed spec fn active(&self) -> Option<usize> {
        self.active_id
    }

    /// The id that the next created tab gets.
    pub closed spec fn next(&self) -> usize {
        self.next_id
    }

    /// Ids are unique and below the next id; the active id names a present tab.
    pub open spec fn wf(&self) -> bool {
        &&& ids_unique(self.tabs_view())
        &&& forall|i: int| 0 <= i < self.tabs_view().len() ==> #[trigger] self.tabs_view()[i].id < self.next()
        &&& (self.active() matches Some(a) ==> has_id(self.tabs_view(), a))
    }

    /// An empty store; the first tab gets id 0.
    pub fn new() -> (r: Self)
        ensures
            r.wf(),
            r.tabs_view() == Seq::<TabView>::empty(),
            r.active() == None::<usize>,
            r.next() == 0,
    {
        let r = TabManager { tabs: Vec::new(), active_id: None, next_id: 0 };
        assert(r.tabs_view() =~= Seq::<TabView>::empty());
        r
    }

    /// Appends a tab with `url` and an empty title under a fresh id, which it
    /// returns; the active tab stays as it was.
    pub fn create_tab(&mut self, url: &str) -> (id: usize)
        requires
            old(self).wf(),
            old(self).next() < usize::MAX,
        ensures
            final(self).wf(),
            id == old(self).next(),
            final(self).next() == id + 1,
            final(self).tabs_view() == old(self).tabs_view().push(
                TabView { id, url: url@, title: Seq::<char>::empty() },
            ),
            final(self).active() == old(self).active(),
    {
        let id = self.next_id;
        let tab = Tab { id, url: url.to_owned(), title: String::new() };
        self.tabs.push(tab);
        self.next_id = id + 1;
        assert(self.tabs_view() =~= old(self).tabs_view().push(
            TabView { id, url: url@, title: Seq::<char>::empty() },
        ));
        proof {
            let v = self.tabs_view();
            assert forall|i: int| 0 <= i < v.len() - 1 implies v[i] == old(self).tabs_view()[i] by {}
            if let Some(a) = self.active_id {
                let k = choose|k: int| 0 <= k < old(self).tabs_view().len() && #[trigger] old(self).tabs_view()[k].id == a;
                assert(v[k].id == a);
            }
        }
        id
    }

    /// The position of the tab with id `id`, if there is one.
    fn position(&self, id: usize) -> (r: Option<usize>)
        requires
            self.wf(),
        ensures
            r matches Some(p) ==> p < self.tabs_view().len() && self.tabs_view()[p as int].id == id,
            r is None ==> !has_id(self.tabs_view(), id),
    {
        let mut i: usize = 0;
        while i < self.tabs.len()
            invariant
                i <= self.tabs@.len(),
                forall|k: int| 0 <= k < i ==> #[trigger] self.tabs_view()[k].id != id,
            decreases self.tabs@.len() - i,
        {
            if self.tabs[i].id == id {
                return Some(i);
            }
            i = i + 1;
        }
        None
    }

    /// Whether a tab with id `id` is present.
    pub fn contains(&self, id: usize) -> (r: bool)
        requires
            self.wf(),
        ensures
            r == has_id(self.tabs_view(), id),
    {
        self.position(id).is_some()
    }

    /// Removes the tab with id `id`, if present. Closing the active tab makes the
    /// tab before it active, or the new first tab when it was first, or none when
    /// no tab is left. Returns whether a tab was removed; when none was, the store
    /// is unchanged.
    pub fn close_tab(&mut self, id: usize) -> (r: bool)
        requires
            old(self).wf(),
        ensures
            final(self).wf(),
            r == has_id(old(self).tabs_view(), id),
            !r ==> *final(self) == *old(self),
            final(self).next() == old(self).next(),
            r ==> exists|p: int|
                0 <= p < old(self).tabs_view().len() && old(self).tabs_view()[p].id == id
                    && final(self).tabs_view() == old(self).tabs_view().remove(p)
                    && final(self).active() == (if old(self).active() == Some(id) {
                        fallback_active(old(self).tabs_view(), p)
                    } else {
                        old(self).active()
                    }),
    {
        match self.position(id) {
            None => false,
            Some(p) => {
                let ghost old_v = self.tabs_view();
                let n = self.tabs.len();
                let fallback = if n <= 1 {
                    None
                } else if p > 0 {
                    Some(self.tabs[p - 1].id)
                } else {
                    Some(self.tabs[1].id)
                };
                self.tabs.remove(p);
                assert(self.tabs_view() =~= old_v.remove(p as int));
                let was_active = match self.active_id {
                    Some(a) => a == id,
                    None => false,
                };
                if was_active {
                    self.active_id = fallback;
                }
                proof {
                    let v = self.tabs_view();
                    assert forall|i: int| 0 <= i < v.len() implies #[trigger] v[i] == old_v[if i < p { i } else { i + 1 }] by {}
                    assert forall|i: int, j: int|
                        0 <= i < v.len() && 0 <= j < v.len() && i != j implies #[trigger] v[i].id != #[trigger] v[j].id by {
                        assert(v[i] == old_v[if i < p { i } else { i + 1 }]);
                        assert(v[j] == old_v[if j < p { j } else { j + 1 }]);
                    }
                    assert forall|i: int| 0 <= i < v.len() implies #[trigger] v[i].id < self.next_id by {
                        assert(v[i] == old_v[if i < p { i } else { i + 1 }]);
                    }
                    if let Some(a) = self.active_id {
                        if was_active {
                            if p > 0 {
                                assert(v[p - 1].id == a);
                            } else {
                                assert(v[0] == old_v[1]);
                            }
                        } else {
                            let k = choose|k: int| 0 <= k < old_v.len() && #[trigger] old_v[k].id == a;
                            assert(k != p);
                            let k2 = if k < p { k } else { k - 1 };
                            assert(v[k2] == old_v[k]);
                        }
                    }
                }
                true
            },
        }
    }

    /// Makes the tab with id `id` active if it is present; otherwise returns false
    /// and changes nothing. The tabs themselves never change.
    pub fn switch_to_tab(&mut self, id: usize) -> (r: bool)
        requires
            old(self).wf(),
        ensures
            final(self).wf(),
            r == has_id(old(self).tabs_view(), id),
            !r ==> *final(self) == *old(self),
            final(self).tabs_view() == old(self).tabs_view(),
            final(self).next() == old(self).next(),
            r ==> final(self).active() == Some(id),
    {
        if self.contains(id) {
            self.active_id = Some(id);
            true
        } else {
            false
        }
    }

    /// The id that the next created tab gets.
    pub fn next_id(&self) -> (r: usize)
        ensures
            r == self.next(),
    {
        self.next_id
    }

    /// The active tab's id, if any.
    pub fn get_active_id(&self) -> (r: Option<usize>)
        ensures
            r == self.active(),
    {
        self.active_id
    }

    /// The active tab, if any.
    pub fn get_active_tab(&self) -> (r: Option<&Tab>)
        requires
            self.wf(),
        ensures
            self.active() is None ==> r is None,
            self.active() matches Some(a) ==> (r matches Some(t) && t.id == a && exists|i: int|
                0 <= i < self.tabs_view().len() && #[trigger] self.tabs_view()[i] == t@),
    {
        match self.active_id {
            None => None,
            Some(a) => match self.position(a) {
                Some(p) => Some(&self.tabs[p]),
                None => None,
            },
        }
    }

    /// Sets the active tab's url to `url` and returns its id; with no active tab,
    /// changes nothing and returns none.
    pub fn set_active_url(&mut self, url: &str) -> (r: Option<usize>)
        requires
            old(self).wf(),
        ensures
            final(self).wf(),
            r == old(self).active(),
            final(self).active() == old(self).active(),
            final(self).next() == old(self).next(),
            r is None ==> *final(self) == *old(self),
            r matches Some(a) ==> exists|p: int|
                0 <= p < old(self).tabs_view().len() && old(self).tabs_view()[p].id == a
                    && final(self).tabs_view() == old(self).tabs_view().update(
                        p,
                        TabView { id: a, url: url@, title: old(self).tabs_view()[p].title },
                    ),
    {
        match self.active_id {
            None => None,
            Some(a) => match self.position(a) {
                None => None,
                Some(p) => {
                    let ghost old_v = self.tabs_view();
                    let title = self.tabs[p].title.clone();
                    self.tabs.set(p, Tab { id: a, url: url.to_owned(), title });
                    assert(self.tabs_view() =~= old_v.update(
                        p as int,
                        TabView { id: a, url: url@, title: old_v[p as int].title },
                    ));
                    assert(self.tabs_view()[p as int].id == a);
                    Some(a)
                },
            },
        }
    }

    /// Sets the active tab's title to `title` and returns its id; with no active
    /// tab, changes nothing and returns none.
    pub fn set_active_title(&mut self, title: &str) -> (r: Option<usize>)
        requires
            old(self).wf(),
        ensures
            final(self).wf(),
            r == old(self).active(),
            final(self).active() == old(self).active(),
            final(self).next() == old(self).next(),
            r is None ==> *final(self) == *old(self),
            r matches Some(a) ==> exists|p: int|
                0 <= p < old(self).tabs_view().len() && old(self).tabs_view()[p].id == a
                    && final(self).tabs_view() == old(self).tabs_view().update(
                        p,
                        TabView { id: a, url: old(self).tabs_view()[p].url, title: title@ },
                    ),
    {
        match self.active_id {
            None => None,
            Some(a) => match self.position(a) {
                None => None,
                Some(p) => {
                    let ghost old_v = self.tabs_view();
                    let url = self.tabs[p].url.clone();
                    self.tabs.set(p, Tab { id: a, url, title: title.to_owned() });
                    assert(self.tabs_view() =~= old_v.update(
                        p as int,
                        TabView { id: a, url: old_v[p as int].url, title: title@ },
                    ));
                    assert(self.tabs_view()[p as int].id == a);
                    Some(a)
                },
            },
        }
    }

    /// A read-only snapshot of the tabs in display order.
    pub fn get_all_tabs(&self) -> (r: &[Tab])
        ensures
            r@.map_values(|t: Tab| t@) == self.tabs_view(),
    {
        self.tabs.as_slice()
    }
}

} // verus!
