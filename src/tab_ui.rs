//! The tab strip's own record of the tabs it shows. It only follows what the
//! dispatcher reports; the user's actions on it come back as commands.
use vstd::prelude::*;
use crate::event::BrowserCommand;

verus! {

/// What the user asks of the tab strip.
#[derive(Debug, Clone, PartialEq, Eq)]
pub enum TabCommand {
    Create { url: String },
    Close { id: usize },
    Switch { id: usize },
}

impl TabCommand {
    /// The command that carries the same request to the dispatcher.
    pub fn into_command(self) -> (r: BrowserCommand)
        ensures
            r == (match self {
                TabCommand::Create { url } => BrowserCommand::CreateTab { url },
                TabCommand::Close { id } => BrowserCommand::CloseTab { id },
                TabCommand::Switch { id } => BrowserCommand::SwitchTab { id },
            }),
    {
        match self {
            TabCommand::Create { url } => BrowserCommand::CreateTab { url },
            TabCommand::Close { id } => BrowserCommand::CloseTab { id },
            TabCommand::Switch { id } => BrowserCommand::SwitchTab { id },
        }
    }
}

/// One tab as the strip shows it.
#[derive(Debug, Clone, PartialEq, Eq)]
pub struct TabInfo {
    pub id: usize,
    pub title: String,
    pub url: String,
    pub active: bool,
}

/// A tab as the strip shows it, as plain values.
pub struct TabInfoView {
    pub id: usize,
    pub title: Seq<char>,
    pub url: Seq<char>,
    pub active: bool,
}

impl View for TabInfo {
    type V = TabInfoView;

    open spec fn view(&self) -> TabInfoView {
        TabInfoView { id: self.id, title: self.title@, url: self.url@, active: self.active }
    }
}

/// The first position in `tabs` whose id is `id`, or `tabs.len()` when none is.
pub open spec fn first_with_id(tabs: Seq<TabInfoView>, id: usize) -> int
    decreases tabs.len(),
{
    if tabs.len() == 0 {
        0
    } else if tabs[0].id == id {
        0
    } else {
        1 + first_with_id(tabs.subrange(1, tabs.len() as int), id)
    }
}

/// The height of the strip, in logical pixels.
pub const TAB_BAR_HEIGHT: u32 = 40;

/// The tab strip's list of tabs, in display order.
pub struct TabBar {
    height: u32,
    tabs: Vec<TabInfo>,
}

impl TabBar {
    pub closed spec fn tabs_view(&self) -> Seq<TabInfoView> {
        self.tabs@.map_values(|t: TabInfo| t@)
    }

    pub closed spec fn height_view(&self) -> u32 {
        self.height
    }

    /// An empty strip.
    pub fn new() -> (r: Self)
        ensures
            r.tabs_view() == Seq::<TabInfoView>::empty(),
            r.height_view() == TAB_BAR_HEIGHT,
    {
        let r = TabBar { height: TAB_BAR_HEIGHT, tabs: Vec::new() };
        assert(r.tabs_view() =~= Seq::<TabInfoView>::empty());
        r
    }

    /// Shows a new, inactive tab at the end.
    pub fn add_tab(&mut self, id: usize, title: &str, url: &str)
        ensures
            final(self).tabs_view() == old(self).tabs_view().push(
                TabInfoView { id, title: title@, url: url@, active: false },
            ),
            final(self).height_view() == old(self).height_view(),
    {
        self.tabs.push(TabInfo { id, title: title.to_owned(), url: url.to_owned(), active: false });
        assert(self.tabs_view() =~= old(self).tabs_view().push(
            TabInfoView { id, title: title@, url: url@, active: false },
        ));
    }

    /// The position of the first tab with id `id`.
    fn position(&self, id: usize) -> (r: Option<usize>)
        ensures
            r matches Some(p) ==> p < self.tabs_view().len() && self.tabs_view()[p as int].id == id
                && forall|k: int| 0 <= k < p ==> #[trigger] self.tabs_view()[k].id != id,
            r is None ==> forall|k: int| 0 <= k < self.tabs_view().len() ==> #[trigger] self.tabs_view()[k].id != id,
    {
        let mut i: usize = 0;
        while i < self.tabs.len()
            invariant
                i <= self.tabs@.len(),
                forall|k: int| 0 <= k < i ==> #[trigger] self.tabs_view()[k].id != id,
            decreases self.tabs@.len() - i,
        {
            if self.tabs[i].id == id {
                return Some(i);
            }
            i = i + 1;
        }
        None
    }

    /// Removes the first tab with id `id`; with none, nothing changes.
    pub fn remove_tab(&mut self, id: usize)
        ensures
            (exists|k: int| 0 <= k < old(self).tabs_view().len() && #[trigger] old(self).tabs_view()[k].id == id)
                ==> exists|p: int| 0 <= p < old(self).tabs_view().len()
                    && old(self).tabs_view()[p].id == id
                    && (forall|k: int| 0 <= k < p ==> #[trigger] old(self).tabs_view()[k].id != id)
                    && final(self).tabs_view() == old(self).tabs_view().remove(p),
            (forall|k: int| 0 <= k < old(self).tabs_view().len() ==> #[trigger] old(self).tabs_view()[k].id != id)
                ==> final(self).tabs_view() == old(self).tabs_view(),
            final(self).height_view() == old(self).height_view(),
    {
        if let Some(p) = self.position(id) {
            let ghost before = self.tabs_view();
            self.tabs.remove(p);
            assert(self.tabs_view() =~= before.remove(p as int));
        }
    }

    /// Marks the tabs with id `id` active and every other tab inactive.
    pub fn set_active_tab(&mut self, id: usize)
        ensures
            final(self).tabs_view().len() == old(self).tabs_view().len(),
            forall|k: int| 0 <= k < old(self).tabs_view().len() ==> #[trigger] final(self).tabs_view()[k]
                == (TabInfoView { active: old(self).tabs_view()[k].id == id, ..old(self).tabs_view()[k] }),
            final(self).height_view() == old(self).height_view(),
    {
        let n = self.tabs.len();
        let mut i: usize = 0;
        while i < n
            invariant
                n == self.tabs@.len(),
                n == old(self).tabs@.len(),
                i <= n,
                self.height == old(self).height,
                forall|k: int| 0 <= k < i ==> #[trigger] self.tabs_view()[k]
                    == (TabInfoView { active: old(self).tabs_view()[k].id == id, ..old(self).tabs_view()[k] }),
                forall|k: int| i <= k < n ==> #[trigger] self.tabs@[k] == old(self).tabs@[k],
            decreases n - i,
        {
            let ghost prev = self.tabs@;
            let ghost prev_v = self.tabs_view();
            let t = &self.tabs[i];
            let info = TabInfo { id: t.id, title: t.title.clone(), url: t.url.clone(), active: t.id == id };
            self.tabs.set(i, info);
            proof {
                assert(self.tabs@ == prev.update(i as int, info));
                assert(self.tabs_view()[i as int] == (TabInfoView {
                    active: old(self).tabs_view()[i as int].id == id,
                    ..old(self).tabs_view()[i as int]
                }));
                assert forall|k: int| 0 <= k < i implies #[trigger] self.tabs_view()[k] == (TabInfoView {
                    active: old(self).tabs_view()[k].id == id,
                    ..old(self).tabs_view()[k]
                }) by {
                    assert(self.tabs@[k] == prev[k]);
                    assert(self.tabs_view()[k] == prev_v[k]);
                }
            }
            i = i + 1;
        }
    }

    /// Shows `url` as the address of the first tab with id `id`.
    pub fn update_tab_url(&mut self, id: usize, url: &str)
        ensures
            final(self).tabs_view() == (if first_with_id(old(self).tabs_view(), id) < old(self).tabs_view().len() {
                old(self).tabs_view().update(
                    first_with_id(old(self).tabs_view(), id),
                    TabInfoView { url: url@, ..old(self).tabs_view()[first_with_id(old(self).tabs_view(), id)] },
                )
            } else {
                old(self).tabs_view()
            }),
            final(self).height_view() == old(self).height_view(),
    {
        let ghost before = self.tabs_view();
        match self.position(id) {
            Some(p) => {
                proof { lemma_first_with_id(before, id, p as int); }
                let t = &self.tabs[p];
                let info = TabInfo { id: t.id, title: t.title.clone(), url: url.to_owned(), active: t.active };
                self.tabs.set(p, info);
                assert(self.tabs_view() =~= before.update(p as int, TabInfoView { url: url@, ..before[p as int] }));
            },
            None => {
                proof { lemma_first_with_id(before, id, before.len() as int); }
            },
        }
    }

    /// Shows `title` as the title of the first tab with id `id`.
    pub fn update_tab_title(&mut self, id: usize, title: &str)
        ensures
            final(self).tabs_view() == (if first_with_id(old(self).tabs_view(), id) < old(self).tabs_view().len() {
                old(self).tabs_view().update(
                    first_with_id(old(self).tabs_view(), id),
                    TabInfoView { title: title@, ..old(self).tabs_view()[first_with_id(old(self).tabs_view(), id)] },
                )
            } else {
                old(self).tabs_view()
            }),
            final(self).height_view() == old(self).height_view(),
    {
        let ghost before = self.tabs_view();
        match self.position(id) {
            Some(p) => {
                proof { lemma_first_with_id(before, id, p as int); }
                let t = &self.tabs[p];
                let info = TabInfo { id: t.id, title: title.to_owned(), url: t.url.clone(), active: t.active };
                self.tabs.set(p, info);
                assert(self.tabs_view() =~= before.update(p as int, TabInfoView { title: title@, ..before[p as int] }));
            },
            None => {
                proof { lemma_first_with_id(before, id, before.len() as int); }
            },
        }
    }

    /// The tabs, in display order.
    pub fn tabs(&self) -> (r: &[TabInfo])
        ensures
            r@.map_values(|t: TabInfo| t@) == self.tabs_view(),
    {
        self.tabs.as_slice()
    }

    /// The strip's height, in logical pixels.
    pub fn get_height(&self) -> (r: u32)
        ensures
            r == self.height_view(),
    {
        self.height
    }
}

/// `first_with_id` is the position `p` when no earlier tab has the id and `p`
/// either has it or is the end.
proof fn lemma_first_with_id(tabs: Seq<TabInfoView>, id: usize, p: int)
    requires
        0 <= p <= tabs.len(),
        p < tabs.len() ==> tabs[p].id == id,
        forall|k: int| 0 <= k < p ==> #[trigger] tabs[k].id != id,
    ensures
        first_with_id(tabs, id) == p,
    decreases tabs.len(),
{
    if tabs.len() > 0 && p > 0 {
        let tail = tabs.subrange(1, tabs.len() as int);
        assert(tabs[0].id != id);
        assert forall|k: int| 0 <= k < p - 1 implies #[trigger] tail[k].id != id by {
            assert(tail[k] == tabs[k + 1]);
        }
        if p - 1 < tail.len() {
            assert(tail[p - 1] == tabs[p]);
        }
        lemma_first_with_id(tail, id, p - 1);
    }
}

} // verus!
