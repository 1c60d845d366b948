//! The bounded log of recent events shown to an operator.
use vstd::prelude::*;
use crate::event::{BrowserEvent, EventEntry};

verus! {

/// The last `n` items of `s`, or all of them when there are fewer.
pub open spec fn keep_last<A>(s: Seq<A>, n: nat) -> Seq<A> {
    if s.len() > n {
        s.subrange(s.len() - n, s.len() as int)
    } else {
        s
    }
}

/// How many events the log keeps when no other bound is given.
pub const DEFAULT_CAPACITY: usize = 100;

/// The most recent events, oldest first, at most `capacity` of them.
pub struct EventViewer {
    entries: Vec<EventEntry>,
    capacity: usize,
}

impl EventViewer {
    pub closed spec fn entries_view(&self) -> Seq<EventEntry> {
        self.entries@
    }

    pub closed spec fn cap(&self) -> nat {
        self.capacity as nat
    }

    pub open spec fn wf(&self) -> bool {
        0 < self.cap() && self.entries_view().len() <= self.cap()
    }

    /// An empty log that keeps at most `capacity` events.
    pub fn with_capacity(capacity: usize) -> (r: Self)
        requires
            capacity > 0,
        ensures
            r.wf(),
            r.cap() == capacity,
            r.entries_view() == Seq::<EventEntry>::empty(),
    {
        EventViewer { entries: Vec::new(), capacity }
    }

    /// An empty log with the default bound.
    pub fn new() -> (r: Self)
        ensures
            r.wf(),
            r.cap() == DEFAULT_CAPACITY,
            r.entries_view() == Seq::<EventEntry>::empty(),
    {
        Self::with_capacity(DEFAULT_CAPACITY)
    }

    /// Appends `event`, stamped with `timestamp`, dropping the oldest entry when
    /// the log is full.
    pub fn add_event(&mut self, event: BrowserEvent, timestamp: u64)
        requires
            old(self).wf(),
        ensures
            final(self).wf(),
            final(self).cap() == old(self).cap(),
            final(self).entries_view() == keep_last(
                old(self).entries_view().push(EventEntry { timestamp, event }),
                old(self).cap(),
            ),
    {
        let ghost pushed = self.entries@.push(EventEntry { timestamp, event });
        self.entries.push(EventEntry { timestamp, event });
        if self.entries.len() > self.capacity {
            self.entries.remove(0);
            assert(self.entries@ =~= keep_last(pushed, self.capacity as nat));
        }
    }

    /// The last `count` entries (all of them when there are fewer), oldest first.
    pub fn get_recent_events(&self, count: usize) -> (r: Vec<EventEntry>)
        requires
            self.wf(),
        ensures
            r@ == keep_last(self.entries_view(), count as nat),
    {
        let n = self.entries.len();
        let start: usize = if n > count { n - count } else { 0 };
        let mut r: Vec<EventEntry> = Vec::new();
        let mut i: usize = start;
        while i < n
            invariant
                start <= i <= n,
                n == self.entries@.len(),
                r@ == self.entries@.subrange(start as int, i as int),
            decreases n - i,
        {
            r.push(self.entries[i].duplicate());
            i = i + 1;
            assert(r@ =~= self.entries@.subrange(start as int, i as int));
        }
        assert(r@ =~= keep_last(self.entries_view(), count as nat));
        r
    }

    /// How many entries the log holds.
    pub fn len(&self) -> (r: usize)
        ensures
            r == self.entries_view().len(),
    {
        self.entries.len()
    }

    /// Drops every entry.
    pub fn clear(&mut self)
        requires
            old(self).wf(),
        ensures
            final(self).wf(),
            final(self).cap() == old(self).cap(),
            final(self).entries_view() == Seq::<EventEntry>::empty(),
    {
        self.entries = Vec::new();
    }
}

} // verus!
