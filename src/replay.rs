//! Recording the event stream and releasing it again on a scaled timeline.
//!
//! Times are milliseconds. A replay speed is given in thousandths: 1000 replays
//! in real time, 2000 twice as fast, 500 at half speed.
use vstd::prelude::*;
use crate::event::{BrowserEvent, EventEntry};

verus! {

/// The speed that replays in real time.
pub const REAL_TIME: u64 = 1000;

/// How far after the first entry an entry stands, in recorded time.
pub open spec fn offset(timestamp: u64, first: u64) -> nat {
    if timestamp >= first { (timestamp - first) as nat } else { 0 }
}

/// How long replay has run at `now`, from `anchor`.
pub open spec fn elapsed(now: u64, anchor: u64) -> nat {
    if now >= anchor { (now - anchor) as nat } else { 0 }
}

/// Whether an entry `off` after the first is due once `elapsed` has passed at
/// `speed` thousandths: `elapsed >= off * 1000 / speed`, without division.
pub open spec fn is_due(off: nat, elapsed: nat, speed: nat) -> bool {
    elapsed * speed >= off * REAL_TIME
}

/// At real-time speed an entry is due exactly once its recorded offset has passed.
pub proof fn lemma_real_time_pacing(off: nat, elapsed: nat)
    ensures
        is_due(off, elapsed, REAL_TIME as nat) == (elapsed >= off),
{
    assert(elapsed * 1000 >= off * 1000 <==> elapsed >= off) by (nonlinear_arith);
}

/// At double speed an entry is due after half the wall-clock time that it needs
/// at real-time speed.
pub proof fn lemma_double_speed_halves_wait(off: nat, elapsed: nat)
    ensures
        is_due(off, elapsed, 2 * REAL_TIME as nat) == is_due(off, 2 * elapsed, REAL_TIME as nat),
{
    assert(elapsed * 2000 == (2 * elapsed) * 1000) by (nonlinear_arith);
}

/// Once due, an entry stays due as time goes on.
pub proof fn lemma_due_stays_due(off: nat, e1: nat, e2: nat, speed: nat)
    requires
        e1 <= e2,
        is_due(off, e1, speed),
    ensures
        is_due(off, e2, speed),
{
    assert(e1 * speed <= e2 * speed) by (nonlinear_arith)
        requires e1 <= e2;
}

/// Appends the events it is handed, while it records.
pub struct EventRecorder {
    entries: Vec<EventEntry>,
    recording: bool,
    save_path: Option<String>,
}

impl EventRecorder {
    pub closed spec fn entries_view(&self) -> Seq<EventEntry> {
        self.entries@
    }

    pub closed spec fn is_on(&self) -> bool {
        self.recording
    }

    pub closed spec fn path(&self) -> Option<Seq<char>> {
        match self.save_path {
            Some(p) => Some(p@),
            None => None,
        }
    }

    /// A stopped recorder with nothing recorded.
    pub fn new() -> (r: Self)
        ensures
            r.entries_view() == Seq::<EventEntry>::empty(),
            !r.is_on(),
            r.path() == None::<Seq<char>>,
    {
        EventRecorder { entries: Vec::new(), recording: false, save_path: None }
    }

    /// Sets where the recording is to be saved.
    pub fn set_save_path(&mut self, path: &str)
        ensures
            final(self).path() == Some(path@),
            final(self).entries_view() == old(self).entries_view(),
            final(self).is_on() == old(self).is_on(),
    {
        self.save_path = Some(path.to_owned());
    }

    /// Where the recording is to be saved, if set.
    pub fn save_path(&self) -> (r: Option<&String>)
        ensures
            r is None <==> self.path() is None,
            r matches Some(p) ==> self.path() == Some(p@),
    {
        match &self.save_path {
            Some(p) => Some(p),
            None => None,
        }
    }

    /// Starts appending events.
    pub fn start(&mut self)
        ensures
            final(self).is_on(),
            final(self).entries_view() == old(self).entries_view(),
            final(self).path() == old(self).path(),
    {
        self.recording = true;
    }

    /// Stops appending events; what was recorded stays.
    pub fn stop(&mut self)
        ensures
            !final(self).is_on(),
            final(self).entries_view() == old(self).entries_view(),
            final(self).path() == old(self).path(),
    {
        self.recording = false;
    }

    /// Whether events are being appended.
    pub fn is_recording(&self) -> (r: bool)
        ensures
            r == self.is_on(),
    {
        self.recording
    }

    /// Appends `event` stamped with `timestamp` while recording; otherwise does
    /// nothing.
    pub fn record_event(&mut self, event: BrowserEvent, timestamp: u64)
        ensures
            final(self).is_on() == old(self).is_on(),
            final(self).path() == old(self).path(),
            final(self).entries_view() == (if old(self).is_on() {
                old(self).entries_view().push(EventEntry { timestamp, event })
            } else {
                old(self).entries_view()
            }),
    {
        if self.recording {
            self.entries.push(EventEntry { timestamp, event });
        }
    }

    /// What has been recorded, oldest first.
    pub fn entries(&self) -> (r: &[EventEntry])
        ensures
            r@ == self.entries_view(),
    {
        self.entries.as_slice()
    }
}

/// Releases loaded entries in order once their scaled offset has passed.
pub struct EventPlayer {
    entries: Vec<EventEntry>,
    cursor: usize,
    anchor: u64,
    speed: u64,
    playing: bool,
}

impl EventPlayer {
    pub closed spec fn entries_view(&self) -> Seq<EventEntry> {
        self.entries@
    }

    /// How many entries have been released.
    pub closed spec fn released(&self) -> nat {
        self.cursor as nat
    }

    /// When replay began, in milliseconds.
    pub closed spec fn began(&self) -> u64 {
        self.anchor
    }

    pub closed spec fn speed_view(&self) -> nat {
        self.speed as nat
    }

    pub closed spec fn is_on(&self) -> bool {
        self.playing
    }

    pub open spec fn wf(&self) -> bool {
        self.released() <= self.entries_view().len() && self.speed_view() > 0
    }

    /// Whether the next entry is due at `now`.
    pub open spec fn next_due(&self, now: u64) -> bool {
        &&& self.is_on()
        &&& self.released() < self.entries_view().len()
        &&& is_due(
            offset(self.entries_view()[self.released() as int].timestamp, self.entries_view()[0].timestamp),
            elapsed(now, self.began()),
            self.speed_view(),
        )
    }

    /// A stopped player with nothing loaded, at real-time speed.
    pub fn new() -> (r: Self)
        ensures
            r.wf(),
            r.entries_view() == Seq::<EventEntry>::empty(),
            r.released() == 0,
            r.speed_view() == REAL_TIME,
            !r.is_on(),
    {
        EventPlayer { entries: Vec::new(), cursor: 0, anchor: 0, speed: REAL_TIME, playing: false }
    }

    /// Takes `entries` as the log to replay, from its start, with replay taken to
    /// begin at `now`.
    pub fn load(&mut self, entries: Vec<EventEntry>, now: u64)
        requires
            old(self).wf(),
        ensures
            final(self).wf(),
            final(self).entries_view() == entries@,
            final(self).released() == 0,
            final(self).began() == now,
            final(self).speed_view() == old(self).speed_view(),
            final(self).is_on() == old(self).is_on(),
    {
        self.entries = entries;
        self.cursor = 0;
        self.anchor = now;
    }

    /// Sets the speed, in thousandths of real time; zero is refused and changes
    /// nothing.
    pub fn set_speed(&mut self, speed: u64) -> (r: bool)
        requires
            old(self).wf(),
        ensures
            final(self).wf(),
            r == (speed > 0),
            final(self).speed_view() == (if r { speed as nat } else { old(self).speed_view() }),
            final(self).entries_view() == old(self).entries_view(),
            final(self).released() == old(self).released(),
            final(self).began() == old(self).began(),
            final(self).is_on() == old(self).is_on(),
    {
        if speed > 0 {
            self.speed = speed;
            true
        } else {
            false
        }
    }

    /// The speed, in thousandths of real time.
    pub fn speed(&self) -> (r: u64)
        ensures
            r == self.speed_view(),
    {
        self.speed
    }

    /// Lets `next_event` release entries.
    pub fn start(&mut self)
        requires
            old(self).wf(),
        ensures
            final(self).wf(),
            final(self).is_on(),
            final(self).entries_view() == old(self).entries_view(),
            final(self).released() == old(self).released(),
            final(self).began() == old(self).began(),
            final(self).speed_view() == old(self).speed_view(),
    {
        self.playing = true;
    }

    /// Stops releasing entries; the position is kept.
    pub fn stop(&mut self)
        requires
            old(self).wf(),
        ensures
            final(self).wf(),
            !final(self).is_on(),
            final(self).entries_view() == old(self).entries_view(),
            final(self).released() == old(self).released(),
            final(self).began() == old(self).began(),
            final(self).speed_view() == old(self).speed_view(),
    {
        self.playing = false;
    }

    /// Whether entries are being released.
    pub fn is_playing(&self) -> (r: bool)
        ensures
            r == self.is_on(),
    {
        self.playing
    }

    /// Whether every entry has been released.
    pub fn is_finished(&self) -> (r: bool)
        requires
            self.wf(),
        ensures
            r == (self.released() == self.entries_view().len()),
    {
        self.cursor == self.entries.len()
    }

    /// Releases the next entry when it is due at `now`, and otherwise nothing.
    /// Entries come out in order, each once.
    pub fn next_event(&mut self, now: u64) -> (r: Option<EventEntry>)
        requires
            old(self).wf(),
        ensures
            final(self).wf(),
            r is Some == old(self).next_due(now),
            r matches Some(e) ==> e == old(self).entries_view()[old(self).released() as int]
                && final(self).released() == old(self).released() + 1,
            r is None ==> final(self).released() == old(self).released(),
            final(self).entries_view() == old(self).entries_view(),
            final(self).began() == old(self).began(),
            final(self).speed_view() == old(self).speed_view(),
            final(self).is_on() == old(self).is_on(),
    {
        if !self.playing || self.cursor >= self.entries.len() {
            return None;
        }
        let first = self.entries[0].timestamp;
        let ts = self.entries[self.cursor].timestamp;
        let off: u64 = if ts >= first { ts - first } else { 0 };
        let el: u64 = if now >= self.anchor { now - self.anchor } else { 0 };
        proof {
            let a = el as int;
            let b = self.speed as int;
            assert(a * b <= u128::MAX) by (nonlinear_arith)
                requires 0 <= a <= u64::MAX, 0 <= b <= u64::MAX;
            let c = off as int;
            assert(c * 1000 <= u128::MAX) by (nonlinear_arith)
                requires 0 <= c <= u64::MAX;
        }
        let lhs: u128 = (el as u128) * (self.speed as u128);
        let rhs: u128 = (off as u128) * (REAL_TIME as u128);
        if lhs >= rhs {
            let e = self.entries[self.cursor].duplicate();
            self.cursor = self.cursor + 1;
            Some(e)
        } else {
            None
        }
    }
}

} // verus!
