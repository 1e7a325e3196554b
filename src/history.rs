//! The bounded connection log: newest entries kept, oldest evicted first.

use vstd::prelude::*;
use crate::text::same_text;

verus! {

/// Most entries the log keeps.
pub const HISTORY_CAPACITY: usize = 100;

/// How a connection attempt ended.
#[derive(Clone, Copy, Debug, PartialEq, Eq, Structural)]
pub enum Status {
    /// The transport produced a result (a response, or an exit status of 0).
    Success,
    /// The transport ran and reported that it did not succeed.
    Failed,
    /// The transport could not even be started.
    Error,
}

impl Status {
    pub open spec fn tag_spec(self) -> Seq<char> {
        match self {
            Status::Success => "SUCCESS"@,
            Status::Failed => "FAILED"@,
            Status::Error => "ERROR"@,
        }
    }

    /// The tag written to the log for this status.
    pub fn tag(&self) -> (r: &'static str)
        ensures
            r@ == self.tag_spec(),
    {
        match self {
            Status::Success => "SUCCESS",
            Status::Failed => "FAILED",
            Status::Error => "ERROR",
        }
    }

    /// The status that a log tag names, `None` where it names none.
    pub fn from_tag(tag: &str) -> (r: Option<Status>)
        ensures
            match r {
                Some(st) => st.tag_spec() == tag@,
                None => forall|st: Status| #[trigger] st.tag_spec() != tag@,
            },
    {
        if same_text(tag, "SUCCESS") {
            Some(Status::Success)
        } else if same_text(tag, "FAILED") {
            Some(Status::Failed)
        } else if same_text(tag, "ERROR") {
            Some(Status::Error)
        } else {
            None
        }
    }
}

/// One record of a past connection attempt.
#[derive(Clone, Debug)]
pub struct HistoryEntry {
    /// When the attempt was logged, in milliseconds since the Unix epoch (UTC).
    pub timestamp_ms: i64,
    /// The transport's tag, such as `HTTP` or `TELNET`.
    pub connection_type: String,
    pub target: String,
    pub status: Status,
    pub duration_ms: u64,
}

/// What an entry holds, as plain values.
pub struct HistoryEntryView {
    pub timestamp_ms: int,
    pub connection_type: Seq<char>,
    pub target: Seq<char>,
    pub status: Status,
    pub duration_ms: nat,
}

impl View for HistoryEntry {
    type V = HistoryEntryView;

    open spec fn view(&self) -> HistoryEntryView {
        HistoryEntryView {
            timestamp_ms: self.timestamp_ms as int,
            connection_type: self.connection_type@,
            target: self.target@,
            status: self.status,
            duration_ms: self.duration_ms as nat,
        }
    }
}

impl HistoryEntry {
    /// A field-by-field copy.
    pub fn copied(&self) -> (r: HistoryEntry)
        ensures
            r@ == self@,
    {
        HistoryEntry {
            timestamp_ms: self.timestamp_ms,
            connection_type: self.connection_type.clone(),
            target: self.target.clone(),
            status: self.status,
            duration_ms: self.duration_ms,
        }
    }
}

/// The last `HISTORY_CAPACITY` items of `s`, in their order.
pub open spec fn newest<A>(s: Seq<A>) -> Seq<A> {
    if s.len() > HISTORY_CAPACITY {
        s.skip(s.len() - HISTORY_CAPACITY)
    } else {
        s
    }
}

/// The log after appending `e` to `h`: the oldest entry leaves when the log
/// would grow past its capacity.
pub open spec fn appended<A>(h: Seq<A>, e: A) -> Seq<A> {
    if h.len() + 1 > HISTORY_CAPACITY {
        h.push(e).drop_first()
    } else {
        h.push(e)
    }
}

/// The log after appending each of `es` in turn to `h`.
pub open spec fn appended_all<A>(h: Seq<A>, es: Seq<A>) -> Seq<A>
    decreases es.len(),
{
    if es.len() == 0 {
        h
    } else {
        appended(appended_all(h, es.drop_last()), es.last())
    }
}

/// The last `n` items of `s`, newest first; all of them where `n` exceeds the length.
pub open spec fn newest_first<A>(s: Seq<A>, n: nat) -> Seq<A> {
    let k = if n < s.len() { n as int } else { s.len() as int };
    Seq::new(k as nat, |i: int| s[s.len() - 1 - i])
}

/// Appending one entry at a time keeps exactly the newest `HISTORY_CAPACITY`
/// of the old entries and the new ones together, in order: the length after
/// each append is the smaller of the count so far and the capacity, and the
/// entries that leave are always the oldest.
pub proof fn lemma_appended_all_keeps_newest<A>(h: Seq<A>, es: Seq<A>)
    requires
        h.len() <= HISTORY_CAPACITY,
    ensures
        appended_all(h, es) == newest(h + es),
        appended_all(h, es).len() == if h.len() + es.len() < HISTORY_CAPACITY {
            h.len() + es.len()
        } else {
            HISTORY_CAPACITY as nat
        },
    decreases es.len(),
{
    if es.len() == 0 {
        assert(h + es =~= h);
    } else {
        let prev = es.drop_last();
        lemma_appended_all_keeps_newest(h, prev);
        let s = h + prev;
        assert(h + es =~= s.push(es.last()));
        let t = newest(s);
        if s.len() >= HISTORY_CAPACITY {
            assert(t.push(es.last()).drop_first() =~= newest(s.push(es.last())));
        } else {
            assert(t.push(es.last()) =~= newest(s.push(es.last())));
        }
    }
}

/// Starting from an empty log, any run of appends leaves the newest entries,
/// at most `HISTORY_CAPACITY` of them.
pub proof fn lemma_record_from_empty<A>(es: Seq<A>)
    ensures
        appended_all(Seq::<A>::empty(), es) == newest(es),
{
    lemma_appended_all_keeps_newest(Seq::<A>::empty(), es);
    assert(Seq::<A>::empty() + es =~= es);
}

/// Asking for no entries gives none; asking for more than there are gives them
/// all, newest first; and every answer lists the newest entries in reverse order.
pub proof fn lemma_newest_first_bounds<A>(s: Seq<A>, n: nat)
    ensures
        newest_first(s, 0) == Seq::<A>::empty(),
        n >= s.len() ==> newest_first(s, n) == s.reverse(),
        newest_first(s, n) == s.skip(s.len() - newest_first(s, n).len()).reverse(),
{
    assert(newest_first(s, 0) =~= Seq::<A>::empty());
    if n >= s.len() {
        assert(newest_first(s, n) =~= s.reverse());
    }
    let k = newest_first(s, n).len();
    assert(newest_first(s, n) =~= s.skip(s.len() - k).reverse());
}

/// The connection log, oldest entry first.
pub struct ConnectionHistory {
    entries: Vec<HistoryEntry>,
}

impl View for ConnectionHistory {
    type V = Seq<HistoryEntryView>;

    closed spec fn view(&self) -> Seq<HistoryEntryView> {
        self.entries@.map_values(|e: HistoryEntry| e@)
    }
}

impl ConnectionHistory {
    /// The log never holds more than its capacity.
    pub open spec fn wf(&self) -> bool {
        self@.len() <= HISTORY_CAPACITY
    }

    /// An empty log.
    pub fn new() -> (r: ConnectionHistory)
        ensures
            r.wf(),
            r@ == Seq::<HistoryEntryView>::empty(),
    {
        let r = ConnectionHistory { entries: Vec::new() };
        assert(r@ =~= Seq::<HistoryEntryView>::empty());
        r
    }

    /// A log holding the newest of `entries` (oldest first), as many as it can keep.
    pub fn from_entries(entries: Vec<HistoryEntry>) -> (r: ConnectionHistory)
        ensures
            r.wf(),
            r@ == newest(entries@.map_values(|e: HistoryEntry| e@)),
    {
        let mut entries = entries;
        let ghost given = entries@;
        if entries.len() > HISTORY_CAPACITY {
            let excess = entries.len() - HISTORY_CAPACITY;
            let rest = entries.split_off(excess);
            entries = rest;
            assert(entries@ == given.skip(excess as int));
        }
        let r = ConnectionHistory { entries };
        assert(r@ =~= newest(given.map_values(|e: HistoryEntry| e@)));
        r
    }

    pub fn len(&self) -> (r: usize)
        ensures
            r == self@.len(),
    {
        self.entries.len()
    }

    pub fn is_empty(&self) -> (r: bool)
        ensures
            r == (self@.len() == 0),
    {
        self.entries.len() == 0
    }

    /// The entries, oldest first.
    pub fn entries(&self) -> (r: &Vec<HistoryEntry>)
        ensures
            r@.map_values(|e: HistoryEntry| e@) == self@,
    {
        &self.entries
    }

    /// Appends `entry`; where that takes the log past its capacity, the oldest
    /// entry leaves.
    pub fn record(&mut self, entry: HistoryEntry)
        requires
            old(self).wf(),
        ensures
            final(self).wf(),
            final(self)@ == appended(old(self)@, entry@),
    {
        let ghost before = self@;
        self.entries.push(entry);
        if self.entries.len() > HISTORY_CAPACITY {
            self.entries.remove(0);
            assert(self@ =~= before.push(entry@).drop_first());
        } else {
            assert(self@ =~= before.push(entry@));
        }
    }

    /// The last `n` entries, newest first; all of them where `n` exceeds the length.
    pub fn recent(&self, n: usize) -> (r: Vec<HistoryEntry>)
        ensures
            r@.map_values(|e: HistoryEntry| e@) == newest_first(self@, n as nat),
    {
        let len = self.entries.len();
        let k: usize = if n < len { n } else { len };
        let mut out: Vec<HistoryEntry> = Vec::new();
        let mut i: usize = 0;
        while i < k
            invariant
                k <= len == self.entries@.len(),
                k == if n < len { n } else { len },
                i <= k,
                out@.len() == i,
                forall|j: int| 0 <= j < i ==> #[trigger] out@[j]@ == self.entries@[len - 1 - j]@,
            decreases k - i,
        {
            out.push(self.entries[len - 1 - i].copied());
            i = i + 1;
        }
        assert(out@.map_values(|e: HistoryEntry| e@) =~= newest_first(self@, n as nat));
        out
    }
}

} // verus!
