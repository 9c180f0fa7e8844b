//! Bounded multi-reader broadcast log of child output.
//!
//! The history keeps the most recent entries in a ring of configured
//! capacity. Every entry ever evicted bumps a monotonic `offset`, so an
//! entry's absolute position (`offset` + position in the ring) never
//! changes. Readers keep a cursor of absolute positions; a cursor that
//! falls behind `offset` is clamped forward, silently skipping evicted
//! entries.

use vstd::prelude::*;
use std::collections::VecDeque;
use crate::options::Options;

verus! {

/// One record in the history log: a chunk of child output, a control
/// frame, or an informational notice for connected clients.
#[derive(Debug, PartialEq)]
pub enum HistoryLine {
    Child { message: Vec<u8> },
    Command { message: Vec<u8> },
    Info { message: Vec<u8> },
}

impl HistoryLine {
    /// The bytes a reader receives for this entry, whatever its kind.
    pub open spec fn payload(self) -> Seq<u8> {
        match self {
            HistoryLine::Child { message } => message@,
            HistoryLine::Command { message } => message@,
            HistoryLine::Info { message } => message@,
        }
    }
}

/// One step of the ring discipline: append a payload, evicting the
/// oldest entry (and counting it in the offset) when the ring is full.
pub open spec fn ring_push(
    state: (Seq<Seq<u8>>, nat),
    cap: nat,
    payload: Seq<u8>,
) -> (Seq<Seq<u8>>, nat) {
    if state.0.len() >= cap {
        (state.0.drop_first().push(payload), (state.1 + 1) as nat)
    } else {
        (state.0.push(payload), state.1)
    }
}

/// The ring state after pushing a whole sequence of payloads in order.
pub open spec fn ring_push_all(
    state: (Seq<Seq<u8>>, nat),
    cap: nat,
    payloads: Seq<Seq<u8>>,
) -> (Seq<Seq<u8>>, nat)
    decreases payloads.len(),
{
    if payloads.len() == 0 {
        state
    } else {
        ring_push_all(ring_push(state, cap, payloads.first()), cap, payloads.drop_first())
    }
}

/// Law: however many payloads are pushed, the ring never holds more than
/// `cap` entries, and the offset always equals the number of pushes ever
/// made minus the number of entries still held.
pub proof fn lemma_ring_bounded(state: (Seq<Seq<u8>>, nat), cap: nat, payloads: Seq<Seq<u8>>)
    requires
        cap >= 1,
        state.0.len() <= cap,
    ensures
        ring_push_all(state, cap, payloads).0.len() <= cap,
        ring_push_all(state, cap, payloads).1 + ring_push_all(state, cap, payloads).0.len()
            == state.1 + state.0.len() + payloads.len(),
    decreases payloads.len(),
{
    if payloads.len() > 0 {
        lemma_ring_bounded(ring_push(state, cap, payloads.first()), cap, payloads.drop_first());
    }
}

/// Law: starting from an empty ring, however many pushes are made and
/// however far they exceed the capacity, the ring holds at most `cap`
/// entries and the offset equals the number of pushes minus the number
/// of entries still retained.
pub proof fn lemma_ring_offset_counts_evictions(cap: nat, payloads: Seq<Seq<u8>>)
    requires
        cap >= 1,
    ensures
        ring_push_all((Seq::empty(), 0nat), cap, payloads).0.len() <= cap,
        ring_push_all((Seq::empty(), 0nat), cap, payloads).1 == payloads.len() - ring_push_all(
            (Seq::empty(), 0nat),
            cap,
            payloads,
        ).0.len(),
{
    lemma_ring_bounded((Seq::empty(), 0nat), cap, payloads);
}

/// The bounded broadcast log, with the count of evicted entries.
pub struct History {
    buffers: VecDeque<HistoryLine>,
    histsize: usize,
    offset: usize,
}

impl History {
    /// The payloads currently retained, oldest first.
    pub closed spec fn entries(self) -> Seq<Seq<u8>> {
        self.buffers@.map_values(|line: HistoryLine| line.payload())
    }

    /// How many entries were ever evicted: the absolute position of the
    /// oldest retained entry.
    pub closed spec fn offset(self) -> nat {
        self.offset as nat
    }

    /// The configured bound on how many entries are retained.
    pub closed spec fn capacity(self) -> nat {
        self.histsize as nat
    }

    /// The absolute position one past the newest entry: the number of
    /// entries ever pushed.
    pub open spec fn total(self) -> nat {
        self.offset() + self.entries().len()
    }

    pub open spec fn wf(self) -> bool {
        &&& self.capacity() >= 1
        &&& self.entries().len() <= self.capacity()
        &&& self.offset() + self.entries().len() <= usize::MAX
    }

    /// The payload at absolute position `j`, for `offset() <= j < total()`.
    pub open spec fn entry_at(self, j: int) -> Seq<u8> {
        self.entries()[j - self.offset()]
    }

    /// The retained entries at absolute positions `index` and beyond:
    /// what a reader with cursor `index` observes. A cursor behind the
    /// offset is clamped forward; one at or past the live end sees
    /// nothing.
    pub open spec fn entries_from(self, index: nat) -> Seq<Seq<u8>> {
        let rel = if index <= self.offset() {
            0
        } else if index >= self.total() {
            self.entries().len() as int
        } else {
            index - self.offset()
        };
        self.entries().skip(rel)
    }

    /// `later` is the same log observed after zero or more pushes: the
    /// offset and the live end only grow, and every position retained in
    /// both snapshots holds the same payload.
    pub open spec fn extends(self, earlier: History) -> bool {
        &&& self.capacity() == earlier.capacity()
        &&& self.offset() >= earlier.offset()
        &&& self.total() >= earlier.total()
        &&& forall|j: int|
            self.offset() <= j && earlier.offset() <= j && j < earlier.total()
                ==> self.entry_at(j) == earlier.entry_at(j)
    }

    /// Creates an empty history with the configured capacity.
    pub fn new(options: &Options) -> (r: History)
        requires
            options.history_size >= 1,
        ensures
            r.wf(),
            r.entries() == Seq::<Seq<u8>>::empty(),
            r.offset() == 0,
            r.capacity() == options.history_size,
    {
        let r = History {
            buffers: VecDeque::with_capacity(options.history_size),
            histsize: options.history_size,
            offset: 0,
        };
        proof {
            assert(r.entries() =~= Seq::<Seq<u8>>::empty());
        }
        r
    }

    /// Appends an entry, evicting the oldest one first when the ring is
    /// full. The new state is exactly one `ring_push` step.
    pub fn push(&mut self, line: HistoryLine)
        requires
            old(self).wf(),
            old(self).total() < usize::MAX,
        ensures
            final(self).wf(),
            final(self).capacity() == old(self).capacity(),
            (final(self).entries(), final(self).offset()) == ring_push(
                (old(self).entries(), old(self).offset()),
                old(self).capacity(),
                line.payload(),
            ),
            final(self).total() == old(self).total() + 1,
            final(self).extends(*old(self)),
    {
        let ghost payload = line.payload();
        let ghost pre = *self;
        if self.buffers.len() >= self.histsize {
            let _ = self.buffers.pop_front();
            self.offset = self.offset + 1;
            proof {
                assert(self.entries() =~= pre.entries().drop_first());
            }
        }
        let ghost mid = *self;
        self.buffers.push_back(line);
        proof {
            assert(self.entries() =~= mid.entries().push(payload));
            if pre.entries().len() >= pre.capacity() {
                assert(self.entries() =~= pre.entries().drop_first().push(payload));
            } else {
                assert(self.entries() =~= pre.entries().push(payload));
            }
        }
    }

    /// The minimum valid reader cursor: the absolute position of the
    /// oldest retained entry.
    pub fn get_offset(&self) -> (r: usize)
        ensures
            r == self.offset(),
    {
        self.offset
    }

    /// The absolute position one past the newest entry, where a freshly
    /// created reader starts.
    pub fn end(&self) -> (r: usize)
        requires
            self.wf(),
        ensures
            r == self.total(),
    {
        self.offset + self.buffers.len()
    }

    /// Concatenates the payloads of every retained entry at absolute
    /// position `index` or later, in push order.
    pub fn get_from(&self, index: usize) -> (r: Vec<u8>)
        requires
            self.wf(),
        ensures
            r@ == self.entries_from(index as nat).flatten(),
    {
        let rel_unclamped: usize = if index <= self.offset {
            0
        } else {
            index - self.offset
        };
        let len = self.buffers.len();
        let rel: usize = if rel_unclamped > len {
            len
        } else {
            rel_unclamped
        };
        let ghost rel0 = rel as int;
        let mut out: Vec<u8> = Vec::new();
        let mut i: usize = rel;
        proof {
            assert(self.entries().subrange(rel0, rel0).flatten() =~= Seq::<u8>::empty());
        }
        while i < len
            invariant
                rel <= i <= len,
                rel0 == rel as int,
                len == self.buffers@.len(),
                self.wf(),
                out@ == self.entries().subrange(rel0, i as int).flatten(),
            decreases len - i,
        {
            let ghost pre_out = out@;
            let line = &self.buffers[i];
            let message = match line {
                HistoryLine::Child { message } => message,
                HistoryLine::Command { message } => message,
                HistoryLine::Info { message } => message,
            };
            proof {
                assert(message@ == self.entries()[i as int]);
            }
            let mut j: usize = 0;
            while j < message.len()
                invariant
                    j <= message@.len(),
                    out@ == pre_out + message@.take(j as int),
                decreases message@.len() - j,
            {
                out.push(message[j]);
                proof {
                    assert(pre_out + message@.take(j as int + 1) =~= (pre_out + message@.take(
                        j as int,
                    )).push(message@[j as int]));
                }
                j = j + 1;
            }
            proof {
                assert(message@.take(message@.len() as int) =~= message@);
                assert(self.entries().subrange(rel0, i as int + 1) =~= self.entries().subrange(
                    rel0,
                    i as int,
                ).push(self.entries()[i as int]));
                self.entries().subrange(rel0, i as int).lemma_flatten_push(
                    self.entries()[i as int],
                );
            }
            i = i + 1;
        }
        proof {
            assert(self.entries().subrange(rel0, len as int) =~= self.entries_from(index as nat));
        }
        out
    }
}

/// A per-connection cursor over the history: a freshly created reader
/// starts at the live end and thereafter observes every newer entry
/// exactly once, in push order.
pub struct HistoryReader {
    index: usize,
}

impl HistoryReader {
    /// The absolute position of the next entry this reader will observe.
    pub closed spec fn cursor(self) -> nat {
        self.index as nat
    }

    /// Creates a reader positioned at the live end: it never observes
    /// entries pushed before its creation.
    pub fn new(history: &History) -> (r: HistoryReader)
        requires
            history.wf(),
        ensures
            r.cursor() == history.total(),
    {
        HistoryReader { index: history.end() }
    }

    /// Observes everything pushed since the last poll: returns the
    /// concatenated payloads of the entries at this cursor and beyond
    /// and advances the cursor to the live end. Returns `None` — the
    /// caller should suspend until the next push — when those payloads
    /// hold no bytes.
    pub fn poll(&mut self, history: &History) -> (r: Option<Vec<u8>>)
        requires
            history.wf(),
        ensures
            final(self).cursor() == history.total(),
            history.entries_from(old(self).cursor()).flatten().len() > 0 ==> (r matches Some(bytes)
                && bytes@ == history.entries_from(old(self).cursor()).flatten()),
            history.entries_from(old(self).cursor()).flatten().len() == 0 ==> r is None,
    {
        let bytes = history.get_from(self.index);
        self.index = history.end();
        if bytes.len() > 0 {
            Some(bytes)
        } else {
            None
        }
    }
}

/// Law: reads compose without loss or repetition. If a reader consumed
/// the range up to `earlier`'s live end and reads again after the log
/// has grown to `later` — with nothing evicted past the old live end —
/// the two observations together hold the payload of every absolute
/// position from the first cursor to the new live end exactly once, in
/// push order.
/// Law: a reader never replays. Whatever was pushed or evicted
/// meanwhile, everything a reader with a given cursor observes sits at
/// an absolute position at or past that cursor — never an entry from
/// before the position it started at.
pub proof fn lemma_reader_never_replays(h: History, cursor: nat)
    requires
        h.wf(),
    ensures
        ({
            let start = if cursor <= h.offset() {
                h.offset() as int
            } else {
                cursor as int
            };
            let observed = h.entries_from(cursor);
            &&& forall|k: int| 0 <= k < observed.len() ==> observed[k] == h.entry_at(start + k)
            &&& start >= cursor
        }),
{
    let observed = h.entries_from(cursor);
    assert forall|k: int| 0 <= k < observed.len() implies observed[k] == h.entry_at(
        (if cursor <= h.offset() {
            h.offset() as int
        } else {
            cursor as int
        }) + k,
    ) by {
        if cursor <= h.offset() {
            assert(observed[k] == h.entries()[k]);
        } else {
            assert(observed[k] == h.entries()[cursor - h.offset() + k]);
        }
    }
}

/// Law: a reader created at the live end never observes an entry pushed
/// before its creation. With nothing evicted past that point, what it
/// observes once the log has grown are exactly the entries at the
/// positions from its starting cursor to the new live end, each once, in
/// push order.
pub proof fn lemma_fresh_reader_sees_only_new_entries(earlier: History, later: History)
    requires
        earlier.wf(),
        later.wf(),
        later.extends(earlier),
        later.offset() <= earlier.total(),
    ensures
        ({
            let observed = later.entries_from(earlier.total());
            &&& observed.len() == later.total() - earlier.total()
            &&& forall|k: int|
                0 <= k < observed.len() ==> observed[k] == later.entry_at(earlier.total() + k)
        }),
{
    let observed = later.entries_from(earlier.total());
    assert forall|k: int| 0 <= k < observed.len() implies observed[k] == later.entry_at(
        earlier.total() + k,
    ) by {
        assert(observed[k] == later.entries()[earlier.total() - later.offset() + k]);
    }
}

pub proof fn lemma_reads_compose(earlier: History, later: History, cursor: nat)
    requires
        earlier.wf(),
        later.wf(),
        later.extends(earlier),
        earlier.offset() <= cursor <= earlier.total(),
        later.offset() <= earlier.total(),
    ensures
        ({
            let first = earlier.entries_from(cursor);
            let second = later.entries_from(earlier.total());
            let combined = first + second;
            &&& combined.len() == later.total() - cursor
            &&& forall|j: int|
                cursor <= j < earlier.total() ==> combined[j - cursor] == earlier.entry_at(j)
            &&& forall|j: int|
                earlier.total() <= j < later.total() ==> combined[j - cursor] == later.entry_at(j)
        }),
{
    let first = earlier.entries_from(cursor);
    let second = later.entries_from(earlier.total());
    if cursor == earlier.offset() {
        assert(first =~= earlier.entries().skip(0));
    }
    assert(first.len() == earlier.total() - cursor);
    if earlier.total() >= later.total() {
        assert(second.len() == later.total() - earlier.total());
    } else {
        assert(second.len() == later.total() - earlier.total());
    }
    assert forall|j: int| cursor <= j < earlier.total() implies (first + second)[j - cursor]
        == earlier.entry_at(j) by {
        assert(first[j - cursor] == earlier.entries()[j - earlier.offset()]);
    }
    assert forall|j: int| earlier.total() <= j < later.total() implies (first + second)[j - cursor]
        == later.entry_at(j) by {
        assert(second[j - earlier.total()] == later.entries()[j - later.offset()]);
    }
}

} // verus!
