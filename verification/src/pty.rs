//! The pseudo-terminal transport: the pure read/write state machines
//! over a non-blocking terminal descriptor.
//!
//! The operating-system calls themselves happen outside the library; the
//! functions here receive each call's outcome as a plain value and keep
//! the bookkeeping honest: a chunk read is handed on unchanged, and a
//! partially written item's unwritten suffix is retained and drained
//! later, so that every accepted byte reaches the child exactly once and
//! in order.

use vstd::prelude::*;
use crate::send_all::HasItem;

verus! {

/// Terminal height in character cells.
#[derive(Debug, Clone, Copy, PartialEq, Eq, Structural)]
pub struct Rows(pub u16);

/// Terminal width in character cells.
#[derive(Debug, Clone, Copy, PartialEq, Eq, Structural)]
pub struct Columns(pub u16);

impl From<u16> for Rows {
    fn from(val: u16) -> (r: Rows) {
        Rows(val)
    }
}

impl vstd::std_specs::convert::FromSpecImpl<u16> for Rows {
    open spec fn obeys_from_spec() -> bool {
        true
    }

    open spec fn from_spec(val: u16) -> Rows {
        Rows(val)
    }
}

impl From<u16> for Columns {
    fn from(val: u16) -> (r: Columns) {
        Columns(val)
    }
}

impl vstd::std_specs::convert::FromSpecImpl<u16> for Columns {
    open spec fn obeys_from_spec() -> bool {
        true
    }

    open spec fn from_spec(val: u16) -> Columns {
        Columns(val)
    }
}

/// What one non-blocking OS write returned: how many of the offered
/// bytes the kernel accepted, a would-block, or a genuine error with its
/// OS code.
pub enum WriteOutcome {
    Wrote(usize),
    WouldBlock,
    Failed(i32),
}

/// What one non-blocking OS read returned: the bytes read (possibly
/// none), a would-block, or a genuine error with its OS code.
pub enum ReadOutcome {
    Data(Vec<u8>),
    WouldBlock,
    Failed(i32),
}

/// What one poll of the child-output stream produces: a chunk of output,
/// nothing for now, or the end of this transport. `Died(None)` is the
/// out-of-band transport-died signal; `Died(Some(code))` is an OS read
/// error. Neither is an end-of-stream: a terminal master never delivers
/// one, so callers must treat `Died` as "the child is gone".
pub enum StreamPoll {
    Chunk(Vec<u8>),
    NotReady,
    Died(Option<i32>),
}

/// Maps the outcome of one non-blocking read, together with the
/// out-of-band died signal, to what the output stream produces: the
/// chunk is handed on unchanged, would-block suspends, and everything
/// else ends the stream.
pub fn pty_stream_poll(done_fired: bool, outcome: ReadOutcome) -> (r: StreamPoll)
    ensures
        done_fired ==> r == StreamPoll::Died(Option::<i32>::None),
        !done_fired ==> match outcome {
            ReadOutcome::Data(bytes) => r == StreamPoll::Chunk(bytes),
            ReadOutcome::WouldBlock => r == StreamPoll::NotReady,
            ReadOutcome::Failed(code) => r == StreamPoll::Died(Some(code)),
        },
{
    if done_fired {
        return StreamPoll::Died(None);
    }
    match outcome {
        ReadOutcome::Data(bytes) => StreamPoll::Chunk(bytes),
        ReadOutcome::WouldBlock => StreamPoll::NotReady,
        ReadOutcome::Failed(code) => StreamPoll::Died(Some(code)),
    }
}

/// A sink error: a genuine OS error, or "this item was not delivered,
/// offer it again" — the latter carries the item back to the caller.
#[derive(Debug)]
pub enum PtySinkError<T> {
    IoError(i32),
    TryAgain(T),
}

impl<T> HasItem<T> for PtySinkError<T> {
    fn item(self) -> (r: Option<T>) {
        match self {
            PtySinkError::TryAgain(item) => Some(item),
            _ => None,
        }
    }
}

/// What `start_send` reports: the item was taken, or it is handed back
/// whole because the sink cannot accept it right now.
pub enum AsyncSink {
    Ready,
    NotReady(Vec<u8>),
}

/// What `poll_complete` reports: the pending buffer is fully flushed, or
/// not yet.
pub enum Async {
    Ready,
    NotReady,
}

/// The write half of the transport. `pending()` holds the unwritten
/// suffix of the last accepted item; `delivered()` records every byte
/// the kernel has accepted, in order, so that the conservation contracts
/// below can say that no byte is lost, duplicated or reordered.
pub struct PtySink {
    buf: Vec<u8>,
    delivered: Ghost<Seq<u8>>,
}

impl PtySink {
    /// The bytes accepted from a submitted item but not yet written to
    /// the descriptor.
    pub closed spec fn pending(self) -> Seq<u8> {
        self.buf@
    }

    /// Every byte the kernel has accepted so far, in order.
    pub closed spec fn delivered(self) -> Seq<u8> {
        self.delivered@
    }

    /// Creates a sink with nothing pending and nothing delivered.
    pub fn new() -> (r: PtySink)
        ensures
            r.pending() == Seq::<u8>::empty(),
            r.delivered() == Seq::<u8>::empty(),
    {
        PtySink { buf: Vec::new(), delivered: Ghost(Seq::empty()) }
    }

    /// Reports whether bytes of an earlier item still wait to be
    /// drained.
    pub fn has_pending(&self) -> (r: bool)
        ensures
            r == (self.pending().len() > 0),
    {
        self.buf.len() > 0
    }

    /// The bytes still waiting to be drained: what the caller's next
    /// flush write must offer the descriptor.
    pub fn pending_bytes(&self) -> (r: &Vec<u8>)
        ensures
            r@ == self.pending(),
    {
        &self.buf
    }

    /// Offers one item to the sink. The caller first attempts one
    /// non-blocking OS write of the item's bytes — unless the item is
    /// empty, the died signal has fired, or bytes are still pending, in
    /// which cases no write is called for and `outcome` is ignored — and
    /// passes what the write returned.
    ///
    /// An empty item is a no-op success. A fired died signal hands the
    /// item back for the next sink incarnation. Pending bytes force
    /// back-pressure: the item comes back whole and must be resubmitted
    /// after draining. Otherwise the kernel's answer decides: any
    /// accepted prefix counts as delivery of the whole item, with the
    /// unwritten suffix retained; would-block hands the item back whole;
    /// an error hands it back for redelivery.
    pub fn start_send(&mut self, item: Vec<u8>, done_fired: bool, outcome: WriteOutcome) -> (r:
        Result<AsyncSink, PtySinkError<Vec<u8>>>)
        requires
            outcome matches WriteOutcome::Wrote(n) ==> n <= item@.len(),
        ensures
            item@.len() == 0 ==> r == Ok::<AsyncSink, PtySinkError<Vec<u8>>>(AsyncSink::Ready)
                && *final(self) == *old(self),
            item@.len() > 0 && done_fired ==> r == Err::<AsyncSink, PtySinkError<Vec<u8>>>(
                PtySinkError::TryAgain(item),
            ) && *final(self) == *old(self),
            item@.len() > 0 && !done_fired && old(self).pending().len() > 0 ==> r == Ok::<
                AsyncSink,
                PtySinkError<Vec<u8>>,
            >(AsyncSink::NotReady(item)) && *final(self) == *old(self),
            item@.len() > 0 && !done_fired && old(self).pending().len() == 0 ==> match outcome {
                WriteOutcome::Wrote(n) => r == Ok::<AsyncSink, PtySinkError<Vec<u8>>>(
                    AsyncSink::Ready,
                ) && final(self).delivered() == old(self).delivered() + item@.take(n as int)
                    && final(self).pending() == item@.skip(n as int),
                WriteOutcome::WouldBlock => r == Ok::<AsyncSink, PtySinkError<Vec<u8>>>(
                    AsyncSink::NotReady(item),
                ) && *final(self) == *old(self),
                WriteOutcome::Failed(code) => r == Err::<AsyncSink, PtySinkError<Vec<u8>>>(
                    PtySinkError::TryAgain(item),
                ) && *final(self) == *old(self),
            },
            r matches Ok(AsyncSink::Ready) ==> final(self).delivered() + final(self).pending()
                == old(self).delivered() + old(self).pending() + item@,
            !(r matches Ok(AsyncSink::Ready)) ==> *final(self) == *old(self),
    {
        let ghost pre = *self;
        if item.len() == 0 {
            proof {
                assert(pre.delivered() + pre.pending() + item@ =~= pre.delivered()
                    + pre.pending());
            }
            return Ok(AsyncSink::Ready);
        }
        if done_fired {
            return Err(PtySinkError::TryAgain(item));
        }
        if self.buf.len() > 0 {
            return Ok(AsyncSink::NotReady(item));
        }
        match outcome {
            WriteOutcome::Wrote(n) => {
                let mut rest: Vec<u8> = Vec::new();
                let mut i: usize = n;
                while i < item.len()
                    invariant
                        n <= i <= item@.len(),
                        rest@ == item@.subrange(n as int, i as int),
                    decreases item@.len() - i,
                {
                    rest.push(item[i]);
                    proof {
                        assert(item@.subrange(n as int, i as int + 1) =~= item@.subrange(
                            n as int,
                            i as int,
                        ).push(item@[i as int]));
                    }
                    i = i + 1;
                }
                self.buf = rest;
                proof {
                    self.delivered@ = pre.delivered() + item@.take(n as int);
                    assert(self.pending() =~= item@.skip(n as int));
                    assert(self.delivered() + self.pending() =~= pre.delivered() + pre.pending()
                        + item@);
                }
                Ok(AsyncSink::Ready)
            },
            WriteOutcome::WouldBlock => Ok(AsyncSink::NotReady(item)),
            WriteOutcome::Failed(_code) => Err(PtySinkError::TryAgain(item)),
        }
    }

    /// Tries to flush the pending suffix. The caller first attempts one
    /// non-blocking OS write of the pending bytes — unless nothing is
    /// pending, in which case no write is called for and `outcome` is
    /// ignored — and passes what the write returned.
    ///
    /// The drained prefix leaves the pending buffer; only a write that
    /// empties it completes the flush. A write of zero bytes, like a
    /// would-block, reports "not ready". Bytes are never lost: what was
    /// delivered plus what is pending is unchanged by this call.
    pub fn poll_complete(&mut self, outcome: WriteOutcome) -> (r: Result<
        Async,
        PtySinkError<Vec<u8>>,
    >)
        requires
            outcome matches WriteOutcome::Wrote(n) ==> n <= old(self).pending().len(),
        ensures
            final(self).delivered() + final(self).pending() == old(self).delivered() + old(
                self,
            ).pending(),
            old(self).pending().len() == 0 ==> r == Ok::<Async, PtySinkError<Vec<u8>>>(
                Async::Ready,
            ) && *final(self) == *old(self),
            old(self).pending().len() > 0 ==> match outcome {
                WriteOutcome::Wrote(n) => final(self).delivered() == old(self).delivered() + old(
                    self,
                ).pending().take(n as int) && final(self).pending() == old(self).pending().skip(
                    n as int,
                ) && r == (if n == old(self).pending().len() {
                    Ok::<Async, PtySinkError<Vec<u8>>>(Async::Ready)
                } else {
                    Ok::<Async, PtySinkError<Vec<u8>>>(Async::NotReady)
                }),
                WriteOutcome::WouldBlock => r == Ok::<Async, PtySinkError<Vec<u8>>>(
                    Async::NotReady,
                ) && *final(self) == *old(self),
                WriteOutcome::Failed(code) => r == Err::<Async, PtySinkError<Vec<u8>>>(
                    PtySinkError::IoError(code),
                ) && *final(self) == *old(self),
            },
    {
        let ghost pre = *self;
        if self.buf.len() == 0 {
            return Ok(Async::Ready);
        }
        match outcome {
            WriteOutcome::Wrote(n) => {
                let orig_len = self.buf.len();
                let mut rest: Vec<u8> = Vec::new();
                let mut i: usize = n;
                while i < orig_len
                    invariant
                        n <= i <= orig_len,
                        orig_len == self.buf@.len(),
                        *self == pre,
                        rest@ == self.buf@.subrange(n as int, i as int),
                    decreases orig_len - i,
                {
                    rest.push(self.buf[i]);
                    proof {
                        assert(self.buf@.subrange(n as int, i as int + 1) =~= self.buf@.subrange(
                            n as int,
                            i as int,
                        ).push(self.buf@[i as int]));
                    }
                    i = i + 1;
                }
                self.buf = rest;
                proof {
                    self.delivered@ = pre.delivered() + pre.pending().take(n as int);
                    assert(self.pending() =~= pre.pending().skip(n as int));
                    assert(self.delivered() + self.pending() =~= pre.delivered() + pre.pending());
                }
                if n == orig_len {
                    Ok(Async::Ready)
                } else {
                    Ok(Async::NotReady)
                }
            },
            WriteOutcome::WouldBlock => Ok(Async::NotReady),
            WriteOutcome::Failed(code) => Err(PtySinkError::IoError(code)),
        }
    }
}

/// The pending buffer and delivered bytes after a sequence of drain
/// calls whose writes the kernel answered with the given byte counts
/// (each count clamped to what was pending).
pub open spec fn drain_all(delivered: Seq<u8>, pending: Seq<u8>, counts: Seq<nat>) -> (Seq<u8>, Seq<
    u8,
>)
    decreases counts.len(),
{
    if counts.len() == 0 {
        (delivered, pending)
    } else {
        let n = if counts.first() > pending.len() {
            pending.len() as int
        } else {
            counts.first() as int
        };
        drain_all(delivered + pending.take(n), pending.skip(n), counts.drop_first())
    }
}

/// Law: partial writes conserve bytes in order. After any sequence of
/// drain calls, the bytes delivered followed by the bytes still pending
/// are exactly the bytes that were delivered and pending at the start.
pub proof fn lemma_drain_conserves_bytes(delivered: Seq<u8>, pending: Seq<u8>, counts: Seq<nat>)
    ensures
        drain_all(delivered, pending, counts).0 + drain_all(delivered, pending, counts).1
            == delivered + pending,
    decreases counts.len(),
{
    if counts.len() > 0 {
        let n = if counts.first() > pending.len() {
            pending.len() as int
        } else {
            counts.first() as int
        };
        lemma_drain_conserves_bytes(delivered + pending.take(n), pending.skip(n), counts.drop_first());
        assert((delivered + pending.take(n)) + pending.skip(n) =~= delivered + pending);
    }
}

/// Law: a partially accepted item is completed by drains. When the
/// kernel accepted only the first `k` bytes of a submitted item, the
/// remaining bytes reach it through drain calls alone, and whenever the
/// drains have emptied the pending buffer, the bytes delivered are
/// exactly what was delivered before the item followed by the whole
/// item — nothing lost, duplicated or reordered.
pub proof fn lemma_partial_write_completes_item(
    delivered: Seq<u8>,
    item: Seq<u8>,
    k: nat,
    counts: Seq<nat>,
)
    requires
        k <= item.len(),
    ensures
        ({
            let after = drain_all(delivered + item.take(k as int), item.skip(k as int), counts);
            after.1.len() == 0 ==> after.0 == delivered + item
        }),
{
    lemma_drain_conserves_bytes(delivered + item.take(k as int), item.skip(k as int), counts);
    assert((delivered + item.take(k as int)) + item.skip(k as int) =~= delivered + item);
}

} // verus!
