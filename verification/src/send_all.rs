//! The fan-in funnel: drives a stream of client-input chunks into the
//! single write sink of the child's terminal, honouring back-pressure
//! without ever dropping or duplicating a chunk.
//!
//! The funnel keeps one re-offer slot. A chunk the sink hands back
//! ("not ready") waits in the slot and is always retried before any
//! newer chunk is pulled. When the sink ends while a chunk is in flight,
//! the chunk is returned to the caller so the next sink incarnation can
//! receive it first. The invariant `wf` states the central law: the
//! chunks pulled from the stream are exactly the chunks the sink
//! accepted, in order, followed by the at most one chunk still in
//! flight.

use vstd::prelude::*;
use crate::pty::{Async, AsyncSink, PtySink, PtySinkError, WriteOutcome};

verus! {

/// Why a funnel run finished: the input stream ended, or the sink ended
/// first — possibly carrying back the chunk that was in flight.
#[derive(Debug)]
pub enum Reason<T> {
    StreamEnded,
    SinkEnded { last_item: Option<T> },
}

/// An error that may carry back the item whose delivery failed, so the
/// caller can offer it again.
pub trait HasItem<T> {
    fn item(self) -> Option<T>;
}

/// What the multiplexed input stream yielded when polled.
pub enum StreamEvent {
    Item(Vec<u8>),
    NotReady,
    Ended,
}

/// What one funnel step decided: suspend until woken, poll again at
/// once, finish with a reason, or stop on a transport error while
/// flushing.
pub enum StepResult {
    NotReady,
    Continue,
    Done(Reason<Vec<u8>>),
    Error(i32),
}

/// How the sink answers one offered chunk: it takes it, refuses it for
/// now (the chunk must be re-offered), or is gone (the chunk must be
/// redelivered to the next incarnation).
pub enum Disposition {
    Accepted,
    Refused,
    SinkGone,
}

/// Classifies what `PtySink::start_send` does with an offered chunk,
/// given the died signal, the sink's pending bytes and the write
/// outcome.
pub open spec fn submit_disposition(
    item: Seq<u8>,
    done_fired: bool,
    pending: Seq<u8>,
    outcome: WriteOutcome,
) -> Disposition {
    if item.len() == 0 {
        Disposition::Accepted
    } else if done_fired {
        Disposition::SinkGone
    } else if pending.len() > 0 {
        Disposition::Refused
    } else {
        match outcome {
            WriteOutcome::Wrote(_) => Disposition::Accepted,
            WriteOutcome::WouldBlock => Disposition::Refused,
            WriteOutcome::Failed(_) => Disposition::SinkGone,
        }
    }
}

/// The funnel state: the re-offer slot, and ghost records of every chunk
/// pulled from the stream and every chunk the sink accepted.
pub struct SendAll {
    buffered: Option<Vec<u8>>,
    pulled: Ghost<Seq<Seq<u8>>>,
    sent: Ghost<Seq<Seq<u8>>>,
}

impl SendAll {
    /// The re-offer slot's content: empty, or the one in-flight chunk.
    pub closed spec fn buffered_view(self) -> Seq<Seq<u8>> {
        match self.buffered {
            Some(item) => seq![item@],
            None => Seq::empty(),
        }
    }

    /// Every chunk pulled from the input stream so far, in order.
    pub closed spec fn pulled(self) -> Seq<Seq<u8>> {
        self.pulled@
    }

    /// Every chunk the sink accepted so far, in order.
    pub closed spec fn sent(self) -> Seq<Seq<u8>> {
        self.sent@
    }

    /// The funnel's law: nothing pulled is ever lost, duplicated or
    /// reordered — what was pulled is exactly what was accepted plus the
    /// at most one chunk in flight.
    pub open spec fn wf(self) -> bool {
        self.pulled() == self.sent() + self.buffered_view()
    }

    /// Creates a funnel with an empty re-offer slot.
    pub fn new() -> (r: SendAll)
        ensures
            r.wf(),
            r.buffered_view() == Seq::<Seq<u8>>::empty(),
            r.pulled() == Seq::<Seq<u8>>::empty(),
            r.sent() == Seq::<Seq<u8>>::empty(),
    {
        let r = SendAll { buffered: None, pulled: Ghost(Seq::empty()), sent: Ghost(Seq::empty()) };
        proof {
            assert(r.pulled() =~= r.sent() + r.buffered_view());
        }
        r
    }

    /// Reports whether a refused chunk waits in the re-offer slot; while
    /// it does, the stream must not be polled for a newer one.
    pub fn has_buffered(&self) -> (r: bool)
        ensures
            r == (self.buffered_view().len() > 0),
    {
        match &self.buffered {
            Some(_) => true,
            None => false,
        }
    }

    /// The chunk waiting in the re-offer slot: what the caller's next
    /// write must offer the sink's descriptor.
    pub fn buffered_item(&self) -> (r: Option<&Vec<u8>>)
        ensures
            match r {
                Some(item) => self.buffered_view() == seq![item@],
                None => self.buffered_view().len() == 0,
            },
    {
        self.buffered.as_ref()
    }

    /// One scheduling step of the funnel, in strict order of need:
    /// bytes still pending in the sink are flushed before anything else;
    /// then a chunk waiting in the re-offer slot is offered again; only
    /// then is the stream's event considered — a fresh chunk is offered
    /// to the sink, an ended stream finishes the run, and an idle stream
    /// suspends. While pending bytes or a slotted chunk exist the caller
    /// must not pull from the stream (it passes `StreamEvent::NotReady`),
    /// so a refused chunk is always retried before any newer one.
    ///
    /// As in `PtySink`, the caller performs the one OS write the step
    /// calls for — of the pending bytes when there are any, else of the
    /// offered chunk — and passes its outcome; where no write is called
    /// for, the outcome is ignored.
    pub fn poll_step(
        &mut self,
        sink: &mut PtySink,
        ev: StreamEvent,
        done_fired: bool,
        outcome: WriteOutcome,
    ) -> (r: StepResult)
        requires
            old(self).wf(),
            old(sink).pending().len() > 0 || old(self).buffered_view().len() > 0 ==> ev
                is NotReady,
            outcome matches WriteOutcome::Wrote(n) ==> n <= (if old(sink).pending().len() > 0 {
                old(sink).pending().len()
            } else if old(self).buffered_view().len() > 0 {
                old(self).buffered_view()[0].len()
            } else {
                match ev {
                    StreamEvent::Item(item) => item@.len(),
                    StreamEvent::NotReady => 0,
                    StreamEvent::Ended => 0,
                }
            }),
        ensures
            final(self).wf(),
            final(self).sent() == old(self).sent() || final(self).sent() == old(self).sent().push(
                offered_of(old(self).buffered_view(), ev).unwrap(),
            ),
            // Flush step: pending bytes are drained before any chunk is
            // offered; bytes are conserved.
            old(sink).pending().len() > 0 ==> *final(self) == *old(self) && final(sink).delivered()
                + final(sink).pending() == old(sink).delivered() + old(sink).pending() && (
            match outcome {
                WriteOutcome::Wrote(n) => final(sink).delivered() == old(sink).delivered() + old(sink).pending().take(n as int) && final(sink).pending() == old(sink).pending().skip(
                    n as int,
                ) && r == (if n == old(sink).pending().len() {
                    StepResult::Continue
                } else {
                    StepResult::NotReady
                }),
                WriteOutcome::WouldBlock => r == StepResult::NotReady && *final(sink) == *old(sink),
                WriteOutcome::Failed(code) => r == StepResult::Error(code) && *final(sink) == *old(sink),
            }),
            // Nothing pending and no chunk to offer: the stream ended or
            // is idle.
            old(sink).pending().len() == 0 && old(self).buffered_view().len() == 0 && ev
                is Ended ==> r == StepResult::Done(Reason::StreamEnded) && *final(self) == *old(self) && *final(sink) == *old(sink),
            old(sink).pending().len() == 0 && old(self).buffered_view().len() == 0 && ev
                is NotReady ==> r == StepResult::NotReady && *final(self) == *old(self) && *final(sink) == *old(sink),
            // A chunk was offered: the slot's chunk, or the event's.
            old(sink).pending().len() == 0 && (offered_of(old(self).buffered_view(), ev) matches
                Some(x)) ==> {
                let x = offered_of(old(self).buffered_view(), ev).unwrap();
                let d = submit_disposition(x, done_fired, old(sink).pending(), outcome);
                &&& (ev matches StreamEvent::Item(fresh) ==> final(self).pulled() == (if d
                    is SinkGone {
                    old(self).pulled()
                } else {
                    old(self).pulled().push(fresh@)
                }))
                &&& (old(self).buffered_view().len() > 0 ==> final(self).pulled() == (if d
                    is SinkGone {
                    old(self).sent()
                } else {
                    old(self).pulled()
                }))
                &&& (d is Accepted ==> r == StepResult::Continue && final(self).sent() == old(self).sent().push(x) && final(self).buffered_view().len() == 0 && final(sink).delivered() + final(sink).pending() == old(sink).delivered() + old(sink).pending() + x)
                &&& (d is Refused ==> r == StepResult::NotReady && final(self).buffered_view()
                    == seq![x] && final(self).sent() == old(self).sent() && *final(sink) == *old(sink))
                &&& (d is SinkGone ==> (r matches StepResult::Done(reason) && reason matches
                    Reason::SinkEnded { last_item } && last_item matches Some(back) && back@ == x)
                    && final(self).buffered_view().len() == 0 && final(self).sent() == old(self).sent() && final(self).pulled() == old(self).sent() && *final(sink) == *old(sink))
            },
    {
        if sink.has_pending() {
            let flush = sink.poll_complete(outcome);
            return match flush {
                Ok(Async::Ready) => StepResult::Continue,
                Ok(Async::NotReady) => StepResult::NotReady,
                Err(PtySinkError::IoError(code)) => StepResult::Error(code),
                // Flushing never hands a chunk back: only `start_send`
                // reports that.
                Err(PtySinkError::TryAgain(_)) => unreached(),
            };
        }
        let mut current: Option<Vec<u8>> = None;
        if self.buffered.is_some() {
            current = self.buffered.take();
        } else {
            match ev {
                StreamEvent::Item(item) => {
                    proof {
                        self.pulled@ = self.pulled@.push(item@);
                    }
                    current = Some(item);
                },
                StreamEvent::NotReady => {
                    return StepResult::NotReady;
                },
                StreamEvent::Ended => {
                    return StepResult::Done(Reason::StreamEnded);
                },
            }
        }
        let item = match current {
            Some(item) => item,
            None => {
                return StepResult::NotReady;
            },
        };
        let ghost x = item@;
        match sink.start_send(item, done_fired, outcome) {
            Ok(AsyncSink::Ready) => {
                proof {
                    self.sent@ = self.sent@.push(x);
                    assert(final(self).pulled() =~= final(self).sent() + final(self).buffered_view());
                }
                StepResult::Continue
            },
            Ok(AsyncSink::NotReady(back)) => {
                self.buffered = Some(back);
                proof {
                    assert(final(self).pulled() =~= final(self).sent() + final(self).buffered_view());
                }
                StepResult::NotReady
            },
            Err(PtySinkError::TryAgain(back)) => {
                proof {
                    self.pulled@ = self.sent@;
                    assert(final(self).pulled() =~= final(self).sent() + final(self).buffered_view());
                }
                StepResult::Done(Reason::SinkEnded { last_item: Some(back) })
            },
            // `start_send` never reports a bare OS error; it hands the
            // chunk back instead.
            Err(PtySinkError::IoError(_)) => unreached(),
        }
    }
}

/// The chunk a funnel step offers to the sink: the re-offer slot's chunk
/// when one waits there, else the chunk the stream just yielded.
pub open spec fn offered_of(buffered: Seq<Seq<u8>>, ev: StreamEvent) -> Option<Seq<u8>> {
    if buffered.len() > 0 {
        Some(buffered[0])
    } else {
        match ev {
            StreamEvent::Item(item) => Some(item@),
            StreamEvent::NotReady => None,
            StreamEvent::Ended => None,
        }
    }
}

} // verus!
