//! The process supervisor state machine: the lifecycle of the one
//! supervised child and the aggregation of client window sizes.
//!
//! Spawning, signalling and reaping are operating-system work done
//! outside the library; their outcomes arrive here as plain values, and
//! this state machine decides what they mean: whether a spawn is
//! allowed, what a death makes of the record, and which window size the
//! terminal must be given — always the component-wise minimum over every
//! connected client's request, so no client's view is overflowed.

use vstd::prelude::*;
use crate::pty::{Rows, Columns};

verus! {

/// Supervisor errors: a spawn while a child lives, an operation with no
/// child to act on, or an OS failure (by OS code).
#[derive(Debug)]
pub enum ProcessError {
    ProcessAlreadySpawned,
    NoChild,
    IoError(i32),
}

/// What the OS spawn attempt produced: a live child with its process id
/// and a start timestamp, or an error code.
pub enum SpawnOutcome {
    Started { pid: u32, started_at: String },
    Failed(i32),
}

/// The smallest number of rows any client in `s` asks for (a sentinel
/// maximum when no client has asked).
pub open spec fn min_rows(s: Seq<(u64, (Rows, Columns))>) -> u16
    decreases s.len(),
{
    if s.len() == 0 {
        0xffff
    } else {
        let rest = min_rows(s.drop_last());
        if s.last().1.0.0 < rest {
            s.last().1.0.0
        } else {
            rest
        }
    }
}

/// The smallest number of columns any client in `s` asks for.
pub open spec fn min_columns(s: Seq<(u64, (Rows, Columns))>) -> u16
    decreases s.len(),
{
    if s.len() == 0 {
        0xffff
    } else {
        let rest = min_columns(s.drop_last());
        if s.last().1.1.0 < rest {
            s.last().1.1.0
        } else {
            rest
        }
    }
}

/// The supervisor's record of the current child: whether one is live
/// (and its process id), the last exit status, each connected client's
/// requested window size keyed by peer, and the start timestamp. The
/// window-size map persists across respawns.
pub struct Process {
    args: Vec<String>,
    foreground: bool,
    child: Option<u32>,
    exit_status: Option<i32>,
    window_sizes: Vec<(u64, (Rows, Columns))>,
    started_at: Option<String>,
}

impl Process {
    /// The command and arguments the child is launched with.
    pub closed spec fn args_view(self) -> Seq<String> {
        self.args@
    }

    /// The live child's process id, if one is running.
    pub closed spec fn pid(self) -> Option<u32> {
        self.child
    }

    /// Whether a child is currently live.
    pub open spec fn running(self) -> bool {
        self.pid() is Some
    }

    /// The last reaped exit status.
    pub closed spec fn exit_status_view(self) -> Option<i32> {
        self.exit_status
    }

    /// The per-peer window-size requests, in insertion order.
    pub closed spec fn sizes(self) -> Seq<(u64, (Rows, Columns))> {
        self.window_sizes@
    }

    /// When the current child was started, if it ever was.
    pub closed spec fn started_at_view(self) -> Option<Seq<char>> {
        match self.started_at {
            Some(s) => Some(s@),
            None => None,
        }
    }

    /// Each peer holds at most one entry in the window-size map.
    pub open spec fn wf(self) -> bool {
        forall|i: int, j: int|
            0 <= i < j < self.sizes().len() ==> self.sizes()[i].0 != self.sizes()[j].0
    }

    /// Creates a supervisor record with no child ever spawned and no
    /// window sizes reported.
    pub fn new(args: Vec<String>, foreground: bool) -> (r: Process)
        ensures
            r.wf(),
            r.args_view() == args@,
            !r.running(),
            r.exit_status_view() is None,
            r.sizes() == Seq::<(u64, (Rows, Columns))>::empty(),
            r.started_at_view() is None,
    {
        Process {
            args,
            foreground,
            child: None,
            exit_status: None,
            window_sizes: Vec::new(),
            started_at: None,
        }
    }

    /// The command and arguments, for the collaborator that performs the
    /// actual spawn.
    pub fn args(&self) -> (r: &Vec<String>)
        ensures
            r@ == self.args_view(),
    {
        &self.args
    }

    /// Records the outcome of a spawn attempt. A spawn is refused while
    /// a child is live; a failed attempt leaves the record unchanged and
    /// retryable; a successful one makes the child live and stores its
    /// start timestamp. Window sizes persist across respawns.
    pub fn spawn(&mut self, outcome: SpawnOutcome) -> (r: Result<(), ProcessError>)
        requires
            old(self).wf(),
        ensures
            final(self).wf(),
            final(self).sizes() == old(self).sizes(),
            final(self).args_view() == old(self).args_view(),
            old(self).running() ==> r == Err::<(), ProcessError>(
                ProcessError::ProcessAlreadySpawned,
            ) && *final(self) == *old(self),
            !old(self).running() ==> match outcome {
                SpawnOutcome::Started { pid, started_at } => r == Ok::<(), ProcessError>(())
                    && final(self).pid() == Some(pid) && final(self).started_at_view() == Some(
                    started_at@,
                ) && final(self).exit_status_view() == old(self).exit_status_view(),
                SpawnOutcome::Failed(code) => r == Err::<(), ProcessError>(
                    ProcessError::IoError(code),
                ) && *final(self) == *old(self),
            },
    {
        if self.child.is_some() {
            return Err(ProcessError::ProcessAlreadySpawned);
        }
        match outcome {
            SpawnOutcome::Started { pid, started_at } => {
                self.child = Some(pid);
                self.started_at = Some(started_at);
                proof {
                    assert forall|i: int, j: int|
                        0 <= i < j < self.sizes().len() implies self.sizes()[i].0
                        != self.sizes()[j].0 by {
                        assert(old(self).sizes()[i].0 != old(self).sizes()[j].0);
                    }
                }
                Ok(())
            },
            SpawnOutcome::Failed(code) => Err(ProcessError::IoError(code)),
        }
    }

    /// When the current child was started, if it ever was.
    pub fn started_at(&self) -> (r: Option<&String>)
        ensures
            match r {
                Some(s) => self.started_at_view() == Some(s@),
                None => self.started_at_view() is None,
            },
    {
        self.started_at.as_ref()
    }

    /// Records that the child was reaped with the given exit status: the
    /// child is gone and the status is kept. Fails when no child is
    /// live.
    pub fn wait(&mut self, status: i32) -> (r: Result<i32, ProcessError>)
        requires
            old(self).wf(),
        ensures
            final(self).wf(),
            !old(self).running() ==> r == Err::<i32, ProcessError>(ProcessError::NoChild)
                && *final(self) == *old(self),
            old(self).running() ==> r == Ok::<i32, ProcessError>(status) && !final(self).running()
                && final(self).exit_status_view() == Some(status) && final(self).sizes() == old(self).sizes() && final(self).started_at_view() == old(self).started_at_view() && final(self).args_view() == old(self).args_view(),
    {
        if self.child.is_some() {
            self.child = None;
            self.exit_status = Some(status);
            proof {
                assert forall|i: int, j: int|
                    0 <= i < j < self.sizes().len() implies self.sizes()[i].0
                    != self.sizes()[j].0 by {
                    assert(old(self).sizes()[i].0 != old(self).sizes()[j].0);
                }
            }
            Ok(status)
        } else {
            Err(ProcessError::NoChild)
        }
    }

    /// Decides whether a termination signal may be sent: only a live
    /// child can be killed, and killing does not itself reap — the
    /// record is unchanged until the death signal arrives.
    pub fn kill(&mut self) -> (r: Result<(), ProcessError>)
        ensures
            *final(self) == *old(self),
            old(self).running() ==> r == Ok::<(), ProcessError>(()),
            !old(self).running() ==> r == Err::<(), ProcessError>(ProcessError::NoChild),
    {
        if self.child.is_some() {
            Ok(())
        } else {
            Err(ProcessError::NoChild)
        }
    }

    /// The live child's process id, if any.
    pub fn id(&self) -> (r: Option<u32>)
        ensures
            r == self.pid(),
    {
        self.child
    }

    /// Records one client's requested window size and returns the size
    /// to apply to the terminal: the component-wise minimum over every
    /// client's request — never larger in either direction than what any
    /// client can display. No size is applied when no child is live.
    pub fn set_window_size(&mut self, peer: u64, ws: (Rows, Columns)) -> (r: Option<
        (Rows, Columns),
    >)
        requires
            old(self).wf(),
        ensures
            final(self).wf(),
            final(self).pid() == old(self).pid(),
            final(self).args_view() == old(self).args_view(),
            final(self).exit_status_view() == old(self).exit_status_view(),
            final(self).started_at_view() == old(self).started_at_view(),
            (exists|i: int|
                0 <= i < old(self).sizes().len() && old(self).sizes()[i].0 == peer) ==> final(self).sizes() == old(self).sizes().update(
                choose|i: int| 0 <= i < old(self).sizes().len() && old(self).sizes()[i].0 == peer,
                (peer, ws),
            ),
            (forall|i: int|
                0 <= i < old(self).sizes().len() ==> old(self).sizes()[i].0 != peer) ==> final(self).sizes() == old(self).sizes().push((peer, ws)),
            old(self).running() ==> r == Some(
                (Rows(min_rows(final(self).sizes())), Columns(min_columns(final(self).sizes()))),
            ),
            !old(self).running() ==> r is None,
    {
        let len = self.window_sizes.len();
        let mut i: usize = 0;
        let mut found = false;
        while i < len && !found
            invariant
                0 <= i <= len,
                len == self.sizes().len(),
                found ==> i < len && self.sizes()[i as int].0 == peer,
                !found ==> forall|j: int| 0 <= j < i ==> self.sizes()[j].0 != peer,
            decreases len - i + (if found {
                0int
            } else {
                1int
            }),
        {
            if self.window_sizes[i].0 == peer {
                found = true;
            } else {
                i = i + 1;
            }
        }
        if found {
            proof {
                assert forall|j: int|
                    0 <= j < old(self).sizes().len() && old(self).sizes()[j].0 == peer implies j
                    == i as int by {
                    if j < i as int {
                        assert(old(self).sizes()[j].0 != peer);
                    }
                }
            }
            self.window_sizes.set(i, (peer, ws));
        } else {
            self.window_sizes.push((peer, ws));
        }
        let applied = self.min_window_size();
        if self.child.is_some() {
            Some(applied)
        } else {
            None
        }
    }

    /// Removes a disconnected client's entry and returns the size now to
    /// apply: the minimum over the remaining requests, or nothing when
    /// no client remains or no child is live.
    pub fn remove_window_size(&mut self, peer: u64) -> (r: Option<(Rows, Columns)>)
        requires
            old(self).wf(),
        ensures
            final(self).wf(),
            final(self).pid() == old(self).pid(),
            final(self).args_view() == old(self).args_view(),
            final(self).exit_status_view() == old(self).exit_status_view(),
            final(self).started_at_view() == old(self).started_at_view(),
            (exists|i: int|
                0 <= i < old(self).sizes().len() && old(self).sizes()[i].0 == peer) ==> final(self).sizes() == old(self).sizes().remove(
                choose|i: int| 0 <= i < old(self).sizes().len() && old(self).sizes()[i].0 == peer,
            ),
            (forall|i: int|
                0 <= i < old(self).sizes().len() ==> old(self).sizes()[i].0 != peer) ==> final(self).sizes() == old(self).sizes(),
            old(self).running() && final(self).sizes().len() > 0 ==> r == Some(
                (Rows(min_rows(final(self).sizes())), Columns(min_columns(final(self).sizes()))),
            ),
            !old(self).running() || final(self).sizes().len() == 0 ==> r is None,
    {
        let len = self.window_sizes.len();
        let mut i: usize = 0;
        let mut found = false;
        while i < len && !found
            invariant
                0 <= i <= len,
                len == self.sizes().len(),
                found ==> i < len && self.sizes()[i as int].0 == peer,
                !found ==> forall|j: int| 0 <= j < i ==> self.sizes()[j].0 != peer,
            decreases len - i + (if found {
                0int
            } else {
                1int
            }),
        {
            if self.window_sizes[i].0 == peer {
                found = true;
            } else {
                i = i + 1;
            }
        }
        if found {
            proof {
                assert forall|j: int|
                    0 <= j < old(self).sizes().len() && old(self).sizes()[j].0 == peer implies j
                    == i as int by {
                    if j < i as int {
                        assert(old(self).sizes()[j].0 != peer);
                    }
                }
            }
            self.window_sizes.remove(i);
        }
        if self.window_sizes.len() == 0 {
            return None;
        }
        let applied = self.min_window_size();
        if self.child.is_some() {
            Some(applied)
        } else {
            None
        }
    }

    /// The component-wise minimum over all requested window sizes (the
    /// sentinel maximum in each direction when none are recorded).
    fn min_window_size(&self) -> (r: (Rows, Columns))
        ensures
            r == (Rows(min_rows(self.sizes())), Columns(min_columns(self.sizes()))),
    {
        let mut rows: u16 = 0xffff;
        let mut columns: u16 = 0xffff;
        let len = self.window_sizes.len();
        let mut i: usize = 0;
        while i < len
            invariant
                0 <= i <= len,
                len == self.sizes().len(),
                rows == min_rows(self.sizes().take(i as int)),
                columns == min_columns(self.sizes().take(i as int)),
            decreases len - i,
        {
            proof {
                assert(self.sizes().take(i as int + 1).drop_last() =~= self.sizes().take(
                    i as int,
                ));
                assert(self.sizes().take(i as int + 1).last() == self.sizes()[i as int]);
            }
            let (_, (r, c)) = self.window_sizes[i];
            if r.0 < rows {
                rows = r.0;
            }
            if c.0 < columns {
                columns = c.0;
            }
            i = i + 1;
        }
        proof {
            assert(self.sizes().take(len as int) =~= self.sizes());
        }
        (Rows(rows), Columns(columns))
    }
}

} // verus!
