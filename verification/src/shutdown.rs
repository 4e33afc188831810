//! The cooperative-cancellation domain: a group of tasks that can be asked to
//! shut down together.
//!
//! The asynchronous plumbing (signal handlers, the actual select between a
//! future and the shutdown signal) lives outside the library; the state
//! machine, its idempotent shutdown request, and the decision taken for each
//! race outcome are verified here.

use vstd::prelude::*;

verus! {

/// The life of a task group: `Running` until a shutdown is requested; once
/// every tracked task has observed the request and exited, it is `Drained`.
#[derive(PartialEq, Eq, Structural, Clone, Copy, Debug)]
pub enum GroupState {
    Running,
    ShutdownRequested,
    Drained,
}

/// A shutdown request never reverts: every state but `Running` stays
/// requested forever.
pub open spec fn shutdown_requested(s: GroupState) -> bool {
    !(s is Running)
}

/// What one call of `shutdown` leaves behind.
pub open spec fn after_shutdown(s: GroupState) -> GroupState {
    if s is Running {
        GroupState::ShutdownRequested
    } else {
        s
    }
}

/// The state after `n` consecutive calls of `shutdown`.
pub open spec fn after_shutdown_n(s: GroupState, n: nat) -> GroupState
    decreases n,
{
    if n == 0 {
        s
    } else {
        after_shutdown_n(after_shutdown(s), (n - 1) as nat)
    }
}

/// How many of `n` consecutive calls of `shutdown` actually changed the
/// state.
pub open spec fn shutdown_transitions(s: GroupState, n: nat) -> nat
    decreases n,
{
    if n == 0 {
        0
    } else {
        (if s is Running { 1 as nat } else { 0 as nat })
            + shutdown_transitions(after_shutdown(s), (n - 1) as nat)
    }
}

/// Law: however many times `shutdown` is called, and from whatever state, at
/// most one call transitions the group out of `Running`; one or more calls
/// from `Running` transition it exactly once, and leave the request set, so
/// every waiter resolves.
pub proof fn lemma_shutdown_requested_once(s: GroupState, n: nat)
    requires
        n >= 1,
    ensures
        after_shutdown_n(s, n) == after_shutdown(s),
        shutdown_requested(after_shutdown_n(s, n)),
        shutdown_transitions(s, n) == (if s is Running { 1 as nat } else { 0 as nat }),
    decreases n,
{
    if n == 1 {
        assert(after_shutdown_n(s, n) == after_shutdown_n(after_shutdown(s), 0));
        assert(after_shutdown_n(after_shutdown(s), 0) == after_shutdown(s));
        assert(shutdown_transitions(after_shutdown(s), 0) == 0);
    } else {
        lemma_shutdown_requested_once(after_shutdown(s), (n - 1) as nat);
        assert(!(after_shutdown(s) is Running));
    }
}

/// A cancellation domain: its state, how many tasks it tracks, and how many
/// waiters hold a shutdown receiver.
pub struct TaskGroup {
    pub state: GroupState,
    pub tracked_tasks: usize,
    pub waiters: usize,
}

impl TaskGroup {
    /// A fresh group: running, tracking nothing, awaited by nobody.
    pub fn new() -> (g: TaskGroup)
        ensures
            g.state == GroupState::Running,
            g.tracked_tasks == 0,
            g.waiters == 0,
    {
        TaskGroup { state: GroupState::Running, tracked_tasks: 0, waiters: 0 }
    }

    /// Records one more spawned task in the group.
    pub fn track_task(&mut self)
        requires
            old(self).tracked_tasks < usize::MAX,
        ensures
            final(self).state == old(self).state,
            final(self).tracked_tasks == old(self).tracked_tasks + 1,
            final(self).waiters == old(self).waiters,
    {
        self.tracked_tasks = self.tracked_tasks + 1;
    }

    /// Hands out one more shutdown receiver; it resolves exactly when the
    /// group's shutdown has been requested.
    pub fn make_shutdown_rx(&mut self)
        requires
            old(self).waiters < usize::MAX,
        ensures
            final(self).state == old(self).state,
            final(self).tracked_tasks == old(self).tracked_tasks,
            final(self).waiters == old(self).waiters + 1,
    {
        self.waiters = self.waiters + 1;
    }

    /// Whether a shutdown receiver of this group has resolved: all of them
    /// resolve together, as soon as shutdown is requested.
    pub fn rx_resolved(&self) -> (r: bool)
        ensures
            r == shutdown_requested(self.state),
    {
        !matches!(self.state, GroupState::Running)
    }

    /// Requests a shutdown. Idempotent: only the first request transitions
    /// the state, every later one is a no-op; the request never reverts.
    /// Returns whether this call was the one that transitioned.
    pub fn shutdown(&mut self) -> (transitioned: bool)
        ensures
            final(self).state == after_shutdown(old(self).state),
            shutdown_requested(final(self).state),
            transitioned == (old(self).state is Running),
            final(self).tracked_tasks == old(self).tracked_tasks,
            final(self).waiters == old(self).waiters,
    {
        match self.state {
            GroupState::Running => {
                self.state = GroupState::ShutdownRequested;
                true
            }
            _ => false,
        }
    }

    /// Records that one tracked task observed the shutdown request and
    /// exited; once the last one has, the group is drained.
    pub fn task_exited(&mut self)
        requires
            shutdown_requested(old(self).state),
            old(self).tracked_tasks > 0,
        ensures
            final(self).tracked_tasks == old(self).tracked_tasks - 1,
            final(self).state == (if old(self).tracked_tasks == 1 {
                GroupState::Drained
            } else {
                old(self).state
            }),
            shutdown_requested(final(self).state),
            final(self).waiters == old(self).waiters,
    {
        self.tracked_tasks = self.tracked_tasks - 1;
        if self.tracked_tasks == 0 {
            self.state = GroupState::Drained;
        }
    }
}

/// Which side of the race between the main computation and the shutdown
/// signal finished first, as observed by the driver of the select.
pub enum RaceWinner<T> {
    /// The main computation completed, with its result, strictly before any
    /// shutdown was requested.
    Main(T),
    /// Shutdown was requested strictly before the main computation
    /// completed; the computation is abandoned, not awaited further.
    Shutdown,
}

/// The distinguished result of a computation abandoned because its group
/// shut down first.
pub struct Cancelled;

/// Decides what racing a future against the shutdown signal returns: the
/// future's own result if it won the race, the distinguished cancelled value
/// if shutdown was requested first. Deterministic in the race's winner.
pub fn race_result<T>(winner: RaceWinner<T>) -> (r: Result<T, Cancelled>)
    ensures
        (winner matches RaceWinner::Main(v) ==> r matches Ok(w) && w == v),
        (winner is Shutdown ==> r is Err),
{
    match winner {
        RaceWinner::Main(v) => Ok(v),
        RaceWinner::Shutdown => Err(Cancelled),
    }
}

/// How the supervised main computation ended, as seen by the top of the run.
pub enum MainEnd<T, E> {
    /// Shutdown was requested before the main computation finished.
    CancelledByShutdown,
    /// The main computation finished with this result.
    Finished(Result<T, E>),
}

/// What the top of the run does next.
pub enum CleanupAction<T, E> {
    /// Exit successfully right away: shutdown was already requested.
    ExitEarlyOk,
    /// Keep the finished computation's value alive and wait for a shutdown
    /// signal before tearing it down.
    WaitForShutdownThenDrop(T),
    /// Propagate the main computation's failure; it triggers shutdown.
    Fail(E),
}

/// Decides how the run ends for each way the supervised main computation can
/// end: a cancellation is a quiet, successful early exit; a success is held
/// alive until a shutdown signal arrives; a failure propagates.
pub fn cleanup_decision<T, E>(end: MainEnd<T, E>) -> (a: CleanupAction<T, E>)
    ensures
        (end is CancelledByShutdown ==> a is ExitEarlyOk),
        (end matches MainEnd::Finished(r) ==> match r {
            Ok(v) => a matches CleanupAction::WaitForShutdownThenDrop(w) && w == v,
            Err(e) => a matches CleanupAction::Fail(f) && f == e,
        }),
{
    match end {
        MainEnd::CancelledByShutdown => CleanupAction::ExitEarlyOk,
        MainEnd::Finished(Ok(v)) => CleanupAction::WaitForShutdownThenDrop(v),
        MainEnd::Finished(Err(e)) => CleanupAction::Fail(e),
    }
}

} // verus!
