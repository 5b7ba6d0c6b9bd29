//! Stopping children in two phases: a child is asked to stop and given a
//! grace period to flush and close what it holds; only a child that is
//! still running when the period is over is killed. Either way the child is
//! gone in bounded time.

use vstd::prelude::*;
use crate::sidecar::registry::ChildRegistry;

verus! {

/// How long a child may take to exit after it was asked to, in milliseconds.
pub const GRACE_PERIOD_MS: u64 = 1500;

/// Time between two looks at a child that was asked to exit, in milliseconds.
pub const STOP_POLL_MS: u64 = 100;

/// The interrupt signal of POSIX systems.
pub const SIGINT: i32 = 2;

/// What a look at a child shows.
#[derive(Clone, Copy, Debug, PartialEq, Eq, Structural)]
pub enum ChildState {
    Running,
    Exited,
    /// The child could not be looked at.
    Unknown,
}

/// What the caller reports.
#[derive(Clone, Copy, Debug, PartialEq, Eq, Structural)]
pub enum StopEvent {
    /// The child was asked to stop (or could not be asked).
    Signalled,
    /// The caller looked at the child `elapsed_ms` after it was asked.
    Polled { state: ChildState, elapsed_ms: u64 },
    /// The pause between two looks is over.
    Slept,
    /// The child was killed (or could not be).
    Killed,
}

/// What the caller has to do next.
#[derive(Clone, Copy, Debug, PartialEq, Eq, Structural)]
pub enum StopAction {
    /// Ask the child to stop with the platform's interrupt; on POSIX that
    /// is the signal `signal`.
    Interrupt { signal: i32 },
    /// Look whether the child has exited.
    Poll,
    /// Pause for `ms` milliseconds.
    Sleep { ms: u64 },
    /// Kill the child.
    Kill,
    /// The child is gone: it exited on its own (`graceful`) or was killed.
    Finish { graceful: bool },
    /// Nothing: the event does not belong to the current phase.
    Ignore,
}

/// Where the stopping of one child stands.
#[derive(Clone, Copy, Debug, PartialEq, Eq, Structural)]
pub enum Stop {
    Signalling,
    Polling,
    Sleeping,
    Killing,
    Finished,
}

/// The transition taken on `event` in `state`.
pub open spec fn stop_step(state: Stop, event: StopEvent) -> (Stop, StopAction) {
    match (state, event) {
        (Stop::Signalling, StopEvent::Signalled) => (Stop::Polling, StopAction::Poll),
        (Stop::Polling, StopEvent::Polled { state: child, elapsed_ms }) => match child {
            ChildState::Exited => (Stop::Finished, StopAction::Finish { graceful: true }),
            ChildState::Unknown => (Stop::Killing, StopAction::Kill),
            ChildState::Running => if elapsed_ms > GRACE_PERIOD_MS {
                (Stop::Killing, StopAction::Kill)
            } else {
                (Stop::Sleeping, StopAction::Sleep { ms: STOP_POLL_MS })
            },
        },
        (Stop::Sleeping, StopEvent::Slept) => (Stop::Polling, StopAction::Poll),
        (Stop::Killing, StopEvent::Killed) => (
            Stop::Finished,
            StopAction::Finish { graceful: false },
        ),
        _ => (state, StopAction::Ignore),
    }
}

impl Stop {
    /// Begins to stop a child: it is asked first.
    pub fn begin() -> (r: (Stop, StopAction))
        ensures
            r == (Stop::Signalling, StopAction::Interrupt { signal: SIGINT }),
    {
        (Stop::Signalling, StopAction::Interrupt { signal: SIGINT })
    }

    /// The transition on `event`.
    pub fn step(self, event: StopEvent) -> (r: (Stop, StopAction))
        ensures
            r == stop_step(self, event),
    {
        match (self, event) {
            (Stop::Signalling, StopEvent::Signalled) => (Stop::Polling, StopAction::Poll),
            (Stop::Polling, StopEvent::Polled { state, elapsed_ms }) => match state {
                ChildState::Exited => (Stop::Finished, StopAction::Finish { graceful: true }),
                ChildState::Unknown => (Stop::Killing, StopAction::Kill),
                ChildState::Running => {
                    if elapsed_ms > GRACE_PERIOD_MS {
                        (Stop::Killing, StopAction::Kill)
                    } else {
                        (Stop::Sleeping, StopAction::Sleep { ms: STOP_POLL_MS })
                    }
                },
            },
            (Stop::Sleeping, StopEvent::Slept) => (Stop::Polling, StopAction::Poll),
            (Stop::Killing, StopEvent::Killed) => (
                Stop::Finished,
                StopAction::Finish { graceful: false },
            ),
            (state, _) => (state, StopAction::Ignore),
        }
    }
}

/// The children to stop: a snapshot of the ids registered now, each once.
/// Children that terminate or are spawned while the snapshot is walked do
/// not change it.
pub fn kill_children<H>(registry: &ChildRegistry<H>) -> (r: Vec<u32>)
    ensures
        r@.to_set() == registry@.dom(),
        r@.no_duplicates(),
{
    registry.pids()
}

/// A child is killed only after it was asked to stop and was then seen
/// running past the grace period, or could not be seen at all; a child that
/// was seen exited is never killed.
pub proof fn lemma_kill_only_after_grace(state: Stop, event: StopEvent)
    ensures
        stop_step(state, event).1 == StopAction::Kill ==> state == Stop::Polling && (event matches StopEvent::Polled {
            state: child,
            elapsed_ms,
        } && (child == ChildState::Unknown || (child == ChildState::Running && elapsed_ms
            > GRACE_PERIOD_MS))),
        stop_step(state, event).1 == StopAction::Poll ==> state == Stop::Signalling || state
            == Stop::Sleeping,
        stop_step(state, event).1 == (StopAction::Finish { graceful: true }) ==> (event matches StopEvent::Polled {
            state: child,
            elapsed_ms,
        } && child == ChildState::Exited),
{
}

/// A child that is still running when the grace period is over is killed,
/// and that ends its stopping.
pub proof fn lemma_stubborn_child_is_killed(elapsed_ms: u64)
    requires
        elapsed_ms > GRACE_PERIOD_MS,
    ensures
        ({
            let asked = stop_step(Stop::Signalling, StopEvent::Signalled);
            let seen = stop_step(
                asked.0,
                StopEvent::Polled { state: ChildState::Running, elapsed_ms },
            );
            let killed = stop_step(seen.0, StopEvent::Killed);
            &&& asked.1 == StopAction::Poll
            &&& seen.1 == StopAction::Kill
            &&& killed == (Stop::Finished, StopAction::Finish { graceful: false })
        }),
{
}

} // verus!
