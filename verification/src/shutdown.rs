//! Graceful shutdown, one step after the other: stop the managed server,
//! checkpoint the database's write-ahead log, remove the PID file, persist
//! the configuration if it changed, exit.
//!
//! No step begins before the one before it has concluded. The checkpoint is
//! attempted however the server stopped, since a server that died uncleanly
//! is the one that leaves the log behind. The PID file outlives the
//! checkpoint, so that a crash in the middle of a shutdown still leaves a
//! record for the next start to find.

use vstd::prelude::*;
use crate::runtime_config::RuntimeConfig;

verus! {

/// Where the shutdown stands.
#[derive(Clone, Copy, Debug, PartialEq, Eq, Structural)]
pub enum ShutdownState {
    /// No exit was asked for.
    Running,
    /// An exit was asked for and the default exit is being suppressed.
    StopRequested,
    /// The managed server is being stopped.
    ChildStopping,
    /// The write-ahead log is being checkpointed.
    Checkpointing,
    /// The PID file is being removed (`pid_file_done` false), or the
    /// configuration is being persisted (`pid_file_done` true).
    Cleanup { pid_file_done: bool },
    /// The process exits.
    Terminated,
}

/// What the caller reports.
#[derive(Clone, Copy, Debug, PartialEq, Eq, Structural)]
pub enum ShutdownEvent {
    /// The user or the system asked the launcher to exit.
    ExitRequested,
    /// The default exit is suppressed: cleanup may run.
    ExitSuppressed,
    /// Every child was stopped, gracefully or by force.
    ChildrenStopped { graceful: bool },
    /// The checkpoint concluded: it completed, or its time ran out.
    CheckpointConcluded { completed: bool },
    /// The attempt to remove the PID file is over.
    PidFileHandled { removed: bool },
    /// The attempt to persist the configuration is over.
    ConfigSaved { saved: bool },
}

/// What the caller has to do next.
#[derive(Clone, Copy, Debug, PartialEq, Eq, Structural)]
pub enum ShutdownAction {
    /// Keep the process alive until cleanup is done.
    PreventExit,
    /// Stop every child: ask nicely, wait, then kill.
    KillChildren,
    /// Checkpoint the database's write-ahead log.
    Checkpoint,
    /// Remove the PID file.
    RemovePidFile,
    /// Persist the live configuration.
    SaveConfig,
    /// Exit the process with `code`.
    Exit { code: i32 },
    /// Nothing: the event does not belong to the current state.
    Ignore,
}

/// What the coordinator knows of the run it ends.
#[derive(Clone, Copy, Debug, PartialEq, Eq, Structural)]
pub struct ShutdownPlan {
    /// Whether the server is managed by the launcher, not a remote one.
    pub managed: bool,
    /// Whether the live configuration differs from the one that was loaded.
    pub config_changed: bool,
}

/// The coordinator of a shutdown.
#[derive(Clone, Copy, Debug, PartialEq, Eq, Structural)]
pub struct Shutdown {
    pub plan: ShutdownPlan,
    pub state: ShutdownState,
}

/// The state and action that end the cleanup: the configuration is
/// persisted first if it changed.
pub open spec fn finish(plan: ShutdownPlan) -> (ShutdownState, ShutdownAction) {
    if plan.config_changed {
        (ShutdownState::Cleanup { pid_file_done: true }, ShutdownAction::SaveConfig)
    } else {
        (ShutdownState::Terminated, ShutdownAction::Exit { code: 0 })
    }
}

/// The transition taken on `event` in `state` under `plan`.
pub open spec fn shutdown_step(plan: ShutdownPlan, state: ShutdownState, event: ShutdownEvent) -> (
    ShutdownState,
    ShutdownAction,
) {
    match (state, event) {
        (ShutdownState::Running, ShutdownEvent::ExitRequested) => (
            ShutdownState::StopRequested,
            ShutdownAction::PreventExit,
        ),
        (ShutdownState::StopRequested, ShutdownEvent::ExitSuppressed) => if plan.managed {
            (ShutdownState::ChildStopping, ShutdownAction::KillChildren)
        } else {
            finish(plan)
        },
        (ShutdownState::ChildStopping, ShutdownEvent::ChildrenStopped { graceful }) => (
            ShutdownState::Checkpointing,
            ShutdownAction::Checkpoint,
        ),
        (ShutdownState::Checkpointing, ShutdownEvent::CheckpointConcluded { completed }) => (
            ShutdownState::Cleanup { pid_file_done: false },
            ShutdownAction::RemovePidFile,
        ),
        (
            ShutdownState::Cleanup { pid_file_done: false },
            ShutdownEvent::PidFileHandled { removed },
        ) => finish(plan),
        (ShutdownState::Cleanup { pid_file_done: true }, ShutdownEvent::ConfigSaved { saved }) => (
            ShutdownState::Terminated,
            ShutdownAction::Exit { code: 0 },
        ),
        _ => (state, ShutdownAction::Ignore),
    }
}

impl Shutdown {
    /// The coordinator of a launcher that runs.
    pub fn new(managed: bool, config_changed: bool) -> (r: Shutdown)
        ensures
            r == (Shutdown {
                plan: ShutdownPlan { managed, config_changed },
                state: ShutdownState::Running,
            }),
    {
        Shutdown { plan: ShutdownPlan { managed, config_changed }, state: ShutdownState::Running }
    }

    /// The transition on `event`: the coordinator moves on and says what to
    /// do next.
    pub fn step(&mut self, event: ShutdownEvent) -> (action: ShutdownAction)
        ensures
            final(self).plan == old(self).plan,
            (final(self).state, action) == shutdown_step(old(self).plan, old(self).state, event),
    {
        let (next, action) = match (self.state, event) {
            (ShutdownState::Running, ShutdownEvent::ExitRequested) => (
                ShutdownState::StopRequested,
                ShutdownAction::PreventExit,
            ),
            (ShutdownState::StopRequested, ShutdownEvent::ExitSuppressed) => {
                if self.plan.managed {
                    (ShutdownState::ChildStopping, ShutdownAction::KillChildren)
                } else {
                    self.finish()
                }
            },
            (ShutdownState::ChildStopping, ShutdownEvent::ChildrenStopped { .. }) => (
                ShutdownState::Checkpointing,
                ShutdownAction::Checkpoint,
            ),
            (ShutdownState::Checkpointing, ShutdownEvent::CheckpointConcluded { .. }) => (
                ShutdownState::Cleanup { pid_file_done: false },
                ShutdownAction::RemovePidFile,
            ),
            (
                ShutdownState::Cleanup { pid_file_done: false },
                ShutdownEvent::PidFileHandled { .. },
            ) => self.finish(),
            (ShutdownState::Cleanup { pid_file_done: true }, ShutdownEvent::ConfigSaved { .. }) => (
                ShutdownState::Terminated,
                ShutdownAction::Exit { code: 0 },
            ),
            (state, _) => (state, ShutdownAction::Ignore),
        };
        self.state = next;
        action
    }

    fn finish(&self) -> (r: (ShutdownState, ShutdownAction))
        ensures
            r == finish(self.plan),
    {
        if self.plan.config_changed {
            (ShutdownState::Cleanup { pid_file_done: true }, ShutdownAction::SaveConfig)
        } else {
            (ShutdownState::Terminated, ShutdownAction::Exit { code: 0 })
        }
    }
}

/// The coordinator of the shutdown of a launcher that runs with `config`:
/// it stops a server only if the launcher manages one, and persists the
/// configuration only if it differs from the one that was loaded.
pub fn shutdown(config: &RuntimeConfig) -> (r: Shutdown)
    ensures
        r.state == ShutdownState::Running,
        r.plan.managed == config@.is_managed_server,
        r.plan.config_changed == (config@.yaml != config@.loaded),
{
    Shutdown::new(config.is_managed_server, config.has_changed())
}

/// The state after the events `events`, taken in order from `Running`.
pub open spec fn state_after(plan: ShutdownPlan, events: Seq<ShutdownEvent>) -> ShutdownState
    decreases events.len(),
{
    if events.len() == 0 {
        ShutdownState::Running
    } else {
        shutdown_step(plan, state_after(plan, events.drop_last()), events.last()).0
    }
}

/// The actions that answer the events `events`, those that ask for nothing
/// left out.
pub open spec fn actions_of(plan: ShutdownPlan, events: Seq<ShutdownEvent>) -> Seq<ShutdownAction>
    decreases events.len(),
{
    if events.len() == 0 {
        Seq::empty()
    } else {
        let before = actions_of(plan, events.drop_last());
        let action = shutdown_step(
            plan,
            state_after(plan, events.drop_last()),
            events.last(),
        ).1;
        if action == ShutdownAction::Ignore {
            before
        } else {
            before.push(action)
        }
    }
}

/// The action that led into `state`, if the state is not the first.
pub open spec fn entered_by(plan: ShutdownPlan, state: ShutdownState) -> Option<ShutdownAction> {
    match state {
        ShutdownState::Running => None,
        ShutdownState::StopRequested => Some(ShutdownAction::PreventExit),
        ShutdownState::ChildStopping => Some(ShutdownAction::KillChildren),
        ShutdownState::Checkpointing => Some(ShutdownAction::Checkpoint),
        ShutdownState::Cleanup { pid_file_done: false } => Some(ShutdownAction::RemovePidFile),
        ShutdownState::Cleanup { pid_file_done: true } => Some(ShutdownAction::SaveConfig),
        ShutdownState::Terminated => Some(ShutdownAction::Exit { code: 0 }),
    }
}

/// Whatever the events and whoever sends them, in whatever order: the
/// checkpoint is asked for only right after the children were told to stop
/// and that step has concluded, gracefully or by force; and the PID file is
/// removed only right after the checkpoint was asked for and has concluded,
/// completed or timed out.
pub proof fn lemma_shutdown_order(plan: ShutdownPlan, events: Seq<ShutdownEvent>)
    ensures
        ({
            let actions = actions_of(plan, events);
            &&& forall|i: int|
                0 <= i < actions.len() && #[trigger] actions[i] == ShutdownAction::Checkpoint ==> i > 0
                    && actions[i - 1] == ShutdownAction::KillChildren
            &&& forall|i: int|
                0 <= i < actions.len() && #[trigger] actions[i] == ShutdownAction::RemovePidFile ==> i
                    > 0
                    && actions[i - 1] == ShutdownAction::Checkpoint
            &&& match entered_by(plan, state_after(plan, events)) {
                None => actions.len() == 0,
                Some(a) => actions.len() > 0 && actions.last() == a,
            }
        }),
    decreases events.len(),
{
    if events.len() > 0 {
        lemma_shutdown_order(plan, events.drop_last());
    }
}

/// A shutdown that is reported every conclusion in turn goes through every
/// step and ends with exit status 0, whether the server stopped gracefully
/// or not and whether the checkpoint completed or not.
pub proof fn lemma_shutdown_completes(
    config_changed: bool,
    graceful: bool,
    completed: bool,
    removed: bool,
    saved: bool,
)
    ensures
        ({
            let plan = ShutdownPlan { managed: true, config_changed };
            let events = seq![
                ShutdownEvent::ExitRequested,
                ShutdownEvent::ExitSuppressed,
                ShutdownEvent::ChildrenStopped { graceful },
                ShutdownEvent::CheckpointConcluded { completed },
                ShutdownEvent::PidFileHandled { removed },
                ShutdownEvent::ConfigSaved { saved },
            ];
            &&& state_after(plan, events) == ShutdownState::Terminated
            &&& actions_of(plan, events) == if config_changed {
                seq![
                    ShutdownAction::PreventExit,
                    ShutdownAction::KillChildren,
                    ShutdownAction::Checkpoint,
                    ShutdownAction::RemovePidFile,
                    ShutdownAction::SaveConfig,
                    ShutdownAction::Exit { code: 0 },
                ]
            } else {
                seq![
                    ShutdownAction::PreventExit,
                    ShutdownAction::KillChildren,
                    ShutdownAction::Checkpoint,
                    ShutdownAction::RemovePidFile,
                    ShutdownAction::Exit { code: 0 },
                ]
            }
        }),
{
    let plan = ShutdownPlan { managed: true, config_changed };
    let events = seq![
        ShutdownEvent::ExitRequested,
        ShutdownEvent::ExitSuppressed,
        ShutdownEvent::ChildrenStopped { graceful },
        ShutdownEvent::CheckpointConcluded { completed },
        ShutdownEvent::PidFileHandled { removed },
        ShutdownEvent::ConfigSaved { saved },
    ];
    let e5 = events.drop_last();
    let e4 = e5.drop_last();
    let e3 = e4.drop_last();
    let e2 = e3.drop_last();
    let e1 = e2.drop_last();
    let e0 = e1.drop_last();
    assert(e0.len() == 0);
    assert(state_after(plan, e0) == ShutdownState::Running);
    assert(actions_of(plan, e0) =~= Seq::empty());
    assert(state_after(plan, e1) == ShutdownState::StopRequested);
    assert(actions_of(plan, e1) =~= seq![ShutdownAction::PreventExit]);
    assert(state_after(plan, e2) == ShutdownState::ChildStopping);
    assert(actions_of(plan, e2) =~= seq![ShutdownAction::PreventExit, ShutdownAction::KillChildren]);
    assert(state_after(plan, e3) == ShutdownState::Checkpointing);
    assert(actions_of(plan, e3) =~= seq![
        ShutdownAction::PreventExit,
        ShutdownAction::KillChildren,
        ShutdownAction::Checkpoint,
    ]);
    assert(state_after(plan, e4) == ShutdownState::Cleanup { pid_file_done: false });
    assert(actions_of(plan, e4) =~= seq![
        ShutdownAction::PreventExit,
        ShutdownAction::KillChildren,
        ShutdownAction::Checkpoint,
        ShutdownAction::RemovePidFile,
    ]);
    if config_changed {
        assert(state_after(plan, e5) == ShutdownState::Cleanup { pid_file_done: true });
        assert(actions_of(plan, e5) =~= seq![
            ShutdownAction::PreventExit,
            ShutdownAction::KillChildren,
            ShutdownAction::Checkpoint,
            ShutdownAction::RemovePidFile,
            ShutdownAction::SaveConfig,
        ]);
    } else {
        assert(state_after(plan, e5) == ShutdownState::Terminated);
        assert(actions_of(plan, e5) =~= seq![
            ShutdownAction::PreventExit,
            ShutdownAction::KillChildren,
            ShutdownAction::Checkpoint,
            ShutdownAction::RemovePidFile,
            ShutdownAction::Exit { code: 0 },
        ]);
    }
}

} // verus!
