//! The mount-construction state machine.
//!
//! Obtaining a guard takes three external steps — the mount-table query, the
//! allocation of a fresh temporary directory, and the mount command itself.
//! The caller performs each step and reports its outcome as a
//! [`MountEvent`]; every decision in between (how to read the probe, which
//! strategy to pick, which command to issue next, when a guard may be
//! handed out) is made here and verified against [`spec_step`].

use vstd::prelude::*;
use vstd::pervasive::unreached;
use crate::command::probe_argv;
use crate::command::bind_mount_argv;
use crate::command::direct_mount_argv;
use crate::command::temp_prefix;
use crate::command::spec_probe_argv;
use crate::command::spec_bind_mount_argv;
use crate::command::spec_direct_mount_argv;
use crate::command::spec_temp_prefix;
use crate::guard::GuardModel;
use crate::guard::TmpMountPoint;
use crate::probe::probe_target;
use crate::probe::spec_probe_target;
use crate::strategy::MountStrategy;
use crate::strategy::select_strategy;
use crate::strategy::spec_strategy;
use crate::strategy::target_view;

verus! {

/// One piece of external work requested from the caller.
pub enum MountAction {
    /// Run the argument vector, capture its standard output, and report
    /// both the exit status and the captured output; a non-success exit is
    /// an answer, not an error.
    RunProbe { argv: Vec<String> },
    /// Allocate a fresh, uniquely-named temporary directory whose name
    /// starts with `prefix`, and report its path.
    CreateTempDir { prefix: String },
    /// Run the argument vector and report whether it exited successfully.
    RunMount { argv: Vec<String> },
    /// Run the argument vector and report whether it exited successfully;
    /// issued once per guard, at teardown.
    RunUnmount { argv: Vec<String> },
}

/// What a [`MountAction`] denotes.
pub enum ActionModel {
    /// The mount-table query to run.
    RunProbe { argv: Seq<Seq<char>> },
    /// The request for a fresh temporary directory.
    CreateTempDir { prefix: Seq<char> },
    /// The mount command to run.
    RunMount { argv: Seq<Seq<char>> },
    /// The unmount command to run.
    RunUnmount { argv: Seq<Seq<char>> },
}

impl View for MountAction {
    type V = ActionModel;

    open spec fn view(&self) -> ActionModel {
        match self {
            MountAction::RunProbe { argv } => ActionModel::RunProbe {
                argv: crate::command::views_of(argv@),
            },
            MountAction::CreateTempDir { prefix } => ActionModel::CreateTempDir {
                prefix: prefix@,
            },
            MountAction::RunMount { argv } => ActionModel::RunMount {
                argv: crate::command::views_of(argv@),
            },
            MountAction::RunUnmount { argv } => ActionModel::RunUnmount {
                argv: crate::command::views_of(argv@),
            },
        }
    }
}

/// The caller's report of one completed piece of external work.
pub enum MountEvent {
    /// The mount-table query finished with this exit status and captured
    /// standard output.
    ProbeFinished { success: bool, stdout: String },
    /// A fresh temporary directory exists at `path`.
    TempDirCreated { path: String },
    /// The temporary directory could not be allocated.
    TempDirFailed,
    /// The mount command finished with this exit status.
    MountFinished { success: bool },
}

/// What a [`MountEvent`] denotes.
pub enum EventModel {
    /// The probe's exit status and captured output.
    ProbeFinished { success: bool, stdout: Seq<char> },
    /// The path of the fresh temporary directory.
    TempDirCreated { path: Seq<char> },
    /// The failed directory allocation.
    TempDirFailed,
    /// The mount command's exit status.
    MountFinished { success: bool },
}

impl View for MountEvent {
    type V = EventModel;

    open spec fn view(&self) -> EventModel {
        match self {
            MountEvent::ProbeFinished { success, stdout } => EventModel::ProbeFinished {
                success: *success,
                stdout: stdout@,
            },
            MountEvent::TempDirCreated { path } => EventModel::TempDirCreated { path: path@ },
            MountEvent::TempDirFailed => EventModel::TempDirFailed,
            MountEvent::MountFinished { success } => EventModel::MountFinished {
                success: *success,
            },
        }
    }
}

/// Why a construction failed. Each variant names the device the construction
/// was for.
pub enum MountError {
    /// The temporary directory could not be allocated.
    TempDirCreation { dev: String },
    /// The bind mount of the boot path exited with a non-success status.
    BindMountFailed { dev: String },
    /// The direct mount of the device exited with a non-success status.
    DirectMountFailed { dev: String },
}

/// What a [`MountError`] denotes.
pub enum ErrorModel {
    /// The failed directory allocation.
    TempDirCreation { dev: Seq<char> },
    /// The failed bind mount.
    BindMountFailed { dev: Seq<char> },
    /// The failed direct mount.
    DirectMountFailed { dev: Seq<char> },
}

impl View for MountError {
    type V = ErrorModel;

    open spec fn view(&self) -> ErrorModel {
        match self {
            MountError::TempDirCreation { dev } => ErrorModel::TempDirCreation { dev: dev@ },
            MountError::BindMountFailed { dev } => ErrorModel::BindMountFailed { dev: dev@ },
            MountError::DirectMountFailed { dev } => ErrorModel::DirectMountFailed { dev: dev@ },
        }
    }
}

enum SessionState {
    AwaitingProbe,
    AwaitingTempDir { strategy: MountStrategy },
    AwaitingMount { strategy: MountStrategy, dir: String },
    Complete,
    Failed,
}

/// Where a construction stands.
pub enum StateModel {
    /// The mount-table query is in flight.
    AwaitingProbe,
    /// The strategy is fixed; the directory allocation is in flight.
    AwaitingTempDir { strategy: MountStrategy },
    /// The mount command for `dir` is in flight.
    AwaitingMount { strategy: MountStrategy, dir: Seq<char> },
    /// A guard was handed out; the session is over.
    Complete,
    /// An error was handed out; the session is over and no guard exists.
    Failed,
}

/// What a [`MountSession`] denotes.
pub struct SessionModel {
    /// The device the construction is for.
    pub dev: Seq<char>,
    /// Where the construction stands.
    pub state: StateModel,
}

/// One in-progress construction of a mount guard for one device.
pub struct MountSession {
    dev: String,
    state: SessionState,
}

impl View for MountSession {
    type V = SessionModel;

    closed spec fn view(&self) -> SessionModel {
        SessionModel {
            dev: self.dev@,
            state: match &self.state {
                SessionState::AwaitingProbe => StateModel::AwaitingProbe,
                SessionState::AwaitingTempDir { strategy } => StateModel::AwaitingTempDir {
                    strategy: *strategy,
                },
                SessionState::AwaitingMount { strategy, dir } => StateModel::AwaitingMount {
                    strategy: *strategy,
                    dir: dir@,
                },
                SessionState::Complete => StateModel::Complete,
                SessionState::Failed => StateModel::Failed,
            },
        }
    }
}

/// The session's reply to an event: more external work, a finished guard,
/// or a construction error.
pub enum StepOutcome {
    /// The next piece of external work.
    Next { action: MountAction },
    /// The mount succeeded; the guard owns it from here on.
    Ready { guard: TmpMountPoint },
    /// The construction failed; no guard exists and no unmount is owed.
    Failed { error: MountError },
}

/// What a [`StepOutcome`] denotes.
pub enum OutcomeModel {
    /// The next piece of external work.
    Next { action: ActionModel },
    /// The finished guard.
    Ready { guard: GuardModel },
    /// The construction error.
    Failed { error: ErrorModel },
}

impl View for StepOutcome {
    type V = OutcomeModel;

    open spec fn view(&self) -> OutcomeModel {
        match self {
            StepOutcome::Next { action } => OutcomeModel::Next { action: action@ },
            StepOutcome::Ready { guard } => OutcomeModel::Ready { guard: guard@ },
            StepOutcome::Failed { error } => OutcomeModel::Failed { error: error@ },
        }
    }
}

/// Whether the state machine is awaiting an event of this shape.
pub open spec fn spec_accepts(state: StateModel, event: EventModel) -> bool {
    match (state, event) {
        (StateModel::AwaitingProbe, EventModel::ProbeFinished { .. }) => true,
        (StateModel::AwaitingTempDir { .. }, EventModel::TempDirCreated { .. }) => true,
        (StateModel::AwaitingTempDir { .. }, EventModel::TempDirFailed) => true,
        (StateModel::AwaitingMount { .. }, EventModel::MountFinished { .. }) => true,
        _ => false,
    }
}

/// The mount command issued for `strategy`: a bind mount of the boot path
/// onto `dir`, or a direct mount of `dev` onto `dir`.
pub open spec fn spec_mount_argv(strategy: MountStrategy, dev: Seq<char>, dir: Seq<char>)
    -> Seq<Seq<char>> {
    match strategy {
        MountStrategy::Bind => spec_bind_mount_argv(dir),
        MountStrategy::Direct => spec_direct_mount_argv(dev, dir),
    }
}

/// The whole construction protocol: how one accepted event moves the
/// session forward, and what the session replies.
pub open spec fn spec_step(s: SessionModel, event: EventModel) -> (SessionModel, OutcomeModel) {
    match (s.state, event) {
        (StateModel::AwaitingProbe, EventModel::ProbeFinished { success, stdout }) => {
            let strategy = spec_strategy(spec_probe_target(success, stdout));
            (
                SessionModel { dev: s.dev, state: StateModel::AwaitingTempDir { strategy } },
                OutcomeModel::Next {
                    action: ActionModel::CreateTempDir { prefix: spec_temp_prefix() },
                },
            )
        },
        (StateModel::AwaitingTempDir { strategy }, EventModel::TempDirCreated { path }) => {
            (
                SessionModel {
                    dev: s.dev,
                    state: StateModel::AwaitingMount { strategy, dir: path },
                },
                OutcomeModel::Next {
                    action: ActionModel::RunMount {
                        argv: spec_mount_argv(strategy, s.dev, path),
                    },
                },
            )
        },
        (StateModel::AwaitingTempDir { .. }, EventModel::TempDirFailed) => {
            (
                SessionModel { dev: s.dev, state: StateModel::Failed },
                OutcomeModel::Failed { error: ErrorModel::TempDirCreation { dev: s.dev } },
            )
        },
        (StateModel::AwaitingMount { strategy, dir }, EventModel::MountFinished { success }) => {
            if success {
                (
                    SessionModel { dev: s.dev, state: StateModel::Complete },
                    OutcomeModel::Ready { guard: GuardModel { mount_dir: dir, dev: s.dev } },
                )
            } else {
                (
                    SessionModel { dev: s.dev, state: StateModel::Failed },
                    OutcomeModel::Failed {
                        error: match strategy {
                            MountStrategy::Bind => ErrorModel::BindMountFailed { dev: s.dev },
                            MountStrategy::Direct => ErrorModel::DirectMountFailed {
                                dev: s.dev,
                            },
                        },
                    },
                )
            }
        },
        // ruled out for stepped sessions by spec_accepts
        _ => (s, OutcomeModel::Failed { error: ErrorModel::TempDirCreation { dev: s.dev } }),
    }
}

impl TmpMountPoint {
    /// Opens a mount construction for `dev`. The session starts by asking
    /// for the mount-table query; feed each completed action's outcome to
    /// [`MountSession::step`] until it yields a guard or an error.
    pub fn mount(dev: String) -> (r: (MountSession, MountAction))
        ensures
            r.0@ == (SessionModel { dev: dev@, state: StateModel::AwaitingProbe }),
            r.1@ == (ActionModel::RunProbe { argv: spec_probe_argv(dev@) }),
    {
        let argv = probe_argv(dev.as_str());
        (
            MountSession { dev, state: SessionState::AwaitingProbe },
            MountAction::RunProbe { argv },
        )
    }
}

impl MountSession {
    /// The device this construction is for.
    pub fn device(&self) -> (r: &String)
        ensures
            r@ == self@.dev,
    {
        &self.dev
    }

    /// Whether the session is awaiting an event of this shape. A caller
    /// that is unsure of its own bookkeeping checks here before stepping.
    pub fn accepts(&self, event: &MountEvent) -> (r: bool)
        ensures
            r == spec_accepts(self@.state, event@),
    {
        match (&self.state, event) {
            (SessionState::AwaitingProbe, MountEvent::ProbeFinished { .. }) => true,
            (SessionState::AwaitingTempDir { .. }, MountEvent::TempDirCreated { .. }) => true,
            (SessionState::AwaitingTempDir { .. }, MountEvent::TempDirFailed) => true,
            (SessionState::AwaitingMount { .. }, MountEvent::MountFinished { .. }) => true,
            _ => false,
        }
    }

    /// Feeds one completed action's outcome to the state machine and
    /// returns what to do next, exactly as [`spec_step`] prescribes.
    pub fn step(&mut self, event: MountEvent) -> (r: StepOutcome)
        requires
            spec_accepts(old(self)@.state, event@),
        ensures
            final(self)@ == spec_step(old(self)@, event@).0,
            r@ == spec_step(old(self)@, event@).1,
    {
        match event {
            MountEvent::ProbeFinished { success, stdout } => {
                let target = probe_target(success, stdout.as_str());
                proof {
                    assert(target_view(target) == spec_probe_target(success, stdout@));
                }
                let strategy = select_strategy(&target);
                self.state = SessionState::AwaitingTempDir { strategy };
                StepOutcome::Next {
                    action: MountAction::CreateTempDir { prefix: temp_prefix() },
                }
            },
            MountEvent::TempDirCreated { path } => {
                let strategy = match &self.state {
                    SessionState::AwaitingTempDir { strategy } => *strategy,
                    _ => unreached(),
                };
                let argv = match strategy {
                    MountStrategy::Bind => bind_mount_argv(path.as_str()),
                    MountStrategy::Direct => direct_mount_argv(
                        self.dev.as_str(),
                        path.as_str(),
                    ),
                };
                self.state = SessionState::AwaitingMount { strategy, dir: path };
                StepOutcome::Next { action: MountAction::RunMount { argv } }
            },
            MountEvent::TempDirFailed => {
                let dev = self.dev.clone();
                self.state = SessionState::Failed;
                StepOutcome::Failed { error: MountError::TempDirCreation { dev } }
            },
            MountEvent::MountFinished { success } => {
                let (strategy, dir) = match &self.state {
                    SessionState::AwaitingMount { strategy, dir } => (*strategy, dir.clone()),
                    _ => unreached(),
                };
                if success {
                    self.state = SessionState::Complete;
                    let guard = TmpMountPoint::assemble(dir, self.dev.clone());
                    StepOutcome::Ready { guard }
                } else {
                    let dev = self.dev.clone();
                    self.state = SessionState::Failed;
                    StepOutcome::Failed {
                        error: match strategy {
                            MountStrategy::Bind => MountError::BindMountFailed { dev },
                            MountStrategy::Direct => MountError::DirectMountFailed { dev },
                        },
                    }
                }
            },
        }
    }
}

} // verus!
