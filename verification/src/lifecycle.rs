//! Shutdown modes, exit statuses, and the lifecycle gate of one actor.
use vstd::prelude::*;

verus! {

/// A shutdown mode.
///
/// Every mode closes new message acceptance.
#[derive(Clone, Copy, Debug, PartialEq, Eq, Structural)]
pub enum Shutdown {
    /// Finishes dispatched replies and discards queued messages.
    Stop,
    /// Dispatches eligible queued messages and finishes resulting replies.
    Drain,
    /// Cancels cooperative work and skips graceful cleanup.
    Kill,
}

/// What a shutdown request achieved.
#[derive(Clone, Copy, Debug, PartialEq, Eq, Structural)]
pub enum ShutdownStatus {
    /// This request committed its mode.
    Requested,
    /// An earlier request already committed this mode; it stays.
    InProgress(Shutdown),
    /// The actor is already failing, aborting, or exited.
    Terminating,
}

/// Why an actor stopped.
#[derive(Clone, Copy, Debug, PartialEq, Eq, Structural)]
pub enum ExitReason {
    /// A Stop shutdown completed.
    Stopped,
    /// A Drain shutdown completed.
    Drained,
    /// A Kill shutdown completed.
    Killed,
    /// Actor work panicked.
    Panicked,
    /// The executor dropped the actor task.
    Aborted,
}

/// Whether every descendant confirmed its termination.
#[derive(Clone, Copy, Debug, PartialEq, Eq, Structural)]
pub enum SubtreeStatus {
    /// Every descendant terminated.
    Terminated,
    /// Some descendant did not confirm termination.
    Unconfirmed,
}

/// The final status of one actor: its local reason and its subtree.
#[derive(Clone, Copy, Debug, PartialEq, Eq, Structural)]
pub struct ExitStatus {
    reason: ExitReason,
    subtree: SubtreeStatus,
}

impl ExitStatus {
    /// The local exit reason.
    pub closed spec fn reason_of(self) -> ExitReason {
        self.reason
    }

    /// The subtree confirmation.
    pub closed spec fn subtree_of(self) -> SubtreeStatus {
        self.subtree
    }

    /// The status with these parts.
    pub closed spec fn of(reason: ExitReason, subtree: SubtreeStatus) -> Self {
        ExitStatus { reason, subtree }
    }

    /// A status is exactly its two parts.
    pub proof fn lemma_parts(reason: ExitReason, subtree: SubtreeStatus)
        ensures
            Self::of(reason, subtree).reason_of() == reason,
            Self::of(reason, subtree).subtree_of() == subtree,
    {
    }

    /// Combines a local reason with a subtree confirmation.
    pub fn new(reason: ExitReason, subtree: SubtreeStatus) -> (s: Self)
        ensures
            s == Self::of(reason, subtree),
            s.reason_of() == reason,
            s.subtree_of() == subtree,
    {
        ExitStatus { reason, subtree }
    }

    /// The local exit reason.
    pub fn reason(&self) -> (r: ExitReason)
        ensures
            r == self.reason_of(),
    {
        self.reason
    }

    /// The subtree confirmation.
    pub fn subtree(&self) -> (r: SubtreeStatus)
        ensures
            r == self.subtree_of(),
    {
        self.subtree
    }
}

/// The lifecycle mode of one actor.
#[derive(Clone, Copy, Debug, PartialEq, Eq, Structural)]
pub enum Mode {
    /// Accepting and dispatching work.
    Running,
    /// A Drain shutdown committed.
    Draining,
    /// A Stop shutdown committed.
    Stopping,
    /// A Kill shutdown committed.
    Killing,
    /// Actor work failed.
    Failing,
    /// The executor is tearing the actor down.
    Aborting,
    /// The actor published its final status.
    Exited(ExitStatus),
}

/// The mode that a shutdown request commits from `Running`.
pub open spec fn committed_mode(shutdown: Shutdown) -> Mode {
    match shutdown {
        Shutdown::Stop => Mode::Stopping,
        Shutdown::Drain => Mode::Draining,
        Shutdown::Kill => Mode::Killing,
    }
}

/// The mode and status after requesting `shutdown` in `mode`.
///
/// The first graceful request wins; Kill upgrades either graceful mode;
/// a failing, aborting, or exited actor changes no more.
pub open spec fn requested(mode: Mode, shutdown: Shutdown) -> (Mode, ShutdownStatus) {
    match mode {
        Mode::Running => (committed_mode(shutdown), ShutdownStatus::Requested),
        Mode::Stopping => if shutdown == Shutdown::Kill {
            (Mode::Killing, ShutdownStatus::Requested)
        } else {
            (Mode::Stopping, ShutdownStatus::InProgress(Shutdown::Stop))
        },
        Mode::Draining => if shutdown == Shutdown::Kill {
            (Mode::Killing, ShutdownStatus::Requested)
        } else {
            (Mode::Draining, ShutdownStatus::InProgress(Shutdown::Drain))
        },
        Mode::Killing => (Mode::Killing, ShutdownStatus::InProgress(Shutdown::Kill)),
        _ => (mode, ShutdownStatus::Terminating),
    }
}

/// The mode after actor work fails in `mode`: live and graceful modes turn
/// to `Failing`; Kill, teardown, and exit keep their mode.
pub open spec fn failed(mode: Mode) -> Mode {
    match mode {
        Mode::Running | Mode::Draining | Mode::Stopping => Mode::Failing,
        _ => mode,
    }
}

/// The order of modes: a lifecycle only ever moves forward.
pub open spec fn stage(mode: Mode) -> nat {
    match mode {
        Mode::Running => 0,
        Mode::Draining | Mode::Stopping => 1,
        Mode::Killing | Mode::Failing => 2,
        Mode::Aborting => 3,
        Mode::Exited(_) => 4,
    }
}

/// Graceful shutdown is first-wins: once Stop or Drain committed, another
/// graceful request changes nothing and reports the mode in progress.
pub proof fn law_graceful_first_wins(mode: Mode, shutdown: Shutdown)
    requires
        mode == Mode::Stopping || mode == Mode::Draining,
        shutdown != Shutdown::Kill,
    ensures
        requested(mode, shutdown).0 == mode,
        requested(mode, shutdown).1 == ShutdownStatus::InProgress(
            if mode == Mode::Stopping {
                Shutdown::Stop
            } else {
                Shutdown::Drain
            },
        ),
{
}

/// Kill can upgrade a graceful shutdown, and commits from a running actor.
pub proof fn law_kill_upgrades(mode: Mode)
    requires
        mode == Mode::Running || mode == Mode::Stopping || mode == Mode::Draining,
    ensures
        requested(mode, Shutdown::Kill) == (Mode::Killing, ShutdownStatus::Requested),
{
}

/// A lifecycle only moves forward: no request or failure lowers the stage,
/// so an actor never returns to running or to a graceful mode once it was
/// killed, failed, torn down, or exited.
pub proof fn law_lifecycle_moves_forward(mode: Mode, shutdown: Shutdown)
    ensures
        stage(requested(mode, shutdown).0) >= stage(mode),
        stage(failed(mode)) >= stage(mode),
        mode != Mode::Running ==> requested(mode, shutdown).0 != Mode::Running,
        stage(mode) >= 2 ==> requested(mode, shutdown).0 == mode,
{
}

/// Every shutdown mode ends running: whatever mode a request meets, the
/// actor is in a shutdown or terminal mode afterwards, never `Running`,
/// the mode in which new messages are accepted.
pub proof fn law_shutdown_leaves_running(mode: Mode, shutdown: Shutdown)
    ensures
        requested(mode, shutdown).0 != Mode::Running,
        mode == Mode::Running ==> requested(mode, shutdown).0 == committed_mode(shutdown),
{
}

/// A request reports `Requested` exactly when it changes the mode; from
/// `Running` it commits the requested mode. A killing actor reports Kill
/// in progress; a failing, aborting, or exited
/// actor answers `Terminating` and keeps its mode.
pub proof fn law_request_reports_commit(mode: Mode, shutdown: Shutdown)
    ensures
        (requested(mode, shutdown).1 == ShutdownStatus::Requested) == (requested(mode, shutdown).0
            != mode),
        mode == Mode::Running ==> requested(mode, shutdown) == (
            match shutdown {
                Shutdown::Stop => Mode::Stopping,
                Shutdown::Drain => Mode::Draining,
                Shutdown::Kill => Mode::Killing,
            },
            ShutdownStatus::Requested,
        ),
        mode == Mode::Killing ==> requested(mode, shutdown) == (
            Mode::Killing,
            ShutdownStatus::InProgress(Shutdown::Kill),
        ),
        stage(mode) >= 2 && mode != Mode::Killing ==> requested(mode, shutdown) == (
            mode,
            ShutdownStatus::Terminating,
        ),
{
}

/// Failure commits from every live or graceful mode, and leaves a killing,
/// failing, aborting, or exited actor as it is.
pub proof fn law_failure_commits(mode: Mode)
    ensures
        stage(mode) <= 1 ==> failed(mode) == Mode::Failing,
        stage(mode) >= 2 ==> failed(mode) == mode,
{
}

/// The lifecycle gate of one actor.
///
/// Every transition commits here; the actor task reads the mode between
/// polls.
pub struct Control {
    mode: Mode,
}

impl Control {
    /// The current mode.
    pub closed spec fn current(&self) -> Mode {
        self.mode
    }

    /// A running actor.
    pub fn new() -> (c: Self)
        ensures
            c.current() == Mode::Running,
    {
        Control { mode: Mode::Running }
    }

    /// The current mode.
    pub fn mode(&self) -> (m: Mode)
        ensures
            m == self.current(),
    {
        self.mode
    }

    /// Requests a shutdown mode; see [`requested`].
    pub fn request(&mut self, shutdown: Shutdown) -> (status: ShutdownStatus)
        ensures
            (final(self).current(), status) == requested(old(self).current(), shutdown),
    {
        match self.mode {
            Mode::Running => {
                self.mode = match shutdown {
                    Shutdown::Stop => Mode::Stopping,
                    Shutdown::Drain => Mode::Draining,
                    Shutdown::Kill => Mode::Killing,
                };
                ShutdownStatus::Requested
            },
            Mode::Stopping | Mode::Draining => {
                if shutdown == Shutdown::Kill {
                    self.mode = Mode::Killing;
                    ShutdownStatus::Requested
                } else if self.mode == Mode::Stopping {
                    ShutdownStatus::InProgress(Shutdown::Stop)
                } else {
                    ShutdownStatus::InProgress(Shutdown::Drain)
                }
            },
            Mode::Killing => ShutdownStatus::InProgress(Shutdown::Kill),
            _ => ShutdownStatus::Terminating,
        }
    }

    /// Records that actor work failed; see [`failed`].
    pub fn begin_failure(&mut self)
        ensures
            final(self).current() == failed(old(self).current()),
    {
        match self.mode {
            Mode::Running | Mode::Draining | Mode::Stopping => {
                self.mode = Mode::Failing;
            },
            _ => {},
        }
    }

    /// Records that the executor is tearing the actor down.
    ///
    /// An exited actor keeps its published status.
    pub fn begin_abort(&mut self)
        ensures
            final(self).current() == (if old(self).current() is Exited {
                old(self).current()
            } else {
                Mode::Aborting
            }),
    {
        match self.mode {
            Mode::Exited(_) => {},
            _ => {
                self.mode = Mode::Aborting;
            },
        }
    }

    /// Publishes the final status; the first publication stays.
    pub fn publish(&mut self, status: ExitStatus)
        ensures
            final(self).current() == (if old(self).current() is Exited {
                old(self).current()
            } else {
                Mode::Exited(status)
            }),
    {
        match self.mode {
            Mode::Exited(_) => {},
            _ => {
                self.mode = Mode::Exited(status);
            },
        }
    }
}

} // verus!
