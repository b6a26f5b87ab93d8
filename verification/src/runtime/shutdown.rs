//! Decisions of the shutdown paths: Stop, Drain, Kill, and failure.
//!
//! Graceful shutdown is post-order: a parent finishes the work retained by
//! the selected mode, then waits for children, and only then runs its
//! cleanup hook. Each step below decides what follows a finished await.
use vstd::prelude::*;

use crate::lifecycle::{
    failed, stage, Control, ExitReason, ExitStatus, Mode, Shutdown, SubtreeStatus,
};
use crate::scheduling::runtime::SchedulerTurn;

verus! {

/// How one awaited piece of actor work ended.
#[derive(Debug)]
pub enum Work<T> {
    /// The work finished with a value.
    Complete(T),
    /// A Kill committed first.
    Killed,
    /// The work panicked.
    Panicked,
    /// The work finished, then dropping its frame panicked.
    DropPanicked(T),
}

/// Where a shutdown path goes when it cannot finish gracefully.
#[derive(Clone, Copy, Debug, PartialEq, Eq, Structural)]
pub enum Escalation {
    /// Continue on the Kill path.
    Kill,
    /// Continue on the failure path.
    Fail,
}

/// The escalation that ends of graceful work call for: none after
/// completion, Kill after a committed Kill, failure after any panic.
pub open spec fn work_escalation<T>(work: Work<T>) -> Option<Escalation> {
    match work {
        Work::Complete(_) => None,
        Work::Killed => Some(Escalation::Kill),
        Work::Panicked | Work::DropPanicked(_) => Some(Escalation::Fail),
    }
}

/// Where a graceful path continues after its awaited work ended.
pub fn escalation<T>(work: &Work<T>) -> (e: Option<Escalation>)
    ensures
        e == work_escalation(*work),
{
    match work {
        Work::Complete(_) => None,
        Work::Killed => Some(Escalation::Kill),
        Work::Panicked | Work::DropPanicked(_) => Some(Escalation::Fail),
    }
}

/// Where Stop continues after its discard pass saw the mode change.
///
/// A lifecycle never returns to a graceful mode, and teardown cannot
/// repoll this path, so the new mode is Kill or failure.
pub fn stop_mode_changed(mode: Mode) -> (e: Escalation)
    requires
        mode == Mode::Killing || mode == Mode::Failing,
    ensures
        e == (if mode == Mode::Killing {
            Escalation::Kill
        } else {
            Escalation::Fail
        }),
{
    match mode {
        Mode::Killing => Escalation::Kill,
        _ => Escalation::Fail,
    }
}

/// The check before each wait for dispatched replies during Stop: `None`
/// keeps waiting; otherwise the wait ends with this outcome.
pub open spec fn reply_wait_end(mode: Mode) -> Option<Work<()>> {
    match mode {
        Mode::Killing => Some(Work::Killed),
        Mode::Failing => Some(Work::Panicked),
        Mode::Running | Mode::Draining | Mode::Stopping => None,
        Mode::Aborting | Mode::Exited(_) => Some(Work::Killed),
    }
}

/// Whether Stop keeps waiting for its dispatched replies in `mode`.
pub fn reply_wait(mode: Mode) -> (end: Option<Work<()>>)
    ensures
        end == reply_wait_end(mode),
{
    match mode {
        Mode::Killing => Some(Work::Killed),
        Mode::Failing => Some(Work::Panicked),
        Mode::Running | Mode::Draining | Mode::Stopping => None,
        Mode::Aborting | Mode::Exited(_) => Some(Work::Killed),
    }
}

/// One decision of the Stop path's wait for dispatched replies: an idle
/// scheduler ends the wait with completion; otherwise the mode gate of
/// [`reply_wait_end`] applies, and `None` polls the replies again.
pub open spec fn reply_wait_step(mode: Mode, idle: bool) -> Option<Work<()>> {
    if idle {
        Some(Work::Complete(()))
    } else {
        reply_wait_end(mode)
    }
}

/// The Stop path's wait for every dispatched reply.
///
/// The wait checks for idleness first, then the mode, then polls the
/// replies under the lifecycle guard; a panic while polling ends it.
pub struct ReplyWait;

impl ReplyWait {
    /// Starts the wait.
    pub fn new() -> (w: Self) {
        ReplyWait
    }

    /// Decides before each poll; `None` means poll the replies again.
    ///
    /// The wait completes exactly when no reply is live.
    pub fn next(&self, mode: Mode, idle: bool) -> (end: Option<Work<()>>)
        ensures
            end == reply_wait_step(mode, idle),
            (end == Some(Work::<()>::Complete(()))) == idle,
    {
        if idle {
            return Some(Work::Complete(()));
        }
        reply_wait(mode)
    }

    /// Decides after one poll of the replies: a contained panic ends the
    /// wait as a failure; otherwise the wait goes on.
    pub fn after_poll(&self, panicked: bool) -> (end: Option<Work<()>>)
        ensures
            end == (if panicked {
                Some(Work::<()>::Panicked)
            } else {
                None
            }),
    {
        if panicked {
            Some(Work::Panicked)
        } else {
            None
        }
    }
}

/// What graceful cleanup asks of its caller next.
#[derive(Clone, Copy, Debug, PartialEq, Eq, Structural)]
pub enum GracefulAction {
    /// Send this shutdown to every owned child.
    RequestChildren(Shutdown),
    /// Wait until every owned child terminated.
    WaitChildren,
    /// Run the actor's stop hook with this reason.
    RunStopHook(ExitReason),
    /// Cleanup finished.
    Done,
    /// Cleanup was cut short; continue on this path.
    Escalate(Escalation),
}

/// Graceful cleanup, in post-order: a parent first asks its children to
/// shut down, then waits for all of them, and only then runs its own stop
/// hook.
pub struct GracefulFinish {
    shutdown: Shutdown,
    reason: ExitReason,
    stage: u8,
}

/// One step of graceful cleanup from `before` to `after`: a completed step
/// moves to the next stage; any other end escalates and finishes.
pub open spec fn graceful_step(
    before: GracefulFinish,
    finished: Work<()>,
    after: GracefulFinish,
    action: GracefulAction,
) -> bool {
    &&& after.shutdown_of() == before.shutdown_of()
    &&& after.reason_of() == before.reason_of()
    &&& match finished {
        Work::Complete(_) => {
            &&& after.stage() == before.stage() + 1
            &&& before.stage() == 0 ==> action == GracefulAction::RequestChildren(
                before.shutdown_of(),
            )
            &&& before.stage() == 1 ==> action == GracefulAction::WaitChildren
            &&& before.stage() == 2 ==> action == GracefulAction::RunStopHook(before.reason_of())
            &&& before.stage() == 3 ==> action == GracefulAction::Done
        },
        Work::Killed => action == GracefulAction::Escalate(Escalation::Kill) && after.stage()
            == 4,
        Work::Panicked | Work::DropPanicked(_) => action == GracefulAction::Escalate(
            Escalation::Fail,
        ) && after.stage() == 4,
    }
}

impl GracefulFinish {
    /// The graceful mode being finished.
    pub closed spec fn shutdown_of(&self) -> Shutdown {
        self.shutdown
    }

    /// The reason the stop hook receives.
    pub closed spec fn reason_of(&self) -> ExitReason {
        self.reason
    }

    /// Progress: 0 before the children are asked, 1 once asked, 2 once
    /// they terminated, 3 once the hook ran, 4 when over.
    pub closed spec fn stage(&self) -> nat {
        self.stage as nat
    }

    /// Starts graceful cleanup for Stop or Drain.
    pub fn new(shutdown: Shutdown, reason: ExitReason) -> (g: Self)
        requires
            shutdown != Shutdown::Kill,
        ensures
            g.stage() == 0,
            g.shutdown_of() == shutdown,
            g.reason_of() == reason,
    {
        GracefulFinish { shutdown, reason, stage: 0 }
    }

    /// Reports how the last step ended (completion to start) and returns
    /// the next step.
    pub fn next(&mut self, finished: Work<()>) -> (action: GracefulAction)
        requires
            old(self).stage() < 4,
        ensures
            graceful_step(*old(self), finished, *final(self), action),
    {
        match finished {
            Work::Complete(_) => {
                let stage = self.stage;
                self.stage = stage + 1;
                if stage == 0 {
                    GracefulAction::RequestChildren(self.shutdown)
                } else if stage == 1 {
                    GracefulAction::WaitChildren
                } else if stage == 2 {
                    GracefulAction::RunStopHook(self.reason)
                } else {
                    GracefulAction::Done
                }
            },
            Work::Killed => {
                self.stage = 4;
                GracefulAction::Escalate(Escalation::Kill)
            },
            Work::Panicked | Work::DropPanicked(_) => {
                self.stage = 4;
                GracefulAction::Escalate(Escalation::Fail)
            },
        }
    }
}

/// Graceful cleanup is post-order: the stop hook runs only right after
/// every child was asked and waited for, and at most once, since each step
/// moves forward and the hook belongs to one stage; an interrupted step
/// escalates as its work ended.
pub proof fn law_graceful_post_order(
    before: GracefulFinish,
    finished: Work<()>,
    after: GracefulFinish,
    action: GracefulAction,
)
    requires
        before.stage() < 4,
        graceful_step(before, finished, after, action),
    ensures
        action is RunStopHook ==> before.stage() == 2 && after.stage() == 3
            && finished is Complete,
        action is WaitChildren ==> before.stage() == 1,
        after.stage() > before.stage(),
        !(finished is Complete) ==> action == GracefulAction::Escalate(
            work_escalation(finished)->0,
        ),
{
}

/// Step `i` of recorded graceful cleanup: `next` took `states[i]` to
/// `states[i + 1]` with `finished[i]` and returned `actions[i]`.
pub open spec fn graceful_step_at(
    states: Seq<GracefulFinish>,
    finished: Seq<Work<()>>,
    actions: Seq<GracefulAction>,
    i: int,
) -> bool {
    &&& states[i].stage() < 4
    &&& graceful_step(states[i], finished[i], states[i + 1], actions[i])
}

/// A recorded run of `next` calls, each on the state the previous one left.
pub open spec fn graceful_run(
    states: Seq<GracefulFinish>,
    finished: Seq<Work<()>>,
    actions: Seq<GracefulAction>,
) -> bool {
    &&& states.len() == actions.len() + 1
    &&& finished.len() == actions.len()
    &&& forall|i: int|
        0 <= i < actions.len() ==> #[trigger] graceful_step_at(states, finished, actions, i)
}

proof fn lemma_graceful_prefix(
    states: Seq<GracefulFinish>,
    finished: Seq<Work<()>>,
    actions: Seq<GracefulAction>,
    k: int,
)
    requires
        graceful_run(states, finished, actions),
        states[0].stage() == 0,
        0 <= k <= actions.len(),
    ensures
        states[k].shutdown_of() == states[0].shutdown_of(),
        states[k].reason_of() == states[0].reason_of(),
        k < actions.len() ==> states[k].stage() == k,
    decreases k,
{
    if k > 0 {
        lemma_graceful_prefix(states, finished, actions, k - 1);
        assert(graceful_step_at(states, finished, actions, k - 1));
        if k < actions.len() {
            assert(graceful_step_at(states, finished, actions, k));
        }
    }
}

/// Graceful cleanup runs its stop hook once, and only in post-order: in a
/// run from the start, the hook is the third step, after the children were
/// asked with the graceful mode and after the wait for all of them
/// completed, and no other step runs it.
pub proof fn law_graceful_run_post_order(
    states: Seq<GracefulFinish>,
    finished: Seq<Work<()>>,
    actions: Seq<GracefulAction>,
    hook: int,
)
    requires
        graceful_run(states, finished, actions),
        states[0].stage() == 0,
        0 <= hook < actions.len(),
        actions[hook] is RunStopHook,
    ensures
        hook == 2,
        actions[0] == GracefulAction::RequestChildren(states[0].shutdown_of()),
        actions[1] == GracefulAction::WaitChildren,
        finished[2] is Complete,
        actions[hook] == GracefulAction::RunStopHook(states[0].reason_of()),
        forall|i: int| 0 <= i < actions.len() && i != hook ==> !(actions[i] is RunStopHook),
{
    lemma_graceful_prefix(states, finished, actions, hook);
    assert(graceful_step_at(states, finished, actions, hook));
    law_graceful_post_order(states[hook], finished[hook], states[hook + 1], actions[hook]);
    lemma_graceful_prefix(states, finished, actions, 0);
    lemma_graceful_prefix(states, finished, actions, 1);
    assert(graceful_step_at(states, finished, actions, 0));
    assert(graceful_step_at(states, finished, actions, 1));
    assert forall|i: int| 0 <= i < actions.len() && i != hook implies !(
    actions[i] is RunStopHook) by {
        lemma_graceful_prefix(states, finished, actions, i);
        assert(graceful_step_at(states, finished, actions, i));
        law_graceful_post_order(states[i], finished[i], states[i + 1], actions[i]);
    }
}

/// What the Stop path does next.
#[derive(Clone, Copy, Debug, PartialEq, Eq, Structural)]
pub enum StopAction {
    /// Wait for every dispatched reply.
    WaitReplies,
    /// Run graceful cleanup for Stop.
    Graceful,
    /// Continue on this path.
    Escalate(Escalation),
    /// The actor stopped with this reason.
    Finish(ExitReason),
}

/// The Stop path: discard the queued messages, finish the dispatched
/// replies, then clean up gracefully.
pub struct StopPath {
    stage: u8,
}

impl StopPath {
    /// Progress: 0 while discarding, 1 while waiting for replies, 2 during
    /// graceful cleanup, 3 when over.
    pub closed spec fn stage(&self) -> nat {
        self.stage as nat
    }

    /// Starts the path; the caller first discards the queued messages.
    pub fn new() -> (p: Self)
        ensures
            p.stage() == 0,
    {
        StopPath { stage: 0 }
    }

    /// After the discard pass: wait for the replies, or leave for Kill or
    /// failure when the mode changed.
    pub fn after_discard(&mut self, outcome: DiscardOutcome, mode: Mode) -> (action: StopAction)
        requires
            old(self).stage() == 0,
            outcome == DiscardOutcome::ModeChanged ==> mode == Mode::Killing || mode
                == Mode::Failing,
        ensures
            outcome == DiscardOutcome::Complete ==> action == StopAction::WaitReplies
                && final(self).stage() == 1,
            outcome == DiscardOutcome::ModeChanged ==> action == StopAction::Escalate(
                if mode == Mode::Killing {
                    Escalation::Kill
                } else {
                    Escalation::Fail
                },
            ) && final(self).stage() == 3,
    {
        match outcome {
            DiscardOutcome::Complete => {
                self.stage = 1;
                StopAction::WaitReplies
            },
            DiscardOutcome::ModeChanged => {
                self.stage = 3;
                StopAction::Escalate(stop_mode_changed(mode))
            },
        }
    }

    /// After the reply wait: graceful cleanup, or escalation.
    pub fn after_replies(&mut self, work: Work<()>) -> (action: StopAction)
        requires
            old(self).stage() == 1,
        ensures
            work is Complete ==> action == StopAction::Graceful && final(self).stage() == 2,
            !(work is Complete) ==> action == StopAction::Escalate(work_escalation(work)->0)
                && final(self).stage() == 3,
    {
        match escalation(&work) {
            None => {
                self.stage = 2;
                StopAction::Graceful
            },
            Some(e) => {
                self.stage = 3;
                StopAction::Escalate(e)
            },
        }
    }

    /// After graceful cleanup: stopped, or escalation.
    pub fn after_graceful(&mut self, work: Work<()>) -> (action: StopAction)
        requires
            old(self).stage() == 2,
        ensures
            final(self).stage() == 3,
            work is Complete ==> action == StopAction::Finish(ExitReason::Stopped),
            !(work is Complete) ==> action == StopAction::Escalate(work_escalation(work)->0),
    {
        self.stage = 3;
        match escalation(&work) {
            None => StopAction::Finish(ExitReason::Stopped),
            Some(e) => StopAction::Escalate(e),
        }
    }
}

/// What the Kill or failure teardown asks of its caller next.
#[derive(Clone, Copy, Debug, PartialEq, Eq, Structural)]
pub enum TeardownAction {
    /// Close message admission.
    CloseInbox,
    /// Send Kill to every owned child.
    KillChildren,
    /// Drop every scheduled reply.
    ClearReplies,
    /// Run a discard pass expecting this mode.
    Discard(Mode),
    /// Wait until every owned child terminated.
    WaitChildren,
    /// The teardown is over with this reason.
    Finish(ExitReason),
}

/// The Kill or failure teardown: close admission, cancel the subtree
/// before running any user destructor, drop the scheduled replies and the
/// accepted messages, then wait for the children.
pub struct Teardown {
    reason: ExitReason,
    initialized: bool,
    killing: bool,
    stage: u8,
}

/// The mode the first discard pass expects: Kill expects `Killing`; the
/// failure path expects the mode it reads.
pub open spec fn first_discard_mode(killing: bool, mode: Mode) -> Mode {
    if killing {
        Mode::Killing
    } else {
        mode
    }
}

/// One teardown step from `before` to `after` with the current `mode` and
/// the outcome of a running discard pass.
pub open spec fn teardown_step(
    before: Teardown,
    mode: Mode,
    discarded: Option<DiscardOutcome>,
    after: Teardown,
    action: TeardownAction,
) -> bool {
    let s = before.stage();
    &&& after.reason_of() == before.reason_of()
    &&& after.clears_replies() == before.clears_replies()
    &&& after.is_kill() == before.is_kill()
    &&& s == 0 ==> action == TeardownAction::CloseInbox && after.stage() == 1
    &&& s == 1 ==> action == TeardownAction::KillChildren && after.stage() == 2
    &&& s == 2 && before.clears_replies() ==> action == TeardownAction::ClearReplies
        && after.stage() == 3
    &&& (s == 3 || (s == 2 && !before.clears_replies())) ==> action == TeardownAction::Discard(
        first_discard_mode(before.is_kill(), mode),
    ) && after.stage() == 4
    &&& s == 4 && discarded == Some(DiscardOutcome::ModeChanged) ==> action
        == TeardownAction::Discard(mode) && after.stage() == 4
    &&& s == 4 && discarded == Some(DiscardOutcome::Complete) ==> action
        == TeardownAction::WaitChildren && after.stage() == 5
    &&& s == 5 ==> action == TeardownAction::Finish(before.reason_of()) && after.stage() == 6
}

impl Teardown {
    /// The reason the teardown reports.
    pub closed spec fn reason_of(&self) -> ExitReason {
        self.reason
    }

    /// Whether the actor had started, so scheduled replies may exist.
    pub closed spec fn clears_replies(&self) -> bool {
        self.initialized
    }

    /// Whether this is the Kill teardown.
    pub closed spec fn is_kill(&self) -> bool {
        self.killing
    }

    /// Progress: 0 close admission, 1 kill children, 2 clear replies, 3
    /// first discard, 4 discarding, 5 wait for children, 6 over.
    pub closed spec fn stage(&self) -> nat {
        self.stage as nat
    }

    /// The Kill teardown; `initialized` tells whether handlers may have
    /// been dispatched.
    pub fn kill(initialized: bool) -> (t: Self)
        ensures
            t.reason_of() == ExitReason::Killed,
            t.clears_replies() == initialized,
            t.is_kill(),
            t.stage() == 0,
    {
        Teardown { reason: ExitReason::Killed, initialized, killing: true, stage: 0 }
    }

    /// Commits the failure, then starts the failure teardown; an actor
    /// whose status was already published returns it untouched.
    pub fn fail(control: &mut Control, initialized: bool) -> (r: Result<Self, ExitStatus>)
        ensures
            final(control).current() == failed(old(control).current()),
            match failure_end(final(control).current()) {
                Ok(reason) => r matches Ok(t) && t.reason_of() == reason && t.clears_replies()
                    == initialized && !t.is_kill() && t.stage() == 0,
                Err(status) => r == Err::<Teardown, ExitStatus>(status),
            },
    {
        control.begin_failure();
        match failure_reason(control.mode()) {
            Ok(reason) => Ok(Teardown { reason, initialized, killing: false, stage: 0 }),
            Err(status) => Err(status),
        }
    }

    /// Returns the next step; `discarded` reports how a running discard
    /// pass ended, and `mode` is the current mode.
    pub fn next(&mut self, mode: Mode, discarded: Option<DiscardOutcome>) -> (action:
        TeardownAction)
        requires
            old(self).stage() < 6,
            old(self).stage() == 4 ==> discarded is Some,
        ensures
            teardown_step(*old(self), mode, discarded, *final(self), action),
    {
        match self.stage {
            0 => {
                self.stage = 1;
                TeardownAction::CloseInbox
            },
            1 => {
                self.stage = 2;
                TeardownAction::KillChildren
            },
            2 if self.initialized => {
                self.stage = 3;
                TeardownAction::ClearReplies
            },
            2 | 3 => {
                self.stage = 4;
                TeardownAction::Discard(if self.killing { Mode::Killing } else { mode })
            },
            4 => match discarded {
                Some(DiscardOutcome::ModeChanged) => TeardownAction::Discard(mode),
                _ => {
                    self.stage = 5;
                    TeardownAction::WaitChildren
                },
            },
            _ => {
                self.stage = 6;
                TeardownAction::Finish(self.reason)
            },
        }
    }
}

/// The teardown cancels the subtree before it drops any user work, and
/// reports its reason only after the children terminated.
pub proof fn law_teardown_kills_children_first(
    before: Teardown,
    mode: Mode,
    discarded: Option<DiscardOutcome>,
    after: Teardown,
    action: TeardownAction,
)
    requires
        before.stage() < 6,
        before.stage() == 4 ==> discarded is Some,
        teardown_step(before, mode, discarded, after, action),
    ensures
        action == TeardownAction::ClearReplies || action is Discard ==> before.stage() >= 2,
        action is Finish ==> before.stage() == 5 && action == TeardownAction::Finish(
            before.reason_of(),
        ),
        after.stage() >= before.stage(),
{
    let s = before.stage();
    if s == 4 {
        assert(discarded == Some(DiscardOutcome::ModeChanged) || discarded == Some(
            DiscardOutcome::Complete,
        ));
    }
}

/// Step `i` of a recorded teardown: `next` took `states[i]` to
/// `states[i + 1]` with `modes[i]` and `discards[i]` and returned
/// `actions[i]`.
pub open spec fn teardown_step_at(
    states: Seq<Teardown>,
    modes: Seq<Mode>,
    discards: Seq<Option<DiscardOutcome>>,
    actions: Seq<TeardownAction>,
    i: int,
) -> bool {
    &&& states[i].stage() < 6
    &&& states[i].stage() == 4 ==> discards[i] is Some
    &&& teardown_step(states[i], modes[i], discards[i], states[i + 1], actions[i])
}

/// A recorded run of `next` calls, each on the state the previous one left.
pub open spec fn teardown_run(
    states: Seq<Teardown>,
    modes: Seq<Mode>,
    discards: Seq<Option<DiscardOutcome>>,
    actions: Seq<TeardownAction>,
) -> bool {
    &&& states.len() == actions.len() + 1
    &&& modes.len() == actions.len()
    &&& discards.len() == actions.len()
    &&& forall|i: int|
        0 <= i < actions.len() ==> #[trigger] teardown_step_at(
            states,
            modes,
            discards,
            actions,
            i,
        )
}

proof fn lemma_teardown_prefix(
    states: Seq<Teardown>,
    modes: Seq<Mode>,
    discards: Seq<Option<DiscardOutcome>>,
    actions: Seq<TeardownAction>,
    k: int,
)
    requires
        teardown_run(states, modes, discards, actions),
        states[0].stage() == 0,
        0 <= k <= actions.len(),
    ensures
        states[k].reason_of() == states[0].reason_of(),
        states[k].stage() >= 1 ==> exists|j: int|
            0 <= j < k && actions[j] == TeardownAction::CloseInbox,
        states[k].stage() >= 2 ==> exists|j: int|
            0 <= j < k && actions[j] == TeardownAction::KillChildren,
    decreases k,
{
    if k > 0 {
        lemma_teardown_prefix(states, modes, discards, actions, k - 1);
        assert(teardown_step_at(states, modes, discards, actions, k - 1));
        let s = states[k - 1].stage();
        if s == 4 {
            assert(discards[k - 1] == Some(DiscardOutcome::ModeChanged) || discards[k - 1]
                == Some(DiscardOutcome::Complete));
        }
    }
}

/// Every teardown run that ends reaches the whole subtree first: a run
/// from the start that reports its end has closed admission and sent Kill
/// to every owned child at earlier steps, and reports the reason it was
/// started with.
pub proof fn law_teardown_run_reaches_children(
    states: Seq<Teardown>,
    modes: Seq<Mode>,
    discards: Seq<Option<DiscardOutcome>>,
    actions: Seq<TeardownAction>,
    last: int,
)
    requires
        teardown_run(states, modes, discards, actions),
        states[0].stage() == 0,
        0 <= last < actions.len(),
        actions[last] is Finish,
    ensures
        exists|j: int| 0 <= j < last && actions[j] == TeardownAction::CloseInbox,
        exists|j: int| 0 <= j < last && actions[j] == TeardownAction::KillChildren,
        actions[last] == TeardownAction::Finish(states[0].reason_of()),
{
    lemma_teardown_prefix(states, modes, discards, actions, last);
    assert(teardown_step_at(states, modes, discards, actions, last));
    law_teardown_kills_children_first(
        states[last],
        modes[last],
        discards[last],
        states[last + 1],
        actions[last],
    );
}

/// How each lifecycle mode routes the shutdown paths: a live or graceful
/// mode keeps the Drain loop going and the reply wait waiting; Kill, and a
/// teardown or exit, end the wait as killed; a failure ends it as
/// panicked; the Drain loop leaves for Kill or failure, or returns the
/// published status, or the aborted one.
pub proof fn law_modes_route_paths(mode: Mode)
    ensures
        (drain_gate_for(mode) == DrainGate::Continue) == (stage(mode) <= 1),
        (reply_wait_end(mode) is None) == (stage(mode) <= 1),
        mode == Mode::Killing ==> drain_gate_for(mode) == DrainGate::Kill && reply_wait_end(mode)
            == Some(Work::<()>::Killed),
        mode == Mode::Failing ==> drain_gate_for(mode) == DrainGate::Fail && reply_wait_end(mode)
            == Some(Work::<()>::Panicked),
        mode == Mode::Aborting ==> drain_gate_for(mode) == DrainGate::Return(
            ExitStatus::of(ExitReason::Aborted, SubtreeStatus::Unconfirmed),
        ) && reply_wait_end(mode) == Some(Work::<()>::Killed),
        mode matches Mode::Exited(s) ==> drain_gate_for(mode) == DrainGate::Return(s)
            && reply_wait_end(mode) == Some(Work::<()>::Killed),
        mode matches Mode::Exited(s) ==> failure_end(mode) == Err::<ExitReason, ExitStatus>(s),
        mode == Mode::Killing ==> failure_end(mode) == Ok::<ExitReason, ExitStatus>(
            ExitReason::Killed,
        ),
        mode == Mode::Aborting ==> failure_end(mode) == Ok::<ExitReason, ExitStatus>(
            ExitReason::Aborted,
        ),
        stage(mode) <= 1 || mode == Mode::Failing ==> failure_end(mode) == Ok::<
            ExitReason,
            ExitStatus,
        >(ExitReason::Panicked),
{
}

/// Graceful work that ended escalates exactly when it did not complete: a
/// committed Kill to the Kill path, any panic to the failure path.
pub proof fn law_work_escalation<T>(work: Work<T>)
    ensures
        (work_escalation(work) is None) == (work is Complete),
        work is Killed ==> work_escalation(work) == Some(Escalation::Kill),
        work is Panicked || work is DropPanicked ==> work_escalation(work) == Some(
            Escalation::Fail,
        ),
{
}

/// What the Drain loop does at the top of each round.
#[derive(Clone, Copy, Debug, PartialEq, Eq, Structural)]
pub enum DrainGate {
    /// Continue on the Kill path.
    Kill,
    /// Continue on the failure path.
    Fail,
    /// Run another drain turn.
    Continue,
    /// The actor is done with this status.
    Return(ExitStatus),
}

/// The Drain loop's decision for `mode`.
pub open spec fn drain_gate_for(mode: Mode) -> DrainGate {
    match mode {
        Mode::Killing => DrainGate::Kill,
        Mode::Failing => DrainGate::Fail,
        Mode::Running | Mode::Draining | Mode::Stopping => DrainGate::Continue,
        Mode::Exited(status) => DrainGate::Return(status),
        Mode::Aborting => DrainGate::Return(aborted_status()),
    }
}

/// The status of an actor torn down by its executor.
pub open spec fn aborted_status() -> ExitStatus {
    ExitStatus::of(ExitReason::Aborted, SubtreeStatus::Unconfirmed)
}

/// The Drain loop's decision for `mode`.
pub fn drain_gate(mode: Mode) -> (g: DrainGate)
    ensures
        g == drain_gate_for(mode),
{
    match mode {
        Mode::Killing => DrainGate::Kill,
        Mode::Failing => DrainGate::Fail,
        Mode::Running | Mode::Draining | Mode::Stopping => DrainGate::Continue,
        Mode::Exited(status) => DrainGate::Return(status),
        Mode::Aborting => DrainGate::Return(
            ExitStatus::new(ExitReason::Aborted, SubtreeStatus::Unconfirmed),
        ),
    }
}

/// What the Drain loop does next.
#[derive(Clone, Copy, Debug, PartialEq, Eq, Structural)]
pub enum DrainStep {
    /// Continue on the Kill path.
    Kill,
    /// Continue on the failure path.
    Fail,
    /// The actor is done with this status.
    Return(ExitStatus),
    /// Run one scheduler turn; the mailbox lane is served only while
    /// accepted messages remain.
    Turn(bool),
    /// Every accepted message was dispatched and no reply remains: leave
    /// the loop for graceful cleanup.
    Finish,
}

/// One round of the Drain loop, decided in `mode` with the accepted
/// queue empty or not and replies idle or not.
pub open spec fn drain_round(
    before: DrainLoop,
    mode: Mode,
    inbox_empty: bool,
    idle: bool,
    after: DrainLoop,
    step: DrainStep,
) -> bool {
    let gate = drain_gate_for(mode);
    &&& after.drained() == (before.drained() || (inbox_empty && gate == DrainGate::Continue))
    &&& gate == DrainGate::Kill ==> step == DrainStep::Kill
    &&& gate == DrainGate::Fail ==> step == DrainStep::Fail
    &&& gate matches DrainGate::Return(status) ==> step == DrainStep::Return(status)
    &&& gate == DrainGate::Continue ==> step == (if after.drained() && idle {
        DrainStep::Finish
    } else {
        DrainStep::Turn(!after.drained())
    })
}

/// What the Drain loop does after one turn.
#[derive(Clone, Copy, Debug, PartialEq, Eq, Structural)]
pub enum DrainFollowup {
    /// Go back to the top of the loop.
    Continue,
    /// Handle the child exit the turn produced.
    ChildExit,
    /// The turn panicked: take the failure path.
    Fail,
}

/// The Drain loop.
///
/// Admission is closed before the loop starts, so the accepted queue is
/// stable: once it is empty it stays empty.
pub struct DrainLoop {
    inbox_drained: bool,
}

impl DrainLoop {
    /// Whether every accepted message has been dispatched.
    pub closed spec fn drained(&self) -> bool {
        self.inbox_drained
    }

    /// Starts the loop after admission closed; `inbox_empty` reports the
    /// accepted queue at that moment.
    pub fn new(inbox_empty: bool) -> (d: Self)
        ensures
            d.drained() == inbox_empty,
    {
        DrainLoop { inbox_drained: inbox_empty }
    }

    /// Decides one round from the mode, the accepted queue, and whether any
    /// dispatched reply remains.
    pub fn next(&mut self, mode: Mode, inbox_empty: bool, idle: bool) -> (step: DrainStep)
        ensures
            drain_round(*old(self), mode, inbox_empty, idle, *final(self), step),
    {
        match drain_gate(mode) {
            DrainGate::Kill => DrainStep::Kill,
            DrainGate::Fail => DrainStep::Fail,
            DrainGate::Return(status) => DrainStep::Return(status),
            DrainGate::Continue => {
                if !self.inbox_drained && inbox_empty {
                    self.inbox_drained = true;
                }
                if self.inbox_drained && idle {
                    DrainStep::Finish
                } else {
                    DrainStep::Turn(!self.inbox_drained)
                }
            },
        }
    }

    /// Reacts to one turn's result, or `None` when the turn panicked; a
    /// closed inbox leaves no accepted message to dispatch.
    pub fn after_turn(&mut self, turn: Option<SchedulerTurn>) -> (f: DrainFollowup)
        ensures
            f == (match turn {
                None => DrainFollowup::Fail,
                Some(SchedulerTurn::Child) => DrainFollowup::ChildExit,
                Some(_) => DrainFollowup::Continue,
            }),
            final(self).drained() == (old(self).drained() || turn == Some(
                SchedulerTurn::InboxClosed,
            )),
    {
        match turn {
            None => DrainFollowup::Fail,
            Some(SchedulerTurn::Child) => DrainFollowup::ChildExit,
            Some(SchedulerTurn::InboxClosed) => {
                self.inbox_drained = true;
                DrainFollowup::Continue
            },
            Some(_) => DrainFollowup::Continue,
        }
    }

    /// Records a turn that reported the inbox closed: no accepted message
    /// remains to dispatch.
    pub fn inbox_closed(&mut self)
        ensures
            final(self).drained(),
    {
        self.inbox_drained = true;
    }
}

/// Drain finishes only when every accepted message was dispatched and no
/// reply remains, and a drained queue stays drained.
pub proof fn law_drain_finishes_only_when_drained(
    before: DrainLoop,
    after: DrainLoop,
    mode: Mode,
    inbox_empty: bool,
    idle: bool,
    step: DrainStep,
)
    requires
        drain_round(before, mode, inbox_empty, idle, after, step),
    ensures
        step == DrainStep::Finish ==> after.drained() && idle,
        before.drained() ==> after.drained(),
{
}

/// How the failure path ends: with this reason, or with a status that was
/// already published.
pub open spec fn failure_end(mode: Mode) -> Result<ExitReason, ExitStatus> {
    match mode {
        Mode::Killing => Ok(ExitReason::Killed),
        Mode::Aborting => Ok(ExitReason::Aborted),
        Mode::Exited(status) => Err(status),
        Mode::Running | Mode::Draining | Mode::Stopping | Mode::Failing => Ok(
            ExitReason::Panicked,
        ),
    }
}

/// The reason the failure path reports, read after the failure commits.
///
/// A Kill or teardown that committed first keeps its reason.
pub fn failure_reason(mode: Mode) -> (r: Result<ExitReason, ExitStatus>)
    ensures
        r == failure_end(mode),
{
    match mode {
        Mode::Killing => Ok(ExitReason::Killed),
        Mode::Aborting => Ok(ExitReason::Aborted),
        Mode::Exited(status) => Err(status),
        Mode::Running | Mode::Draining | Mode::Stopping | Mode::Failing => Ok(
            ExitReason::Panicked,
        ),
    }
}

/// The largest number of accepted envelopes dropped between yields.
pub const TEARDOWN_DROP_BUDGET: usize = 16;

/// How a discard pass ended.
#[derive(Clone, Copy, Debug, PartialEq, Eq, Structural)]
pub enum DiscardOutcome {
    /// The inbox is empty.
    Complete,
    /// The lifecycle mode changed first.
    ModeChanged,
}

/// What a discard pass asks of its caller next.
#[derive(Clone, Copy, Debug, PartialEq, Eq, Structural)]
pub enum DiscardAction {
    /// Drop one accepted envelope, if any, and report whether one existed.
    TryDiscard,
    /// Yield to the executor, then step again.
    Yield,
    /// Step again.
    Continue,
    /// The pass is over.
    Finish(DiscardOutcome),
}

/// A pass that closes the inbox and drops its accepted envelopes in
/// bounded batches.
///
/// The mode is checked before selecting an envelope and again after
/// dropping it, so a transition ends the pass before another envelope is
/// selected. Every uninterrupted run yields after
/// [`TEARDOWN_DROP_BUDGET`] drops.
pub struct Discard {
    dropped: usize,
}

/// A discard pass yields before it drops a full batch more: between two
/// yields it drops fewer than [`TEARDOWN_DROP_BUDGET`] envelopes.
pub proof fn law_discard_batches_bounded(d: Discard)
    requires
        d.wf(),
    ensures
        d.since_yield() < TEARDOWN_DROP_BUDGET,
{
}

impl Discard {
    /// Envelopes dropped since the last yield.
    pub closed spec fn since_yield(&self) -> nat {
        self.dropped as nat
    }

    /// Fewer than a full batch lies between yields.
    pub closed spec fn wf(&self) -> bool {
        self.dropped < TEARDOWN_DROP_BUDGET
    }

    /// Starts a pass.
    pub fn new() -> (d: Self)
        ensures
            d.wf(),
            d.since_yield() == 0,
    {
        Discard { dropped: 0 }
    }

    /// The check before selecting an envelope.
    pub fn step(&self, mode_ok: bool) -> (action: DiscardAction)
        ensures
            action == (if mode_ok {
                DiscardAction::TryDiscard
            } else {
                DiscardAction::Finish(DiscardOutcome::ModeChanged)
            }),
    {
        if mode_ok {
            DiscardAction::TryDiscard
        } else {
            DiscardAction::Finish(DiscardOutcome::ModeChanged)
        }
    }

    /// Records one attempt: `discarded` reports that an envelope existed
    /// and was dropped; `mode_ok` is read after the drop.
    pub fn discarded(&mut self, discarded: bool, mode_ok: bool) -> (action: DiscardAction)
        requires
            old(self).wf(),
        ensures
            final(self).wf(),
            !discarded ==> action == DiscardAction::Finish(DiscardOutcome::Complete)
                && final(self).since_yield() == old(self).since_yield(),
            discarded && !mode_ok ==> action == DiscardAction::Finish(DiscardOutcome::ModeChanged)
                && final(self).since_yield() == old(self).since_yield(),
            discarded && mode_ok && old(self).since_yield() + 1 == TEARDOWN_DROP_BUDGET ==> action
                == DiscardAction::Yield && final(self).since_yield() == 0,
            discarded && mode_ok && old(self).since_yield() + 1 < TEARDOWN_DROP_BUDGET ==> action
                == DiscardAction::Continue && final(self).since_yield() == old(self).since_yield()
                + 1,
    {
        if !discarded {
            return DiscardAction::Finish(DiscardOutcome::Complete);
        }
        if !mode_ok {
            return DiscardAction::Finish(DiscardOutcome::ModeChanged);
        }
        self.dropped = self.dropped + 1;
        if self.dropped == TEARDOWN_DROP_BUDGET {
            self.dropped = 0;
            return DiscardAction::Yield;
        }
        DiscardAction::Continue
    }
}

} // verus!
