//! Decisions of the running actor loop.
//!
//! The actor task initializes its actor, then alternates lifecycle checks
//! with scheduler turns until a shutdown path takes over.
use vstd::prelude::*;

use crate::lifecycle::{ExitReason, ExitStatus, Mode, Shutdown, SubtreeStatus};
use crate::runtime::shutdown::{aborted_status, escalation, work_escalation, Escalation, Work};
use crate::scheduling::runtime::SchedulerTurn;

verus! {

/// Where the actor task goes once initialization ended.
#[derive(Clone, Copy, Debug, PartialEq, Eq, Structural)]
pub enum InitPlan {
    /// Start the running loop with the new actor.
    Run,
    /// Kill before any handler was dispatched.
    KillUninitialized,
    /// Fail before any handler was dispatched.
    FailUninitialized,
    /// Cancel the children, drop the produced actor, then fail.
    DropThenFail,
}

/// The path that follows an initialization outcome.
pub open spec fn init_plan_for<T>(work: Work<T>) -> InitPlan {
    match work {
        Work::Complete(_) => InitPlan::Run,
        Work::Killed => InitPlan::KillUninitialized,
        Work::Panicked => InitPlan::FailUninitialized,
        Work::DropPanicked(_) => InitPlan::DropThenFail,
    }
}

/// The path that follows an initialization outcome.
///
/// A failing init frame may still have produced actor state; descendant
/// cancellation then precedes the actor's own drop.
pub fn init_plan<T>(work: &Work<T>) -> (plan: InitPlan)
    ensures
        plan == init_plan_for(*work),
{
    match work {
        Work::Complete(_) => InitPlan::Run,
        Work::Killed => InitPlan::KillUninitialized,
        Work::Panicked => InitPlan::FailUninitialized,
        Work::DropPanicked(_) => InitPlan::DropThenFail,
    }
}

/// What the running loop does at the top of each round.
#[derive(Clone, Copy, Debug, PartialEq, Eq, Structural)]
pub enum RunPlan {
    /// Run one scheduler turn.
    Turn,
    /// Run the Drain hook, then the Drain path.
    Drain,
    /// Run the Stop hook, then the Stop path.
    Stop,
    /// Take the Kill path.
    Kill,
    /// Take the failure path.
    Fail,
    /// The actor is done with this status.
    Return(ExitStatus),
}

/// The running loop's decision for `mode`.
pub open spec fn run_plan_for(mode: Mode) -> RunPlan {
    match mode {
        Mode::Running => RunPlan::Turn,
        Mode::Draining => RunPlan::Drain,
        Mode::Stopping => RunPlan::Stop,
        Mode::Killing => RunPlan::Kill,
        Mode::Failing => RunPlan::Fail,
        Mode::Exited(status) => RunPlan::Return(status),
        Mode::Aborting => RunPlan::Return(aborted_status()),
    }
}

/// The running loop's decision for `mode`.
pub fn run_plan(mode: Mode) -> (plan: RunPlan)
    ensures
        plan == run_plan_for(mode),
{
    match mode {
        Mode::Running => RunPlan::Turn,
        Mode::Draining => RunPlan::Drain,
        Mode::Stopping => RunPlan::Stop,
        Mode::Killing => RunPlan::Kill,
        Mode::Failing => RunPlan::Fail,
        Mode::Exited(status) => RunPlan::Return(status),
        Mode::Aborting => RunPlan::Return(
            ExitStatus::new(ExitReason::Aborted, SubtreeStatus::Unconfirmed),
        ),
    }
}

/// What the running loop does after one turn.
#[derive(Clone, Copy, Debug, PartialEq, Eq, Structural)]
pub enum TurnFollowup {
    /// Go back to the lifecycle check.
    Continue,
    /// Handle the child exit the turn produced.
    ChildExit,
    /// Commit a failure and take the failure path.
    Fail,
}

/// The running loop's reaction to a turn result: a closed inbox while
/// running is a failure.
pub open spec fn followup_for(turn: SchedulerTurn) -> TurnFollowup {
    match turn {
        SchedulerTurn::LifecycleHint | SchedulerTurn::Progress => TurnFollowup::Continue,
        SchedulerTurn::Child => TurnFollowup::ChildExit,
        SchedulerTurn::InboxClosed => TurnFollowup::Fail,
    }
}

/// The running loop's reaction to a turn result.
pub fn turn_followup(turn: SchedulerTurn) -> (f: TurnFollowup)
    ensures
        f == followup_for(turn),
{
    match turn {
        SchedulerTurn::LifecycleHint | SchedulerTurn::Progress => TurnFollowup::Continue,
        SchedulerTurn::Child => TurnFollowup::ChildExit,
        SchedulerTurn::InboxClosed => TurnFollowup::Fail,
    }
}

/// Whether a child exit runs the actor's exit hook: only a registration
/// this actor still held, and only while the lifecycle admits hooks.
pub fn runs_child_hook(reaped: bool, hook_permitted: bool) -> (r: bool)
    ensures
        r == (reaped && hook_permitted),
{
    reaped && hook_permitted
}

/// The result of one actor turn under the biased lifecycle select: a
/// pending lifecycle notification preempts the scheduler turn.
pub fn select_turn(notified: bool, turn: SchedulerTurn) -> (r: SchedulerTurn)
    ensures
        r == (if notified {
            SchedulerTurn::LifecycleHint
        } else {
            turn
        }),
{
    if notified {
        SchedulerTurn::LifecycleHint
    } else {
        turn
    }
}

/// The path the actor task takes when the running loop ends.
#[derive(Clone, Copy, Debug, PartialEq, Eq, Structural)]
pub enum ActorPath {
    /// The Stop path.
    Stop,
    /// The Drain path.
    Drain,
    /// The Kill teardown.
    Kill,
    /// The failure teardown.
    Fail,
}

/// What the running loop asks of its caller next.
#[derive(Clone, Copy, Debug, PartialEq, Eq, Structural)]
pub enum LoopAction {
    /// Read the lifecycle mode and report it.
    Check,
    /// Run one scheduler turn under the biased lifecycle select.
    Turn,
    /// Call the actor's synchronous shutdown hook with this mode, then
    /// report whether it panicked.
    ShutdownHook(Shutdown),
    /// Handle the child exit the last turn produced.
    ChildExit,
    /// Leave the loop for this path.
    Enter(ActorPath),
    /// The actor is done with this status.
    Return(ExitStatus),
}

/// What the caller found when it did what the loop asked.
#[derive(Debug)]
pub enum LoopEvent {
    /// The lifecycle mode read at the top of a round.
    Mode(Mode),
    /// The shutdown hook returned; `true` when it panicked.
    Hook(bool),
    /// The turn's result, or `None` when the turn panicked.
    Turn(Option<SchedulerTurn>),
    /// How handling a child exit ended.
    ChildExit(Work<()>),
}

/// The running loop of an initialized actor: a lifecycle check, then a
/// turn, until a shutdown mode or a failure ends it.
///
/// A committed Stop or Drain first runs the shutdown hook, synchronously,
/// and only then enters its path; no turn, and so no reply poll, runs in
/// between, whatever replies or leases are held.
pub struct RunningLoop {
    stage: u8,
    hook: Shutdown,
}

/// Where a path leaves the running loop once a shutdown hook returned.
pub open spec fn hook_path(hook: Shutdown, panicked: bool) -> ActorPath {
    if panicked {
        ActorPath::Fail
    } else if hook == Shutdown::Stop {
        ActorPath::Stop
    } else {
        ActorPath::Drain
    }
}

/// One step of the running loop from `before` to `after` on `event`.
pub open spec fn loop_step(
    before: RunningLoop,
    event: LoopEvent,
    after: RunningLoop,
    action: LoopAction,
) -> bool {
    match event {
        LoopEvent::Mode(mode) => match run_plan_for(mode) {
            RunPlan::Turn => action == LoopAction::Turn && after.stage() == 1,
            RunPlan::Stop => action == LoopAction::ShutdownHook(Shutdown::Stop) && after.stage()
                == 2 && after.hook_of() == Shutdown::Stop,
            RunPlan::Drain => action == LoopAction::ShutdownHook(Shutdown::Drain)
                && after.stage() == 2 && after.hook_of() == Shutdown::Drain,
            RunPlan::Kill => action == LoopAction::Enter(ActorPath::Kill) && after.stage() == 4,
            RunPlan::Fail => action == LoopAction::Enter(ActorPath::Fail) && after.stage() == 4,
            RunPlan::Return(status) => action == LoopAction::Return(status) && after.stage() == 4,
        },
        LoopEvent::Hook(panicked) => action == LoopAction::Enter(
            hook_path(before.hook_of(), panicked),
        ) && after.stage() == 4,
        LoopEvent::Turn(turn) => match turn {
            None => action == LoopAction::Enter(ActorPath::Fail) && after.stage() == 4,
            Some(t) => match followup_for(t) {
                TurnFollowup::Continue => action == LoopAction::Check && after.stage() == 0,
                TurnFollowup::ChildExit => action == LoopAction::ChildExit && after.stage() == 3,
                TurnFollowup::Fail => action == LoopAction::Enter(ActorPath::Fail)
                    && after.stage() == 4,
            },
        },
        LoopEvent::ChildExit(work) => match work_escalation(work) {
            None => action == LoopAction::Check && after.stage() == 0,
            Some(Escalation::Kill) => action == LoopAction::Enter(ActorPath::Kill)
                && after.stage() == 4,
            Some(Escalation::Fail) => action == LoopAction::Enter(ActorPath::Fail)
                && after.stage() == 4,
        },
    }
}

impl RunningLoop {
    /// Progress: 0 before a lifecycle check, 1 during a turn, 2 during the
    /// shutdown hook, 3 while a child exit is handled, 4 when over.
    pub closed spec fn stage(&self) -> nat {
        self.stage as nat
    }

    /// The shutdown hook being run.
    pub closed spec fn hook_of(&self) -> Shutdown {
        self.hook
    }

    /// Whether `event` reports the work this loop asked for.
    pub open spec fn fits(&self, event: LoopEvent) -> bool {
        match event {
            LoopEvent::Mode(_) => self.stage() == 0,
            LoopEvent::Turn(_) => self.stage() == 1,
            LoopEvent::Hook(_) => self.stage() == 2,
            LoopEvent::ChildExit(_) => self.stage() == 3,
        }
    }

    /// The loop of a freshly initialized actor; it starts with a check.
    pub fn new() -> (l: Self)
        ensures
            l.stage() == 0,
    {
        RunningLoop { stage: 0, hook: Shutdown::Stop }
    }

    /// Takes what the caller found and returns the next step.
    pub fn next(&mut self, event: LoopEvent) -> (action: LoopAction)
        requires
            old(self).fits(event),
        ensures
            loop_step(*old(self), event, *final(self), action),
    {
        match event {
            LoopEvent::Mode(mode) => match run_plan(mode) {
                RunPlan::Turn => {
                    self.stage = 1;
                    LoopAction::Turn
                },
                RunPlan::Stop => {
                    self.stage = 2;
                    self.hook = Shutdown::Stop;
                    LoopAction::ShutdownHook(Shutdown::Stop)
                },
                RunPlan::Drain => {
                    self.stage = 2;
                    self.hook = Shutdown::Drain;
                    LoopAction::ShutdownHook(Shutdown::Drain)
                },
                RunPlan::Kill => {
                    self.stage = 4;
                    LoopAction::Enter(ActorPath::Kill)
                },
                RunPlan::Fail => {
                    self.stage = 4;
                    LoopAction::Enter(ActorPath::Fail)
                },
                RunPlan::Return(status) => {
                    self.stage = 4;
                    LoopAction::Return(status)
                },
            },
            LoopEvent::Hook(panicked) => {
                self.stage = 4;
                if panicked {
                    LoopAction::Enter(ActorPath::Fail)
                } else if self.hook == Shutdown::Stop {
                    LoopAction::Enter(ActorPath::Stop)
                } else {
                    LoopAction::Enter(ActorPath::Drain)
                }
            },
            LoopEvent::Turn(turn) => match turn {
                None => {
                    self.stage = 4;
                    LoopAction::Enter(ActorPath::Fail)
                },
                Some(t) => match turn_followup(t) {
                    TurnFollowup::Continue => {
                        self.stage = 0;
                        LoopAction::Check
                    },
                    TurnFollowup::ChildExit => {
                        self.stage = 3;
                        LoopAction::ChildExit
                    },
                    TurnFollowup::Fail => {
                        self.stage = 4;
                        LoopAction::Enter(ActorPath::Fail)
                    },
                },
            },
            LoopEvent::ChildExit(work) => match escalation(&work) {
                None => {
                    self.stage = 0;
                    LoopAction::Check
                },
                Some(Escalation::Kill) => {
                    self.stage = 4;
                    LoopAction::Enter(ActorPath::Kill)
                },
                Some(Escalation::Fail) => {
                    self.stage = 4;
                    LoopAction::Enter(ActorPath::Fail)
                },
            },
        }
    }
}

/// A committed Stop or Drain runs its hook at the very check that sees
/// it, and a turn cut short by a lifecycle notification goes straight
/// back to that check.
pub proof fn law_shutdown_hook_at_first_check(
    before: RunningLoop,
    event: LoopEvent,
    after: RunningLoop,
    action: LoopAction,
)
    requires
        loop_step(before, event, after, action),
    ensures
        event == LoopEvent::Mode(Mode::Stopping) ==> action == LoopAction::ShutdownHook(
            Shutdown::Stop,
        ),
        event == LoopEvent::Mode(Mode::Draining) ==> action == LoopAction::ShutdownHook(
            Shutdown::Drain,
        ),
        event == LoopEvent::Turn(Some(SchedulerTurn::LifecycleHint)) ==> action
            == LoopAction::Check,
{
}

/// How the running loop reacts to what it finds: it runs turns only while
/// running; Kill and failure leave at once; a published or aborted status
/// ends the task; a closed inbox or a panicking turn fails the actor; a
/// child exit is handled, and a Kill or panic during it escalates.
pub proof fn law_running_loop_routes(
    before: RunningLoop,
    event: LoopEvent,
    after: RunningLoop,
    action: LoopAction,
)
    requires
        loop_step(before, event, after, action),
    ensures
        event matches LoopEvent::Mode(m) ==> ((action == LoopAction::Turn) == (m
            == Mode::Running)),
        event == LoopEvent::Mode(Mode::Killing) ==> action == LoopAction::Enter(ActorPath::Kill),
        event == LoopEvent::Mode(Mode::Failing) ==> action == LoopAction::Enter(ActorPath::Fail),
        event matches LoopEvent::Mode(Mode::Exited(s)) ==> action == LoopAction::Return(s),
        event == LoopEvent::Mode(Mode::Aborting) ==> action == LoopAction::Return(
            ExitStatus::of(ExitReason::Aborted, SubtreeStatus::Unconfirmed),
        ),
        event == LoopEvent::Turn(Some(SchedulerTurn::Progress)) ==> action == LoopAction::Check,
        event == LoopEvent::Turn(Some(SchedulerTurn::Child)) ==> action == LoopAction::ChildExit,
        event == LoopEvent::Turn(Some(SchedulerTurn::InboxClosed)) ==> action
            == LoopAction::Enter(ActorPath::Fail),
        event == LoopEvent::Turn(None) ==> action == LoopAction::Enter(ActorPath::Fail),
        event == LoopEvent::ChildExit(Work::Complete(())) ==> action == LoopAction::Check,
        event == LoopEvent::ChildExit(Work::Killed) ==> action == LoopAction::Enter(
            ActorPath::Kill,
        ),
        event == LoopEvent::ChildExit(Work::Panicked) ==> action == LoopAction::Enter(
            ActorPath::Fail,
        ),
        event == LoopEvent::Hook(true) ==> action == LoopAction::Enter(ActorPath::Fail),
        after.stage() == 4 <==> (action is Enter || action is Return),
{
}

/// Step `i` of a recorded running loop.
pub open spec fn loop_step_at(
    states: Seq<RunningLoop>,
    events: Seq<LoopEvent>,
    actions: Seq<LoopAction>,
    i: int,
) -> bool {
    &&& states[i].fits(events[i])
    &&& loop_step(states[i], events[i], states[i + 1], actions[i])
}

/// A recorded run of `next` calls, each on the state the previous one left.
pub open spec fn loop_run(
    states: Seq<RunningLoop>,
    events: Seq<LoopEvent>,
    actions: Seq<LoopAction>,
) -> bool {
    &&& states.len() == actions.len() + 1
    &&& events.len() == actions.len()
    &&& forall|i: int|
        0 <= i < actions.len() ==> #[trigger] loop_step_at(states, events, actions, i)
}

/// The shutdown hook runs first: in a recorded run of the loop, the Stop
/// or Drain path is entered only at the step right after its hook
/// returned without panic, and that hook was asked for by the check that
/// saw the mode committed; no turn, and so no reply poll, lies between.
pub proof fn law_shutdown_hook_precedes_path(
    states: Seq<RunningLoop>,
    events: Seq<LoopEvent>,
    actions: Seq<LoopAction>,
    k: int,
)
    requires
        loop_run(states, events, actions),
        states[0].stage() == 0,
        0 <= k < actions.len(),
        actions[k] == LoopAction::Enter(ActorPath::Stop) || actions[k] == LoopAction::Enter(
            ActorPath::Drain,
        ),
    ensures
        k >= 1,
        events[k] == LoopEvent::Hook(false),
        actions[k] == LoopAction::Enter(ActorPath::Stop) ==> events[k - 1] == LoopEvent::Mode(
            Mode::Stopping,
        ) && actions[k - 1] == LoopAction::ShutdownHook(Shutdown::Stop),
        actions[k] == LoopAction::Enter(ActorPath::Drain) ==> events[k - 1] == LoopEvent::Mode(
            Mode::Draining,
        ) && actions[k - 1] == LoopAction::ShutdownHook(Shutdown::Drain),
{
    assert(loop_step_at(states, events, actions, k));
    if k >= 1 {
        assert(loop_step_at(states, events, actions, k - 1));
    }
}

} // verus!
