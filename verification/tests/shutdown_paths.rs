use loac::scheduling::runtime::SchedulerTurn;
use loac::lifecycle::{Control, ExitReason, ExitStatus, Mode, Shutdown, SubtreeStatus};
use loac::runtime::scope::{ActorRef, ChildRegistry, ScopeState};
use loac::runtime::actor_loop::{ActorPath, LoopAction, LoopEvent, RunningLoop};
use loac::runtime::shutdown::{
    DiscardOutcome, DrainFollowup, DrainLoop, DrainStep, Escalation, GracefulAction, GracefulFinish, ReplyWait, StopAction, StopPath,
    Teardown, TeardownAction, Work,
};

#[test]
fn reply_wait_completes_only_when_idle() {
    let wait = ReplyWait::new();
    assert!(matches!(wait.next(Mode::Stopping, true), Some(Work::Complete(()))));
    assert!(wait.next(Mode::Stopping, false).is_none());
    assert!(matches!(wait.next(Mode::Killing, false), Some(Work::Killed)));
    assert!(matches!(wait.next(Mode::Aborting, false), Some(Work::Killed)));
    assert!(matches!(wait.next(Mode::Failing, false), Some(Work::Panicked)));
    let status = ExitStatus::new(ExitReason::Killed, SubtreeStatus::Terminated);
    assert!(matches!(wait.next(Mode::Exited(status), false), Some(Work::Killed)));
    // An idle scheduler completes the wait whatever the mode.
    assert!(matches!(wait.next(Mode::Killing, true), Some(Work::Complete(()))));
}

#[test]
fn reply_wait_fails_after_a_panicking_poll() {
    let wait = ReplyWait::new();
    assert!(matches!(wait.after_poll(true), Some(Work::Panicked)));
    assert!(wait.after_poll(false).is_none());
}

#[test]
fn graceful_cleanup_runs_the_hook_after_the_children() {
    let mut g = GracefulFinish::new(Shutdown::Stop, ExitReason::Stopped);
    assert_eq!(g.next(Work::Complete(())), GracefulAction::RequestChildren(Shutdown::Stop));
    assert_eq!(g.next(Work::Complete(())), GracefulAction::WaitChildren);
    assert_eq!(g.next(Work::Complete(())), GracefulAction::RunStopHook(ExitReason::Stopped));
    assert_eq!(g.next(Work::Complete(())), GracefulAction::Done);
}

#[test]
fn graceful_cleanup_escalates_when_interrupted() {
    let mut g = GracefulFinish::new(Shutdown::Drain, ExitReason::Drained);
    assert_eq!(g.next(Work::Complete(())), GracefulAction::RequestChildren(Shutdown::Drain));
    assert_eq!(g.next(Work::Killed), GracefulAction::Escalate(Escalation::Kill));

    let mut g = GracefulFinish::new(Shutdown::Stop, ExitReason::Stopped);
    assert_eq!(g.next(Work::Complete(())), GracefulAction::RequestChildren(Shutdown::Stop));
    assert_eq!(g.next(Work::Complete(())), GracefulAction::WaitChildren);
    assert_eq!(g.next(Work::Panicked), GracefulAction::Escalate(Escalation::Fail));

    let mut g = GracefulFinish::new(Shutdown::Stop, ExitReason::Stopped);
    assert_eq!(g.next(Work::DropPanicked(())), GracefulAction::Escalate(Escalation::Fail));
}

#[test]
fn stop_discards_then_waits_then_cleans_up() {
    let mut stop = StopPath::new();
    assert_eq!(stop.after_discard(DiscardOutcome::Complete, Mode::Stopping), StopAction::WaitReplies);
    assert_eq!(stop.after_replies(Work::Complete(())), StopAction::Graceful);
    assert_eq!(stop.after_graceful(Work::Complete(())), StopAction::Finish(ExitReason::Stopped));
}

#[test]
fn stop_escalates_when_the_mode_changes_or_work_fails() {
    let mut stop = StopPath::new();
    assert_eq!(
        stop.after_discard(DiscardOutcome::ModeChanged, Mode::Killing),
        StopAction::Escalate(Escalation::Kill)
    );
    let mut stop = StopPath::new();
    assert_eq!(
        stop.after_discard(DiscardOutcome::ModeChanged, Mode::Failing),
        StopAction::Escalate(Escalation::Fail)
    );
    let mut stop = StopPath::new();
    assert_eq!(stop.after_discard(DiscardOutcome::Complete, Mode::Stopping), StopAction::WaitReplies);
    assert_eq!(stop.after_replies(Work::Killed), StopAction::Escalate(Escalation::Kill));
    let mut stop = StopPath::new();
    assert_eq!(stop.after_discard(DiscardOutcome::Complete, Mode::Stopping), StopAction::WaitReplies);
    assert_eq!(stop.after_replies(Work::Complete(())), StopAction::Graceful);
    assert_eq!(stop.after_graceful(Work::Panicked), StopAction::Escalate(Escalation::Fail));
}

#[test]
fn kill_teardown_cancels_children_before_dropping_work() {
    let mut t = Teardown::kill(true);
    assert_eq!(t.next(Mode::Killing, None), TeardownAction::CloseInbox);
    assert_eq!(t.next(Mode::Killing, None), TeardownAction::KillChildren);
    assert_eq!(t.next(Mode::Killing, None), TeardownAction::ClearReplies);
    assert_eq!(t.next(Mode::Killing, None), TeardownAction::Discard(Mode::Killing));
    assert_eq!(
        t.next(Mode::Killing, Some(DiscardOutcome::Complete)),
        TeardownAction::WaitChildren
    );
    assert_eq!(t.next(Mode::Killing, None), TeardownAction::Finish(ExitReason::Killed));
}

#[test]
fn kill_teardown_before_start_has_no_replies_to_clear() {
    let mut t = Teardown::kill(false);
    assert_eq!(t.next(Mode::Killing, None), TeardownAction::CloseInbox);
    assert_eq!(t.next(Mode::Killing, None), TeardownAction::KillChildren);
    assert_eq!(t.next(Mode::Killing, None), TeardownAction::Discard(Mode::Killing));
}

#[test]
fn failure_teardown_reports_panicked_and_rediscards_after_a_mode_change() {
    let mut control = Control::new();
    let mut t = Teardown::fail(&mut control, true).ok().expect("a fresh actor fails");
    assert_eq!(control.mode(), Mode::Failing);
    assert_eq!(t.next(Mode::Failing, None), TeardownAction::CloseInbox);
    assert_eq!(t.next(Mode::Failing, None), TeardownAction::KillChildren);
    assert_eq!(t.next(Mode::Failing, None), TeardownAction::ClearReplies);
    assert_eq!(t.next(Mode::Failing, None), TeardownAction::Discard(Mode::Failing));
    assert_eq!(
        t.next(Mode::Aborting, Some(DiscardOutcome::ModeChanged)),
        TeardownAction::Discard(Mode::Aborting)
    );
    assert_eq!(
        t.next(Mode::Aborting, Some(DiscardOutcome::Complete)),
        TeardownAction::WaitChildren
    );
    assert_eq!(t.next(Mode::Aborting, None), TeardownAction::Finish(ExitReason::Panicked));
}

#[test]
fn failure_during_kill_keeps_the_kill_reason() {
    let mut control = Control::new();
    control.request(Shutdown::Kill);
    let mut t = Teardown::fail(&mut control, false).ok().expect("the kill is not over");
    assert_eq!(control.mode(), Mode::Killing);
    assert_eq!(t.next(Mode::Killing, None), TeardownAction::CloseInbox);
    assert_eq!(t.next(Mode::Killing, None), TeardownAction::KillChildren);
    assert_eq!(t.next(Mode::Killing, None), TeardownAction::Discard(Mode::Killing));
    assert_eq!(
        t.next(Mode::Killing, Some(DiscardOutcome::Complete)),
        TeardownAction::WaitChildren
    );
    assert_eq!(t.next(Mode::Killing, None), TeardownAction::Finish(ExitReason::Killed));
}

#[test]
fn failure_after_exit_returns_the_published_status() {
    let mut control = Control::new();
    let status = ExitStatus::new(ExitReason::Stopped, SubtreeStatus::Terminated);
    control.publish(status);
    match Teardown::fail(&mut control, true) {
        Err(published) => assert_eq!(published, status),
        Ok(_) => panic!("a published status is final"),
    }
    assert_eq!(control.mode(), Mode::Exited(status));
}

#[test]
fn a_committed_stop_runs_its_hook_before_the_stop_path() {
    let mut running = RunningLoop::new();
    assert_eq!(running.next(LoopEvent::Mode(Mode::Running)), LoopAction::Turn);
    // Stop commits while a turn holds a lease: the notification ends the turn.
    assert_eq!(
        running.next(LoopEvent::Turn(Some(SchedulerTurn::LifecycleHint))),
        LoopAction::Check
    );
    assert_eq!(
        running.next(LoopEvent::Mode(Mode::Stopping)),
        LoopAction::ShutdownHook(Shutdown::Stop)
    );
    assert_eq!(running.next(LoopEvent::Hook(false)), LoopAction::Enter(ActorPath::Stop));
}

#[test]
fn a_drain_hook_precedes_the_drain_path_and_a_panicking_hook_fails() {
    let mut running = RunningLoop::new();
    assert_eq!(
        running.next(LoopEvent::Mode(Mode::Draining)),
        LoopAction::ShutdownHook(Shutdown::Drain)
    );
    assert_eq!(running.next(LoopEvent::Hook(false)), LoopAction::Enter(ActorPath::Drain));

    let mut running = RunningLoop::new();
    assert_eq!(
        running.next(LoopEvent::Mode(Mode::Stopping)),
        LoopAction::ShutdownHook(Shutdown::Stop)
    );
    assert_eq!(running.next(LoopEvent::Hook(true)), LoopAction::Enter(ActorPath::Fail));
}

#[test]
fn the_running_loop_handles_child_exits_and_turn_failures() {
    let mut running = RunningLoop::new();
    assert_eq!(running.next(LoopEvent::Mode(Mode::Running)), LoopAction::Turn);
    assert_eq!(running.next(LoopEvent::Turn(Some(SchedulerTurn::Child))), LoopAction::ChildExit);
    assert_eq!(running.next(LoopEvent::ChildExit(Work::Complete(()))), LoopAction::Check);
    assert_eq!(running.next(LoopEvent::Mode(Mode::Running)), LoopAction::Turn);
    assert_eq!(running.next(LoopEvent::Turn(Some(SchedulerTurn::Child))), LoopAction::ChildExit);
    assert_eq!(running.next(LoopEvent::ChildExit(Work::Killed)), LoopAction::Enter(ActorPath::Kill));

    let mut running = RunningLoop::new();
    assert_eq!(running.next(LoopEvent::Mode(Mode::Running)), LoopAction::Turn);
    assert_eq!(
        running.next(LoopEvent::Turn(Some(SchedulerTurn::InboxClosed))),
        LoopAction::Enter(ActorPath::Fail)
    );

    let mut running = RunningLoop::new();
    assert_eq!(running.next(LoopEvent::Mode(Mode::Running)), LoopAction::Turn);
    assert_eq!(running.next(LoopEvent::Turn(None)), LoopAction::Enter(ActorPath::Fail));

    let mut running = RunningLoop::new();
    assert_eq!(running.next(LoopEvent::Mode(Mode::Killing)), LoopAction::Enter(ActorPath::Kill));
    let status = ExitStatus::new(ExitReason::Stopped, SubtreeStatus::Terminated);
    let mut running = RunningLoop::new();
    assert_eq!(running.next(LoopEvent::Mode(Mode::Exited(status))), LoopAction::Return(status));
}

#[test]
fn drain_turn_results_continue_fail_or_hand_over_a_child_exit() {
    let mut drain = DrainLoop::new(false);
    assert_eq!(drain.after_turn(Some(SchedulerTurn::Progress)), DrainFollowup::Continue);
    assert_eq!(drain.next(Mode::Draining, false, true), DrainStep::Turn(true));
    assert_eq!(drain.after_turn(Some(SchedulerTurn::InboxClosed)), DrainFollowup::Continue);
    // The closed inbox counts as drained even though it still reports messages.
    assert_eq!(drain.next(Mode::Draining, false, true), DrainStep::Finish);
    let mut drain = DrainLoop::new(true);
    assert_eq!(drain.after_turn(Some(SchedulerTurn::Child)), DrainFollowup::ChildExit);
    assert_eq!(drain.after_turn(None), DrainFollowup::Fail);
}

#[test]
fn spawned_children_get_identities_no_retained_child_holds() {
    let actor_ref = ActorRef::<u8>::new(1);
    let mut state = ScopeState { children: ChildRegistry::new(None) };
    let mut scope = state.actor_scope(&actor_ref);
    let mut ids = Vec::new();
    for i in 0..5u8 {
        let (child, back) = scope.spawn_child(i).ok().expect("unbounded");
        assert_eq!(back, i);
        assert!(!ids.contains(&child.id()));
        ids.push(child.id());
    }
}
