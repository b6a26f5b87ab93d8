use std::collections::{HashMap, VecDeque};

use loac::lifecycle::{Control, Mode, Shutdown};
use loac::scheduling::queue::{PassStep, Queue, ReplyPoll, ACTIVE_POLL_BUDGET};
use loac::scheduling::runtime::{MailboxRuntime, SchedulerTurn, TurnAction, TurnEvent, TurnPoll};
use loac::scheduling::state::{DynamicLimit, ReplyLane, ReplyState};

/// How a simulated reply future behaves when polled.
#[derive(Clone, Copy, Debug, PartialEq, Eq)]
enum Reply {
    /// Counts its polls; completes on the first poll when `completes`.
    Counter { completes: bool },
    /// Wakes itself during the first poll, completes on the second.
    SelfWakeOnce { woken: bool },
    /// Keeps its waker and stays pending.
    CaptureWaker,
    /// Requests Kill through the lifecycle gate and stays pending.
    KillOnPoll,
}

/// The futures that a driver keeps beside the verified queue.
#[derive(Default)]
struct Replies {
    kinds: HashMap<u64, Reply>,
    polls: HashMap<u64, usize>,
    registered: HashMap<u64, bool>,
    captured: Vec<u64>,
    task_wakes: usize,
    drops: usize,
}

impl Replies {
    fn add(&mut self, key: u64, reply: Reply) {
        self.kinds.insert(key, reply);
        self.polls.insert(key, 0);
    }

    fn polls(&self, key: u64) -> usize {
        self.polls[&key]
    }

    /// A reply's waker: marks it ready and wakes the task once per
    /// registration.
    fn wake(&mut self, queue: &mut Queue, key: u64) {
        queue.wake(key);
        if self.registered.get(&key).copied().unwrap_or(false) {
            self.registered.insert(key, false);
            self.task_wakes += 1;
        }
    }

    /// Polls one simulated future; returns whether it completed.
    fn poll(&mut self, queue: &mut Queue, control: &mut Control, key: u64) -> bool {
        self.registered.insert(key, true);
        *self.polls.get_mut(&key).unwrap() += 1;
        match self.kinds[&key] {
            Reply::Counter { completes } => completes,
            Reply::SelfWakeOnce { woken } => {
                if woken {
                    return true;
                }
                self.kinds.insert(key, Reply::SelfWakeOnce { woken: true });
                self.wake(queue, key);
                false
            },
            Reply::CaptureWaker => {
                self.captured.push(key);
                false
            },
            Reply::KillOnPoll => {
                let _ = control.request(Shutdown::Kill);
                false
            },
        }
    }
}

/// Runs one collection pass, polling the simulated futures.
fn collect(queue: &mut Queue, control: &mut Control, replies: &mut Replies, expected: Mode) -> ReplyPoll {
    let mut pass = queue.begin_poll();
    loop {
        let mode_ok = control.mode() == expected;
        match queue.next_poll(&mut pass, mode_ok) {
            PassStep::Finish(outcome) => {
                if outcome == ReplyPoll::BudgetExhausted {
                    replies.task_wakes += 1;
                }
                return outcome;
            },
            PassStep::Poll(key) => {
                let completed = replies.poll(queue, control, key);
                let mode_ok = control.mode() == expected;
                let before = queue.len();
                let outcome = queue.record_poll(&mut pass, key, completed, mode_ok);
                replies.drops += before - queue.len();
                if let Some(outcome) = outcome {
                    return outcome;
                }
            },
        }
    }
}

fn poll_queue(queue: &mut Queue, control: &mut Control, replies: &mut Replies) -> ReplyPoll {
    collect(queue, control, replies, Mode::Running)
}

fn schedule(queue: &mut Queue, replies: &mut Replies, reply: Reply) -> u64 {
    let key = queue.schedule();
    replies.add(key, reply);
    key
}

fn schedule_leased(queue: &mut Queue, replies: &mut Replies, reply: Reply) -> u64 {
    let key = schedule(queue, replies, reply);
    queue.acquire_lease(key);
    key
}

#[test]
fn empty_poll_is_pending() {
    let mut control = Control::new();
    let mut replies = Replies::default();
    let mut queue = Queue::new();

    assert_eq!(poll_queue(&mut queue, &mut control, &mut replies), ReplyPoll::Pending);
    assert!(queue.is_empty());
}

#[test]
fn push_marks_only_the_first_poll_ready() {
    let mut control = Control::new();
    let mut replies = Replies::default();
    let mut queue = Queue::new();
    let key = schedule(&mut queue, &mut replies, Reply::Counter { completes: false });

    assert_eq!(poll_queue(&mut queue, &mut control, &mut replies), ReplyPoll::Pending);
    assert_eq!(replies.polls(key), 1);

    assert_eq!(poll_queue(&mut queue, &mut control, &mut replies), ReplyPoll::Pending);
    assert_eq!(replies.polls(key), 1);
}

#[test]
fn wake_pushes_one_key_per_ready_episode() {
    let mut control = Control::new();
    let mut replies = Replies::default();
    let mut queue = Queue::new();
    schedule(&mut queue, &mut replies, Reply::CaptureWaker);

    assert_eq!(poll_queue(&mut queue, &mut control, &mut replies), ReplyPoll::Pending);
    let retained = *replies.captured.first().expect("the future captured its waker");

    replies.wake(&mut queue, retained);
    replies.wake(&mut queue, retained);

    // The first wake consumes the registered task waker.
    // Both calls collapse into one queued key.
    assert_eq!(replies.task_wakes, 1);
    assert_eq!(queue.ready_len(), 1);

    assert_eq!(poll_queue(&mut queue, &mut control, &mut replies), ReplyPoll::Pending);
    assert_eq!(queue.ready_len(), 0);
}

#[test]
fn budget_truncates_then_self_wakes() {
    let mut control = Control::new();
    let mut replies = Replies::default();
    let mut queue = Queue::new();
    let mut keys = Vec::new();
    for _ in 0..(ACTIVE_POLL_BUDGET + 4) {
        keys.push(schedule(&mut queue, &mut replies, Reply::Counter { completes: false }));
    }
    let total = |replies: &Replies| keys.iter().map(|key| replies.polls(*key)).sum::<usize>();

    assert_eq!(poll_queue(&mut queue, &mut control, &mut replies), ReplyPoll::BudgetExhausted);
    assert_eq!(total(&replies), ACTIVE_POLL_BUDGET);
    assert_eq!(replies.task_wakes, 1);

    assert_eq!(poll_queue(&mut queue, &mut control, &mut replies), ReplyPoll::Pending);
    assert_eq!(total(&replies), ACTIVE_POLL_BUDGET + 4);
    assert_eq!(replies.task_wakes, 1);
}

#[test]
fn wake_during_poll_is_drained_in_the_same_turn() {
    let mut control = Control::new();
    let mut replies = Replies::default();
    let mut queue = Queue::new();
    let key = schedule(&mut queue, &mut replies, Reply::SelfWakeOnce { woken: false });

    // The self-wake pushes a fresh key that the same drain consumes.
    assert_eq!(poll_queue(&mut queue, &mut control, &mut replies), ReplyPoll::Progress);
    assert!(queue.is_empty());
    assert_eq!(replies.polls(key), 2);
}

#[test]
fn stale_keys_are_skipped() {
    let mut control = Control::new();
    let mut replies = Replies::default();
    let mut queue = Queue::new();
    let key = schedule(&mut queue, &mut replies, Reply::Counter { completes: true });

    assert_eq!(poll_queue(&mut queue, &mut control, &mut replies), ReplyPoll::Progress);
    replies.wake(&mut queue, key);

    assert_eq!(poll_queue(&mut queue, &mut control, &mut replies), ReplyPoll::Pending);
}

#[test]
fn stale_keys_left_by_clear_are_skipped() {
    let mut control = Control::new();
    let mut replies = Replies::default();
    let mut queue = Queue::new();
    schedule(&mut queue, &mut replies, Reply::Counter { completes: true });
    let cleared = queue.clear();
    assert_eq!(cleared.len(), 1);
    assert_eq!(queue.ready_len(), 1);

    assert_eq!(poll_queue(&mut queue, &mut control, &mut replies), ReplyPoll::Pending);
    assert_eq!(queue.ready_len(), 0);
}

#[test]
fn a_lease_pauses_every_other_reply() {
    let mut control = Control::new();
    let mut replies = Replies::default();
    let mut queue = Queue::new();
    let leased = schedule_leased(&mut queue, &mut replies, Reply::Counter { completes: false });
    let other = schedule(&mut queue, &mut replies, Reply::Counter { completes: true });
    assert!(queue.is_leased());

    assert_eq!(poll_queue(&mut queue, &mut control, &mut replies), ReplyPoll::Leased);
    assert_eq!(replies.polls(leased), 1);
    assert_eq!(replies.polls(other), 0);

    assert_eq!(poll_queue(&mut queue, &mut control, &mut replies), ReplyPoll::Pending);
    assert_eq!(replies.polls(other), 0);

    queue.release_lease(leased);
    assert_eq!(poll_queue(&mut queue, &mut control, &mut replies), ReplyPoll::Progress);
    assert_eq!(replies.polls(other), 1);
    // The released reply remains parked until it is woken again.
    assert_eq!(queue.len(), 1);
}

#[test]
fn completing_the_leased_reply_releases_the_slot() {
    let mut control = Control::new();
    let mut replies = Replies::default();
    let mut queue = Queue::new();
    schedule_leased(&mut queue, &mut replies, Reply::Counter { completes: true });

    assert_eq!(poll_queue(&mut queue, &mut control, &mut replies), ReplyPoll::Progress);
    assert!(!queue.is_leased());
    assert!(queue.is_empty());
}

#[test]
fn kill_committed_by_one_reply_stops_the_drain() {
    let mut control = Control::new();
    let mut replies = Replies::default();
    let mut queue = Queue::new();
    let first = schedule(&mut queue, &mut replies, Reply::KillOnPoll);
    let second = schedule(&mut queue, &mut replies, Reply::Counter { completes: true });

    assert_eq!(poll_queue(&mut queue, &mut control, &mut replies), ReplyPoll::Progress);
    assert_eq!(replies.polls(first), 1);
    assert_eq!(replies.polls(second), 0);
    assert_eq!(control.mode(), Mode::Killing);
}

#[test]
fn late_wake_after_clear_is_a_no_op() {
    let mut control = Control::new();
    let mut replies = Replies::default();
    let mut queue = Queue::new();
    schedule(&mut queue, &mut replies, Reply::CaptureWaker);

    assert_eq!(poll_queue(&mut queue, &mut control, &mut replies), ReplyPoll::Pending);
    let retained = *replies.captured.first().expect("the future captured its waker");

    let cleared = queue.clear();
    replies.drops += cleared.len();
    replies.wake(&mut queue, retained);

    assert_eq!(poll_queue(&mut queue, &mut control, &mut replies), ReplyPoll::Pending);
}

#[test]
fn clear_releases_the_lease_and_contains_drops() {
    let mut replies = Replies::default();
    let mut queue = Queue::new();
    let leased = schedule_leased(&mut queue, &mut replies, Reply::Counter { completes: true });
    let other = schedule(&mut queue, &mut replies, Reply::Counter { completes: true });

    let cleared = queue.clear();
    let leased_drops = cleared.iter().filter(|key| **key == leased).count();
    let reply_drops = cleared.iter().filter(|key| **key == other).count();

    assert_eq!(leased_drops, 1);
    assert_eq!(reply_drops, 1);
    assert!(!queue.is_leased());
    assert!(queue.is_empty());
}

#[test]
fn wake_of_an_unknown_key_changes_nothing() {
    let mut queue = Queue::new();
    assert!(!queue.wake(0));
    assert!(!queue.wake(7));
    assert_eq!(queue.ready_len(), 0);
}

#[test]
fn scheduled_keys_are_distinct_and_queued_in_order() {
    let mut control = Control::new();
    let mut replies = Replies::default();
    let mut queue = Queue::new();
    let a = schedule(&mut queue, &mut replies, Reply::Counter { completes: true });
    let b = schedule(&mut queue, &mut replies, Reply::Counter { completes: true });
    assert_ne!(a, b);
    assert_eq!(queue.len(), 2);
    assert_eq!(queue.ready_len(), 2);

    assert_eq!(poll_queue(&mut queue, &mut control, &mut replies), ReplyPoll::Progress);
    assert_eq!(replies.polls(a), 1);
    assert_eq!(replies.polls(b), 1);
    assert!(queue.is_empty());
    assert_eq!(replies.drops, 2);
}

#[test]
fn mode_change_before_a_pass_reports_progress_without_polling() {
    let mut control = Control::new();
    let mut replies = Replies::default();
    let mut queue = Queue::new();
    let key = schedule(&mut queue, &mut replies, Reply::Counter { completes: true });
    let _ = control.request(Shutdown::Stop);

    assert_eq!(poll_queue(&mut queue, &mut control, &mut replies), ReplyPoll::Progress);
    assert_eq!(replies.polls(key), 0);
    assert_eq!(queue.len(), 1);
}

/// One accepted message of the simulated inbox.
#[derive(Clone, Copy, Debug, PartialEq, Eq)]
enum Envelope {
    /// Counts its dispatch.
    Count,
    /// Counts its dispatch and requests a shutdown.
    Shutdown(Shutdown),
    /// Counts its dispatch and schedules a reply that holds the lease.
    Exclusive,
    /// Counts its dispatch and schedules a reply that completes.
    Reply,
}

/// The inputs of one actor turn: reply state, inbox, and child exits.
struct TurnFixture {
    state: ReplyState<DynamicLimit>,
    control: Control,
    replies: Replies,
    inbox: VecDeque<Envelope>,
    child_exits: VecDeque<u64>,
    budget: usize,
    dispatched: usize,
}

impl TurnFixture {
    fn new(max_in_flight: usize, budget: usize) -> Self {
        TurnFixture {
            state: ReplyState::with_limit(DynamicLimit::new(max_in_flight)),
            control: Control::new(),
            replies: Replies::default(),
            inbox: VecDeque::new(),
            child_exits: VecDeque::new(),
            budget,
            dispatched: 0,
        }
    }

    fn push_reply(&mut self, reply: Reply) -> u64 {
        let key = self.state.push();
        self.replies.add(key, reply);
        key
    }

    fn dispatch(&mut self, envelope: Envelope) {
        self.dispatched += 1;
        match envelope {
            Envelope::Count => {},
            Envelope::Shutdown(shutdown) => {
                let _ = self.control.request(shutdown);
            },
            Envelope::Exclusive => {
                let key = self.state.queue.schedule();
                self.replies.add(key, Reply::Counter { completes: false });
                self.state.queue.acquire_lease(key);
            },
            Envelope::Reply => {
                self.push_reply(Reply::Counter { completes: true });
            },
        }
    }

    /// Runs one turn to its end.
    fn next(&mut self, expected: Mode) -> TurnPoll {
        let mode_ok = self.control.mode() == expected;
        let (mut turn, mut action) = MailboxRuntime::begin_turn(
            &mut self.state,
            true,
            self.budget,
            mode_ok,
        );
        loop {
            let event = match action {
                TurnAction::Done(poll) => return poll,
                TurnAction::PollReplies => TurnEvent::Replies(
                    collect(&mut self.state.queue, &mut self.control, &mut self.replies, expected),
                ),
                TurnAction::ReceiveMessage => match self.inbox.pop_front() {
                    Some(envelope) => {
                        self.dispatch(envelope);
                        TurnEvent::Dispatched
                    },
                    None => TurnEvent::InboxEmpty,
                },
                TurnAction::PollChild => match self.child_exits.pop_front() {
                    Some(_) => TurnEvent::ChildExited,
                    None => TurnEvent::NoChildExit,
                },
            };
            let mode_ok = self.control.mode() == expected;
            action = MailboxRuntime::continue_turn(&mut self.state, &mut turn, event, mode_ok);
        }
    }
}

/// The default mailbox dispatch budget of built-in configurations.
const MAILBOX_DISPATCH_BUDGET: usize = 16;

#[test]
fn ordinary_cursor_visits_each_actor_source_between_mailbox_batches() {
    // Each source must win before another mailbox batch.
    let mut fixture = TurnFixture::new(2, MAILBOX_DISPATCH_BUDGET);
    for _ in 0..=MAILBOX_DISPATCH_BUDGET {
        fixture.inbox.push_back(Envelope::Count);
    }
    fixture.child_exits.push_back(1);
    let reply = fixture.push_reply(Reply::Counter { completes: true });

    assert_eq!(fixture.next(Mode::Running), TurnPoll::Ready(SchedulerTurn::Progress));
    assert_eq!(fixture.dispatched, MAILBOX_DISPATCH_BUDGET);
    assert_eq!(fixture.replies.polls(reply), 0);

    assert_eq!(fixture.next(Mode::Running), TurnPoll::Ready(SchedulerTurn::Progress));
    assert_eq!(fixture.replies.polls(reply), 1);

    assert_eq!(
        fixture.next(Mode::Running),
        TurnPoll::Ready(SchedulerTurn::Child),
        "child exits must follow the first mailbox and reply turns"
    );
    assert!(!fixture.inbox.is_empty());
}

#[test]
fn mailbox_batch_stops_after_dispatch_changes_lifecycle() {
    for shutdown in [Shutdown::Stop, Shutdown::Drain, Shutdown::Kill] {
        let mut fixture = TurnFixture::new(1, MAILBOX_DISPATCH_BUDGET);
        fixture.inbox.push_back(Envelope::Shutdown(shutdown));
        fixture.inbox.push_back(Envelope::Count);

        assert_eq!(fixture.next(Mode::Running), TurnPoll::Ready(SchedulerTurn::LifecycleHint));
        assert_eq!(fixture.dispatched, 1);
        assert!(!fixture.inbox.is_empty());
    }
}

#[test]
fn drain_rotates_then_uses_the_configured_mailbox_dispatch_budget() {
    let mut fixture = TurnFixture::new(2, MAILBOX_DISPATCH_BUDGET);
    fixture.push_reply(Reply::Counter { completes: true });
    fixture.child_exits.push_back(1);
    fixture.inbox.push_back(Envelope::Shutdown(Shutdown::Drain));
    for _ in 0..=MAILBOX_DISPATCH_BUDGET {
        fixture.inbox.push_back(Envelope::Count);
    }

    assert_eq!(fixture.next(Mode::Running), TurnPoll::Ready(SchedulerTurn::LifecycleHint));
    assert_eq!(fixture.control.mode(), Mode::Draining);
    assert_eq!(fixture.next(Mode::Draining), TurnPoll::Ready(SchedulerTurn::Progress));
    assert_eq!(fixture.dispatched, 1);
    assert!(!fixture.state.has_replies());
    assert_eq!(fixture.next(Mode::Draining), TurnPoll::Ready(SchedulerTurn::Child));
    assert_eq!(fixture.next(Mode::Draining), TurnPoll::Ready(SchedulerTurn::Progress));
    assert_eq!(fixture.dispatched, MAILBOX_DISPATCH_BUDGET + 1);
    assert!(!fixture.inbox.is_empty());
}

#[test]
fn drain_inherits_cursor_before_resuming_mailbox() {
    let budget = 3;
    let mut fixture = TurnFixture::new(32, budget);
    fixture.child_exits.push_back(1);
    fixture.inbox.push_back(Envelope::Shutdown(Shutdown::Drain));
    for _ in 0..=budget {
        fixture.inbox.push_back(Envelope::Count);
    }

    assert_eq!(fixture.next(Mode::Running), TurnPoll::Ready(SchedulerTurn::LifecycleHint));
    assert_eq!(fixture.next(Mode::Draining), TurnPoll::Ready(SchedulerTurn::Child));
    assert_eq!(fixture.dispatched, 1);
    assert_eq!(fixture.next(Mode::Draining), TurnPoll::Ready(SchedulerTurn::Progress));
    assert_eq!(fixture.dispatched, budget + 1);
    assert!(!fixture.inbox.is_empty());
}

#[test]
fn mailbox_batch_stops_when_reply_blocks_dispatch() {
    for boundary in [Envelope::Exclusive, Envelope::Reply] {
        let mut fixture = TurnFixture::new(1, MAILBOX_DISPATCH_BUDGET);
        fixture.inbox.push_back(boundary);
        fixture.inbox.push_back(Envelope::Count);

        assert_eq!(fixture.next(Mode::Running), TurnPoll::Ready(SchedulerTurn::Progress));
        assert_eq!(fixture.dispatched, 1);
        assert!(!fixture.inbox.is_empty());
    }
}

#[test]
fn mailbox_batch_repolls_a_new_reply() {
    let mut fixture = TurnFixture::new(2, MAILBOX_DISPATCH_BUDGET);
    fixture.state.cursor = ReplyLane::Reply;
    fixture.inbox.push_back(Envelope::Reply);

    assert_eq!(fixture.next(Mode::Running), TurnPoll::Ready(SchedulerTurn::Progress));
    assert_eq!(fixture.dispatched, 1);
    assert!(fixture.state.has_replies());
    assert_eq!(fixture.next(Mode::Running), TurnPoll::Ready(SchedulerTurn::Progress));
    assert!(!fixture.state.has_replies());
}

#[test]
fn idle_turn_parks_and_moves_the_cursor_past_its_start() {
    let mut fixture = TurnFixture::new(2, MAILBOX_DISPATCH_BUDGET);
    assert_eq!(fixture.state.cursor, ReplyLane::Mailbox);
    assert_eq!(fixture.next(Mode::Running), TurnPoll::Pending);
    assert_eq!(fixture.state.cursor, ReplyLane::Reply);
    assert!(MailboxRuntime::is_idle(&fixture.state));
}

#[test]
fn closed_inbox_ends_the_turn() {
    let mut fixture = TurnFixture::new(2, MAILBOX_DISPATCH_BUDGET);
    let (mut turn, action) = MailboxRuntime::begin_turn(&mut fixture.state, true, 4, true);
    assert_eq!(action, TurnAction::ReceiveMessage);
    let action =
        MailboxRuntime::continue_turn(&mut fixture.state, &mut turn, TurnEvent::InboxClosed, true);
    assert_eq!(action, TurnAction::Done(TurnPoll::Ready(SchedulerTurn::InboxClosed)));
    assert_eq!(fixture.state.cursor, ReplyLane::Reply);
}

#[test]
fn leased_turn_serves_only_the_reply_queue() {
    let mut fixture = TurnFixture::new(2, MAILBOX_DISPATCH_BUDGET);
    fixture.inbox.push_back(Envelope::Count);
    fixture.inbox.push_back(Envelope::Exclusive);
    // The first turn dispatches both; the second holds the lease.
    assert_eq!(fixture.next(Mode::Running), TurnPoll::Ready(SchedulerTurn::Progress));
    assert!(fixture.state.queue.is_leased());
    let cursor = fixture.state.cursor;
    assert_eq!(fixture.next(Mode::Running), TurnPoll::Pending);
    assert_eq!(fixture.state.cursor, cursor);
}

#[test]
fn lifecycle_change_before_a_turn_is_a_hint() {
    let mut fixture = TurnFixture::new(2, MAILBOX_DISPATCH_BUDGET);
    fixture.inbox.push_back(Envelope::Count);
    let _ = fixture.control.request(Shutdown::Kill);
    assert_eq!(fixture.next(Mode::Running), TurnPoll::Ready(SchedulerTurn::LifecycleHint));
    assert_eq!(fixture.dispatched, 0);
}

#[test]
fn lane_rotation_returns_after_three_steps() {
    let lanes = [ReplyLane::Mailbox, ReplyLane::Reply, ReplyLane::ChildExit];
    for lane in lanes {
        assert_eq!(lane.next().next().next(), lane);
        assert_ne!(lane.next(), lane);
    }
    assert_eq!(ReplyLane::Mailbox.next(), ReplyLane::Reply);
    assert_eq!(ReplyLane::Reply.next(), ReplyLane::ChildExit);
    assert_eq!(ReplyLane::ChildExit.next(), ReplyLane::Mailbox);
}
