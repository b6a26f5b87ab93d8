//! The turn logic of each scheduling profile.
//!
//! One actor turn visits the mailbox, the reply queue, and child exits in
//! rotation, starting at the lane after the one that last made progress.
//! The turn is a state machine: each step returns the outside work to do
//! next ([`TurnAction`]), and the caller reports what that work found
//! ([`TurnEvent`]).
use vstd::prelude::*;

use crate::runtime::scope::{exit_polled, ChildExit, ScopeState};
use crate::scheduling::queue::ReplyPoll;
use crate::scheduling::state::{
    advance, DynamicLimit, FixedLimit, LimitPolicy, ReplyLane, ReplyState,
};

verus! {

/// Result of one scheduler-owned actor turn.
#[derive(Clone, Copy, Debug, PartialEq, Eq, Structural)]
pub enum SchedulerTurn {
    /// Notification or lifecycle mismatch.
    LifecycleHint,
    /// Mailbox dispatch or an actor-aware reply made progress.
    Progress,
    /// One direct child terminated; the caller holds its exit event.
    Child,
    /// The mailbox receiver closed.
    InboxClosed,
}

/// The poll result of a turn.
#[derive(Clone, Copy, Debug, PartialEq, Eq, Structural)]
pub enum TurnPoll {
    /// The turn produced a result.
    Ready(SchedulerTurn),
    /// Nothing to do until the task is woken again.
    Pending,
}

/// The outside work a turn asks for next.
#[derive(Clone, Copy, Debug, PartialEq, Eq, Structural)]
pub enum TurnAction {
    /// Run one collection pass over the reply queue.
    PollReplies,
    /// Poll the inbox once and dispatch any envelope received.
    ReceiveMessage,
    /// Poll direct-child exits once.
    PollChild,
    /// The turn is over.
    Done(TurnPoll),
}

/// What the outside work found.
#[derive(Clone, Copy, Debug, PartialEq, Eq, Structural)]
pub enum TurnEvent {
    /// A collection pass ended with this outcome.
    Replies(ReplyPoll),
    /// One envelope was received and dispatched.
    Dispatched,
    /// The inbox reported that it is closed.
    InboxClosed,
    /// The inbox had nothing ready.
    InboxEmpty,
    /// One direct child exited.
    ChildExited,
    /// No direct child exit was ready.
    NoChildExit,
}

/// Whether a turn serves `lane` when it reaches it: the mailbox only while
/// messages are received and dispatch is open, the reply queue only while
/// replies are live, and child exits always.
pub open spec fn lane_served(lane: ReplyLane, receive: bool, dispatch_open: bool, replies_live: bool) -> bool {
    match lane {
        ReplyLane::Mailbox => receive && dispatch_open,
        ReplyLane::Reply => replies_live,
        ReplyLane::ChildExit => true,
    }
}

/// How many lanes, from `lane` on and within `remaining` lanes, a turn
/// passes over before it meets one it serves.
pub open spec fn skipped_lanes(
    lane: ReplyLane,
    remaining: nat,
    receive: bool,
    dispatch_open: bool,
    replies_live: bool,
) -> nat {
    let served = |l: ReplyLane| lane_served(l, receive, dispatch_open, replies_live);
    if remaining == 0 || served(lane) {
        0
    } else if remaining == 1 || served(lane.following()) {
        1
    } else if remaining == 2 || served(lane.following().following()) {
        2
    } else {
        3
    }
}

/// The outside work that serves `lane`.
pub open spec fn lane_action(lane: ReplyLane) -> TurnAction {
    match lane {
        ReplyLane::Mailbox => TurnAction::ReceiveMessage,
        ReplyLane::Reply => TurnAction::PollReplies,
        ReplyLane::ChildExit => TurnAction::PollChild,
    }
}

/// How many lanes a rotation from `start` passes before the mailbox.
pub open spec fn mailbox_offset(start: ReplyLane) -> nat {
    match start {
        ReplyLane::Mailbox => 0,
        ReplyLane::ChildExit => 1,
        ReplyLane::Reply => 2,
    }
}

/// The number of lanes in the rotation.
pub const LANES: usize = 3;

/// State of one actor turn.
pub struct Turn {
    start: ReplyLane,
    lane: ReplyLane,
    visited: usize,
    dispatched: usize,
    batch: Ghost<nat>,
    budget: usize,
    receive_messages: bool,
    leased: bool,
    done: bool,
}

impl Turn {
    /// The lane the turn started at.
    pub closed spec fn start_lane(&self) -> ReplyLane {
        self.start
    }

    /// The lane being served.
    pub closed spec fn current_lane(&self) -> ReplyLane {
        self.lane
    }

    /// How many lanes the turn has passed over.
    pub closed spec fn visited_count(&self) -> nat {
        self.visited as nat
    }

    /// Messages dispatched by the current mailbox batch.
    pub closed spec fn dispatched_count(&self) -> nat {
        self.dispatched as nat
    }

    /// Messages dispatched in this whole turn.
    pub closed spec fn dispatched_total(&self) -> nat {
        self.batch@
    }

    /// The most messages one mailbox batch dispatches.
    pub closed spec fn dispatch_budget(&self) -> nat {
        self.budget as nat
    }

    /// Whether the turn receives messages.
    pub closed spec fn receives(&self) -> bool {
        self.receive_messages
    }

    /// Whether the turn serves only the lease holder.
    pub closed spec fn is_leased_turn(&self) -> bool {
        self.leased
    }

    /// Whether the turn is over.
    pub closed spec fn is_done(&self) -> bool {
        self.done
    }

    /// Internal consistency of a turn.
    pub closed spec fn wf(&self) -> bool {
        &&& self.budget > 0
        &&& self.dispatched <= self.budget
        &&& self.visited < LANES
        &&& self.lane == advance(self.start, self.visited as nat)
        &&& !self.done && !self.leased && self.lane == ReplyLane::Mailbox ==> self.dispatched
            < self.budget
        &&& self.batch@ <= self.budget
        &&& self.visited < mailbox_offset(self.start) ==> self.batch@ == 0
        &&& self.visited == mailbox_offset(self.start) ==> self.batch@ == self.dispatched
    }

    /// Whether `event` reports the work this turn asked for.
    pub open spec fn fits(&self, event: TurnEvent) -> bool {
        if self.is_leased_turn() {
            event is Replies
        } else {
            match self.current_lane() {
                ReplyLane::Mailbox => event is Dispatched || event is InboxClosed
                    || event is InboxEmpty,
                ReplyLane::Reply => event is Replies,
                ReplyLane::ChildExit => event is ChildExited || event is NoChildExit,
            }
        }
    }

    /// Whether two turns agree on everything fixed at the turn's start.
    pub open spec fn same_setup(&self, other: &Turn) -> bool {
        &&& self.start_lane() == other.start_lane()
        &&& self.dispatch_budget() == other.dispatch_budget()
        &&& self.receives() == other.receives()
        &&& self.is_leased_turn() == other.is_leased_turn()
    }
}

/// What a turn does when it scans for a lane to serve, starting at `lane`
/// after passing over `visited` lanes, under the state flags `open` and
/// `live`: a lifecycle change ends it, otherwise it serves the first lane
/// in rotation it serves at all, and a full rotation without one parks it
/// with the cursor just past its start.
pub open spec fn scanned(
    cursor_before: ReplyLane,
    cursor_after: ReplyLane,
    turn: Turn,
    action: TurnAction,
    lane: ReplyLane,
    visited: nat,
    mode_ok: bool,
    open: bool,
    live: bool,
) -> bool {
    let k = skipped_lanes(lane, (LANES - visited) as nat, turn.receives(), open, live);
    if !mode_ok {
        &&& action == TurnAction::Done(TurnPoll::Ready(SchedulerTurn::LifecycleHint))
        &&& cursor_after == cursor_before
        &&& turn.is_done()
    } else if k < LANES - visited {
        &&& !turn.is_done()
        &&& turn.current_lane() == advance(lane, k)
        &&& turn.visited_count() == visited + k
        &&& action == lane_action(turn.current_lane())
        &&& turn.dispatched_count() == 0
        &&& cursor_after == cursor_before
    } else {
        &&& action == TurnAction::Done(TurnPoll::Pending)
        &&& cursor_after == turn.start_lane().following()
        &&& turn.is_done()
    }
}

/// After serving `lane` without result: the next lane, or the end of the
/// rotation.
pub open spec fn moved_on(
    cursor_before: ReplyLane,
    cursor_after: ReplyLane,
    turn: Turn,
    action: TurnAction,
    lane: ReplyLane,
    visited: nat,
    mode_ok: bool,
    open: bool,
    live: bool,
) -> bool {
    if visited + 1 == LANES {
        &&& action == TurnAction::Done(TurnPoll::Pending)
        &&& cursor_after == turn.start_lane().following()
        &&& turn.is_done()
    } else {
        scanned(
            cursor_before,
            cursor_after,
            turn,
            action,
            lane.following(),
            visited + 1,
            mode_ok,
            open,
            live,
        )
    }
}

/// Within one rotation, the mailbox is reached exactly at its offset.
proof fn lemma_mailbox_offset(start: ReplyLane, k: nat)
    requires
        k < LANES,
    ensures
        (advance(start, k) == ReplyLane::Mailbox) == (k == mailbox_offset(start)),
{
}

/// Advancing by one more step follows the lane after.
proof fn lemma_advance_step(lane: ReplyLane, k: nat)
    ensures
        advance(lane, k + 1) == advance(lane, k).following(),
        advance(lane, k + 1) == advance(lane.following(), k),
{
}

/// Messages that `events` report dispatched.
pub open spec fn dispatch_count(events: Seq<TurnEvent>) -> nat
    decreases events.len(),
{
    if events.len() == 0 {
        0
    } else {
        dispatch_count(events.drop_last()) + if events.last() == TurnEvent::Dispatched {
            1nat
        } else {
            0nat
        }
    }
}

/// What one step of a turn keeps: its setup, its consistency, and a count
/// of the messages dispatched in the whole turn.
pub open spec fn turn_step(before: Turn, event: TurnEvent, after: Turn) -> bool {
    &&& after.wf()
    &&& after.same_setup(&before)
    &&& after.dispatched_total() == before.dispatched_total() + if event
        == TurnEvent::Dispatched {
        1nat
    } else {
        0nat
    }
}

/// Step `i` of a recorded turn: `continue_turn` took `turns[i]` to
/// `turns[i + 1]` on `events[i]`.
pub open spec fn turn_step_at(turns: Seq<Turn>, events: Seq<TurnEvent>, i: int) -> bool {
    turn_step(turns[i], events[i], turns[i + 1])
}

proof fn lemma_turn_prefix(turns: Seq<Turn>, events: Seq<TurnEvent>, k: int)
    requires
        turns.len() == events.len() + 1,
        turns[0].wf(),
        turns[0].dispatched_total() == 0,
        forall|i: int| 0 <= i < events.len() ==> #[trigger] turn_step_at(turns, events, i),
        0 <= k <= events.len(),
    ensures
        dispatch_count(events.take(k)) == turns[k].dispatched_total(),
        turns[k].dispatch_budget() == turns[0].dispatch_budget(),
        turns[k].wf(),
    decreases k,
{
    if k > 0 {
        lemma_turn_prefix(turns, events, k - 1);
        assert(turn_step_at(turns, events, k - 1));
        assert(events.take(k).drop_last() =~= events.take(k - 1));
    }
}

/// One call of a mailbox turn dispatches at most its budget: over the
/// steps of a turn from its start, the messages reported dispatched are
/// the turn's count, which never exceeds the dispatch budget.
pub proof fn law_turn_dispatches_within_budget(turns: Seq<Turn>, events: Seq<TurnEvent>)
    requires
        turns.len() == events.len() + 1,
        turns[0].wf(),
        turns[0].dispatched_total() == 0,
        forall|i: int| 0 <= i < events.len() ==> #[trigger] turn_step_at(turns, events, i),
    ensures
        dispatch_count(events) == turns.last().dispatched_total(),
        dispatch_count(events) <= turns[0].dispatch_budget(),
{
    lemma_turn_prefix(turns, events, events.len() as int);
    assert(events.take(events.len() as int) =~= events);
}

/// A mailbox batch never dispatches more than its budget.
pub proof fn law_batch_within_budget(turn: Turn)
    requires
        turn.wf(),
    ensures
        turn.dispatched_count() <= turn.dispatch_budget(),
{
}

/// While a turn serves the mailbox, its batch is below the budget and is
/// the whole turn's count, so a reported dispatch never passes the budget.
pub proof fn law_mailbox_batch_below_budget(turn: Turn)
    requires
        turn.wf(),
        !turn.is_done(),
        !turn.is_leased_turn(),
        turn.current_lane() == ReplyLane::Mailbox,
    ensures
        turn.dispatched_count() < turn.dispatch_budget(),
        turn.dispatched_total() == turn.dispatched_count(),
{
    lemma_mailbox_offset(turn.start_lane(), turn.visited_count());
}

/// Child exits are always served: a turn that reaches the child-exit lane
/// with its mode unchanged asks to poll child exits, whatever the mailbox,
/// dispatch, and reply state; and so a turn with its mode unchanged never
/// parks without having served some lane.
pub proof fn law_child_exits_always_served(
    cursor_before: ReplyLane,
    cursor_after: ReplyLane,
    turn: Turn,
    action: TurnAction,
    lane: ReplyLane,
    visited: nat,
    open: bool,
    live: bool,
)
    requires
        visited < LANES,
        scanned(cursor_before, cursor_after, turn, action, lane, visited, true, open, live),
    ensures
        lane == ReplyLane::ChildExit ==> action == TurnAction::PollChild && !turn.is_done()
            && turn.current_lane() == ReplyLane::ChildExit,
        visited == 0 ==> action != TurnAction::Done(TurnPoll::Pending),
        forall|receive: bool, o: bool, l: bool|
            #[trigger] lane_served(ReplyLane::ChildExit, receive, o, l),
{
}

/// The mailbox is served exactly while messages are received and dispatch
/// is open, and the reply queue exactly while replies are live: a turn that
/// reaches either lane with its mode unchanged serves it then, and
/// otherwise passes it.
pub proof fn law_lanes_served_when_useful(
    cursor_before: ReplyLane,
    cursor_after: ReplyLane,
    turn: Turn,
    action: TurnAction,
    visited: nat,
    open: bool,
    live: bool,
)
    requires
        visited < LANES,
    ensures
        scanned(cursor_before, cursor_after, turn, action, ReplyLane::Mailbox, visited, true, open, live)
            ==> ((action == TurnAction::ReceiveMessage) == (turn.receives() && open)),
        scanned(cursor_before, cursor_after, turn, action, ReplyLane::Reply, visited, true, open, live)
            ==> ((action == TurnAction::PollReplies) == live),
{
}

/// A turn that starts after a mailbox batch serves replies or child exits
/// before the mailbox: the next lane it serves is never the mailbox.
pub proof fn law_mailbox_batch_yields(receive: bool, open: bool, live: bool)
    ensures
        ({
            let k = skipped_lanes(ReplyLane::Reply, LANES as nat, receive, open, live);
            &&& k < LANES
            &&& advance(ReplyLane::Reply, k) != ReplyLane::Mailbox
            &&& live ==> advance(ReplyLane::Reply, k) == ReplyLane::Reply
        }),
{
}

/// Dispatch keeps the reply limit: a message is received only while a
/// dynamic limit admits another reply, and one dispatch adds at most one
/// reply, so the live replies never exceed the limit.
pub proof fn law_dispatch_within_limit(state: ReplyState<DynamicLimit>, after_len: nat)
    requires
        state.dispatch_open(),
        after_len <= state.queue.entries().len() + 1,
    ensures
        after_len <= state.limit.value(),
        state.queue.holder() is None,
{
}

/// The same for a compile-time limit of `N` replies.
pub proof fn law_dispatch_within_fixed_limit<const N: usize>(
    state: ReplyState<FixedLimit<N>>,
    after_len: nat,
)
    requires
        state.dispatch_open(),
        after_len <= state.queue.entries().len() + 1,
    ensures
        after_len <= N,
        state.queue.holder() is None,
{
}

impl MailboxRuntime {
    /// Whether no dispatched reply remains.
    pub fn is_idle<L: LimitPolicy>(state: &ReplyState<L>) -> (r: bool)
        ensures
            r == !state.replies_live(),
    {
        !state.has_replies()
    }

    /// Whether a collection pass made progress: only a completed reply or a
    /// lifecycle change does; a pending, leased, or truncated pass parks.
    pub fn replies_progressed(outcome: ReplyPoll) -> (r: bool)
        ensures
            r == (outcome == ReplyPoll::Progress),
    {
        match outcome {
            ReplyPoll::Progress => true,
            ReplyPoll::Pending | ReplyPoll::Leased | ReplyPoll::BudgetExhausted => false,
        }
    }

    /// Starts one turn.
    ///
    /// `budget` bounds one mailbox batch; `mode_ok` reports whether the
    /// lifecycle mode matches the one the caller expects.
    pub fn begin_turn<L: LimitPolicy>(
        state: &mut ReplyState<L>,
        receive_messages: bool,
        budget: usize,
        mode_ok: bool,
    ) -> (res: (Turn, TurnAction))
        requires
            budget > 0,
        ensures
            res.0.wf(),
            res.0.receives() == receive_messages,
            res.0.dispatch_budget() == budget,
            res.0.dispatched_total() == 0,
            // A message is asked for only while dispatch is open.
            res.1 == TurnAction::ReceiveMessage ==> final(state).dispatch_open() && receive_messages,
            final(state).queue == old(state).queue,
            final(state).limit == old(state).limit,
            !mode_ok ==> res.1 == TurnAction::Done(TurnPoll::Ready(SchedulerTurn::LifecycleHint))
                && res.0.is_done() && final(state).cursor == old(state).cursor,
            mode_ok && old(state).queue.holder() is Some ==> res.1 == TurnAction::PollReplies
                && res.0.is_leased_turn() && !res.0.is_done() && final(state).cursor == old(state).cursor,
            mode_ok && old(state).queue.holder() is None ==> {
                &&& !res.0.is_leased_turn()
                &&& res.0.start_lane() == old(state).cursor
                &&& scanned(
                    old(state).cursor,
                    final(state).cursor,
                    res.0,
                    res.1,
                    old(state).cursor,
                    0,
                    mode_ok,
                    old(state).dispatch_open(),
                    old(state).replies_live(),
                )
            },
    {
        let start = state.cursor;
        let mut turn = Turn {
            start,
            lane: start,
            visited: 0,
            dispatched: 0,
            batch: Ghost(0),
            budget,
            receive_messages,
            leased: false,
            done: false,
        };
        if !mode_ok {
            turn.done = true;
            return (turn, TurnAction::Done(TurnPoll::Ready(SchedulerTurn::LifecycleHint)));
        }
        if state.queue.is_leased() {
            turn.leased = true;
            return (turn, TurnAction::PollReplies);
        }
        let action = Self::scan(state, &mut turn, mode_ok);
        (turn, action)
    }

    /// Serves the first lane the turn serves, from the current one on.
    #[verifier::rlimit(40)]
    fn scan<L: LimitPolicy>(state: &mut ReplyState<L>, turn: &mut Turn, mode_ok: bool) -> (action:
        TurnAction)
        requires
            old(turn).wf(),
            !old(turn).is_done(),
            !old(turn).is_leased_turn(),
            old(turn).current_lane() == ReplyLane::Mailbox ==> old(turn).dispatched_total() == 0,
        ensures
            final(turn).wf(),
            final(turn).same_setup(&*old(turn)),
            final(turn).dispatched_total() == old(turn).dispatched_total(),
            final(state).queue == old(state).queue,
            final(state).limit == old(state).limit,
            scanned(
                old(state).cursor,
                final(state).cursor,
                *final(turn),
                action,
                old(turn).current_lane(),
                old(turn).visited_count(),
                mode_ok,
                old(state).dispatch_open(),
                old(state).replies_live(),
            ),
        decreases LANES - old(turn).visited_count(), 1nat,
    {
        if !mode_ok {
            turn.done = true;
            return TurnAction::Done(TurnPoll::Ready(SchedulerTurn::LifecycleHint));
        }
        let served = match turn.lane {
            ReplyLane::Mailbox => turn.receive_messages && state.has_dispatch_capacity(),
            ReplyLane::Reply => state.has_replies(),
            ReplyLane::ChildExit => true,
        };
        if served {
            turn.dispatched = 0;
            return match turn.lane {
                ReplyLane::Mailbox => TurnAction::ReceiveMessage,
                ReplyLane::Reply => TurnAction::PollReplies,
                ReplyLane::ChildExit => TurnAction::PollChild,
            };
        }
        let ghost open = old(state).dispatch_open();
        let ghost live = old(state).replies_live();
        let ghost lane = old(turn).current_lane();
        let ghost v = old(turn).visited_count();
        let ghost receive = old(turn).receives();
        assert(!lane_served(lane, receive, open, live));
        assert(skipped_lanes(lane, (LANES - v) as nat, receive, open, live) == 1 + skipped_lanes(
            lane.following(),
            (LANES - v - 1) as nat,
            receive,
            open,
            live,
        ));
        let action = Self::move_on(state, turn, mode_ok);
        proof {
            if v + 1 < LANES && !turn.is_done() {
                let k = turn.visited_count() - (v + 1);
                lemma_advance_step(lane, k as nat);
            }
        }
        action
    }

    /// Moves past the current lane after it produced no result.
    fn move_on<L: LimitPolicy>(state: &mut ReplyState<L>, turn: &mut Turn, mode_ok: bool) -> (action:
        TurnAction)
        requires
            old(turn).wf(),
            !old(turn).is_done(),
            !old(turn).is_leased_turn(),
        ensures
            final(turn).wf(),
            final(turn).same_setup(&*old(turn)),
            final(turn).dispatched_total() == old(turn).dispatched_total(),
            final(state).queue == old(state).queue,
            final(state).limit == old(state).limit,
            moved_on(
                old(state).cursor,
                final(state).cursor,
                *final(turn),
                action,
                old(turn).current_lane(),
                old(turn).visited_count(),
                mode_ok,
                old(state).dispatch_open(),
                old(state).replies_live(),
            ),
        decreases LANES - old(turn).visited_count(), 0nat,
    {
        if turn.visited + 1 == LANES {
            turn.done = true;
            state.cursor = turn.start.next();
            return TurnAction::Done(TurnPoll::Pending);
        }
        proof {
            lemma_advance_step(turn.start, turn.visited as nat);
            lemma_mailbox_offset(turn.start, (turn.visited + 1) as nat);
        }
        turn.lane = turn.lane.next();
        turn.visited = turn.visited + 1;
        turn.dispatched = 0;
        Self::scan(state, turn, mode_ok)
    }

    /// Continues a turn with what the requested work found.
    ///
    /// `mode_ok` reports whether the lifecycle mode still matches after
    /// that work.
    pub fn continue_turn<L: LimitPolicy>(
        state: &mut ReplyState<L>,
        turn: &mut Turn,
        event: TurnEvent,
        mode_ok: bool,
    ) -> (action: TurnAction)
        requires
            old(turn).wf(),
            !old(turn).is_done(),
            old(turn).fits(event),
        ensures
            final(turn).wf(),
            final(turn).same_setup(&*old(turn)),
            turn_step(*old(turn), event, *final(turn)),
            final(state).queue == old(state).queue,
            final(state).limit == old(state).limit,
            // A message is asked for only while dispatch is open.
            action == TurnAction::ReceiveMessage ==> final(state).dispatch_open(),
            // A turn that produced a result moves the cursor past the lane
            // that produced it.
            !old(turn).is_leased_turn() && (action matches TurnAction::Done(TurnPoll::Ready(t))
                && t != SchedulerTurn::LifecycleHint) ==> final(state).cursor == old(turn).current_lane().following(),
            old(turn).is_leased_turn() ==> final(turn).is_done() && final(state).cursor == old(state).cursor && action == TurnAction::Done(
                if event == TurnEvent::Replies(ReplyPoll::Progress) {
                    TurnPoll::Ready(SchedulerTurn::Progress)
                } else {
                    TurnPoll::Pending
                },
            ),
            !old(turn).is_leased_turn() ==> {
                let lane = old(turn).current_lane();
                let visited = old(turn).visited_count();
                let open = old(state).dispatch_open();
                let live = old(state).replies_live();
                let moves = moved_on(
                    old(state).cursor,
                    final(state).cursor,
                    *final(turn),
                    action,
                    lane,
                    visited,
                    mode_ok,
                    open,
                    live,
                );
                let ends = |t: SchedulerTurn|
                    action == TurnAction::Done(TurnPoll::Ready(t)) && final(state).cursor
                        == lane.following() && final(turn).is_done();
                &&& event == TurnEvent::Dispatched ==> {
                    let d = old(turn).dispatched_count() + 1;
                    &&& !mode_ok ==> ends(SchedulerTurn::LifecycleHint)
                    &&& mode_ok && (d == old(turn).dispatch_budget() || !open) ==> ends(
                        SchedulerTurn::Progress,
                    )
                    &&& mode_ok && d < old(turn).dispatch_budget() && open ==> action
                        == TurnAction::ReceiveMessage && !final(turn).is_done()
                        && final(turn).current_lane() == lane && final(turn).dispatched_count()
                        == d && final(state).cursor == old(state).cursor
                }
                &&& event == TurnEvent::InboxClosed ==> ends(SchedulerTurn::InboxClosed)
                &&& event == TurnEvent::InboxEmpty ==> if old(turn).dispatched_count() > 0
                    && old(turn).start_lane() == ReplyLane::Reply && live {
                    ends(SchedulerTurn::Progress)
                } else {
                    moves
                }
                &&& event == TurnEvent::Replies(ReplyPoll::Pending) ==> moves
                &&& event == TurnEvent::Replies(ReplyPoll::Progress) ==> ends(
                    SchedulerTurn::Progress,
                )
                &&& event == TurnEvent::Replies(ReplyPoll::Leased) ==> action == TurnAction::Done(
                    TurnPoll::Pending,
                ) && final(state).cursor == old(state).cursor && final(turn).is_done()
                &&& event == TurnEvent::Replies(ReplyPoll::BudgetExhausted) ==> action
                    == TurnAction::Done(TurnPoll::Pending) && final(state).cursor
                    == lane.following() && final(turn).is_done()
                &&& event == TurnEvent::ChildExited ==> ends(SchedulerTurn::Child)
                &&& event == TurnEvent::NoChildExit ==> moves
            },
    {
        if turn.leased {
            turn.done = true;
            return TurnAction::Done(
                match event {
                    TurnEvent::Replies(ReplyPoll::Progress) => TurnPoll::Ready(
                        SchedulerTurn::Progress,
                    ),
                    _ => TurnPoll::Pending,
                },
            );
        }
        match event {
            TurnEvent::Dispatched => {
                turn.dispatched = turn.dispatched + 1;
                turn.batch = Ghost(turn.batch@ + 1);
                if !mode_ok {
                    turn.done = true;
                    state.cursor = turn.lane.next();
                    return TurnAction::Done(TurnPoll::Ready(SchedulerTurn::LifecycleHint));
                }
                if turn.dispatched == turn.budget || !state.has_dispatch_capacity() {
                    turn.done = true;
                    state.cursor = turn.lane.next();
                    return TurnAction::Done(TurnPoll::Ready(SchedulerTurn::Progress));
                }
                TurnAction::ReceiveMessage
            },
            TurnEvent::InboxClosed => {
                turn.done = true;
                state.cursor = turn.lane.next();
                TurnAction::Done(TurnPoll::Ready(SchedulerTurn::InboxClosed))
            },
            TurnEvent::InboxEmpty => {
                if turn.dispatched > 0 && turn.start == ReplyLane::Reply && state.has_replies() {
                    turn.done = true;
                    state.cursor = turn.lane.next();
                    return TurnAction::Done(TurnPoll::Ready(SchedulerTurn::Progress));
                }
                Self::move_on(state, turn, mode_ok)
            },
            TurnEvent::Replies(outcome) => match outcome {
                ReplyPoll::Pending => Self::move_on(state, turn, mode_ok),
                ReplyPoll::Progress => {
                    turn.done = true;
                    state.cursor = turn.lane.next();
                    TurnAction::Done(TurnPoll::Ready(SchedulerTurn::Progress))
                },
                ReplyPoll::Leased => {
                    turn.done = true;
                    TurnAction::Done(TurnPoll::Pending)
                },
                ReplyPoll::BudgetExhausted => {
                    turn.done = true;
                    state.cursor = turn.lane.next();
                    TurnAction::Done(TurnPoll::Pending)
                },
            },
            TurnEvent::ChildExited => {
                turn.done = true;
                state.cursor = turn.lane.next();
                TurnAction::Done(TurnPoll::Ready(SchedulerTurn::Child))
            },
            TurnEvent::NoChildExit => Self::move_on(state, turn, mode_ok),
        }
    }
}

/// Polls child exits without exposing child storage to the turn: the
/// oldest published exit, if any.
pub fn poll_child(state: &mut ScopeState) -> (exit: Option<ChildExit>)
    requires
        old(state).children.wf(),
    ensures
        final(state).children.wf(),
        exit_polled(old(state).children, final(state).children, exit),
{
    state.poll_child_exit()
}

/// Turn logic for actors without a mailbox: only child exits.
pub struct DisabledRuntime;

/// Turn logic for mailbox actors: mailbox, replies, and child exits.
pub struct MailboxRuntime;

impl DisabledRuntime {
    /// An actor without a mailbox never holds replies.
    pub fn is_idle() -> (r: bool)
        ensures
            r,
    {
        true
    }

    /// Starts one turn: a lifecycle change ends it, else child exits are
    /// polled.
    pub fn begin_turn(mode_ok: bool) -> (action: TurnAction)
        ensures
            action == (if mode_ok {
                TurnAction::PollChild
            } else {
                TurnAction::Done(TurnPoll::Ready(SchedulerTurn::LifecycleHint))
            }),
    {
        if !mode_ok {
            return TurnAction::Done(TurnPoll::Ready(SchedulerTurn::LifecycleHint));
        }
        TurnAction::PollChild
    }

    /// Ends the turn with what the child poll found.
    pub fn finish_turn(child_exited: bool) -> (poll: TurnPoll)
        ensures
            poll == (if child_exited {
                TurnPoll::Ready(SchedulerTurn::Child)
            } else {
                TurnPoll::Pending
            }),
    {
        if child_exited {
            TurnPoll::Ready(SchedulerTurn::Child)
        } else {
            TurnPoll::Pending
        }
    }
}

} // verus!
