use vstd::prelude::*;

verus! {

/// Where the heartbeat worker stands.
#[derive(Clone, Copy, Debug, PartialEq, Eq, Structural)]
pub enum WorkerState {
    /// Waiting on the dispatch channel.
    Idle,
    /// Sending the heartbeat it took from the channel.
    Delivering,
    /// Handing a delivery error to the editor thread.
    SignalingError,
    /// Done: the channel closed, or nobody listens for errors any more.
    Stopped,
}

/// What happened since the worker's last decision.
#[derive(Clone, Copy, Debug, PartialEq, Eq, Structural)]
pub enum WorkerEvent {
    /// A heartbeat came out of the dispatch channel.
    Received,
    /// The dispatch channel closed.
    ChannelClosed,
    /// The tracking service took the heartbeat.
    Delivered,
    /// Sending the heartbeat failed.
    DeliveryFailed,
    /// The error reached the error channel and the editor thread was woken.
    ErrorSent,
    /// The error channel's receiving side is gone.
    ErrorReceiverGone,
}

/// What the worker does next.
#[derive(Clone, Copy, Debug, PartialEq, Eq, Structural)]
pub enum WorkerAction {
    /// Wait for the next heartbeat on the dispatch channel.
    AwaitNext,
    /// Send the heartbeat just received.
    Deliver,
    /// Push the delivery error to the error channel and wake the editor thread.
    ForwardError,
    /// Leave the loop.
    Halt,
}

/// The events that can follow in each state.
pub open spec fn expects(s: WorkerState, e: WorkerEvent) -> bool {
    match s {
        WorkerState::Idle => e == WorkerEvent::Received || e == WorkerEvent::ChannelClosed,
        WorkerState::Delivering => e == WorkerEvent::Delivered || e == WorkerEvent::DeliveryFailed,
        WorkerState::SignalingError => e == WorkerEvent::ErrorSent || e
            == WorkerEvent::ErrorReceiverGone,
        WorkerState::Stopped => false,
    }
}

/// The worker's transitions.
pub open spec fn transition(s: WorkerState, e: WorkerEvent) -> (WorkerState, WorkerAction) {
    match e {
        WorkerEvent::Received => (WorkerState::Delivering, WorkerAction::Deliver),
        WorkerEvent::ChannelClosed => (WorkerState::Stopped, WorkerAction::Halt),
        WorkerEvent::Delivered => (WorkerState::Idle, WorkerAction::AwaitNext),
        WorkerEvent::DeliveryFailed => (WorkerState::SignalingError, WorkerAction::ForwardError),
        WorkerEvent::ErrorSent => (WorkerState::Idle, WorkerAction::AwaitNext),
        WorkerEvent::ErrorReceiverGone => (WorkerState::Stopped, WorkerAction::Halt),
    }
}

/// The worker's decision on an event.
pub fn step(s: WorkerState, e: WorkerEvent) -> (r: (WorkerState, WorkerAction))
    requires
        expects(s, e),
    ensures
        r == transition(s, e),
{
    match e {
        WorkerEvent::Received => (WorkerState::Delivering, WorkerAction::Deliver),
        WorkerEvent::ChannelClosed => (WorkerState::Stopped, WorkerAction::Halt),
        WorkerEvent::Delivered => (WorkerState::Idle, WorkerAction::AwaitNext),
        WorkerEvent::DeliveryFailed => (WorkerState::SignalingError, WorkerAction::ForwardError),
        WorkerEvent::ErrorSent => (WorkerState::Idle, WorkerAction::AwaitNext),
        WorkerEvent::ErrorReceiverGone => (WorkerState::Stopped, WorkerAction::Halt),
    }
}

/// How one queued heartbeat fares: whether the service took it, and, where it
/// did not, whether the error channel still had a receiver.
pub struct Outcome {
    pub delivered: bool,
    pub receiver_alive: bool,
}

/// The events the worker sees for one heartbeat taken from the channel.
pub open spec fn events_for(o: Outcome) -> Seq<WorkerEvent> {
    if o.delivered {
        seq![WorkerEvent::Received, WorkerEvent::Delivered]
    } else if o.receiver_alive {
        seq![WorkerEvent::Received, WorkerEvent::DeliveryFailed, WorkerEvent::ErrorSent]
    } else {
        seq![WorkerEvent::Received, WorkerEvent::DeliveryFailed, WorkerEvent::ErrorReceiverGone]
    }
}

/// Feeds events to the worker from state `s`: the state reached and the
/// actions taken, or `None` where an event comes that the state does not
/// expect.
pub open spec fn feed(s: WorkerState, events: Seq<WorkerEvent>) -> Option<
    (WorkerState, Seq<WorkerAction>),
>
    decreases events.len(),
{
    if events.len() == 0 {
        Some((s, Seq::empty()))
    } else if !expects(s, events[0]) {
        None
    } else {
        let (next, act) = transition(s, events[0]);
        match feed(next, events.drop_first()) {
            Some((last, acts)) => Some((last, seq![act] + acts)),
            None => None,
        }
    }
}

/// Drains `queue` from the idle worker, heartbeat `k` faring as `outcomes[k]`:
/// the heartbeats sent, in the order they were sent, and whether the worker
/// is still running. The channel hands them out in the order they were queued.
pub open spec fn drain<T>(queue: Seq<T>, outcomes: Seq<Outcome>) -> (Seq<T>, bool)
    decreases queue.len(),
{
    if queue.len() == 0 || outcomes.len() == 0 {
        (Seq::empty(), true)
    } else {
        let o = outcomes[0];
        match feed(WorkerState::Idle, events_for(o)) {
            Some((WorkerState::Idle, acts)) if acts.contains(WorkerAction::Deliver) => {
                let (rest, running) = drain(queue.drop_first(), outcomes.drop_first());
                (seq![queue[0]] + rest, running)
            },
            Some((_, acts)) if acts.contains(WorkerAction::Deliver) => (seq![queue[0]], false),
            _ => (Seq::empty(), false),
        }
    }
}

/// One heartbeat, delivered or not, takes the idle worker through one send
/// and back to waiting, unless a failed one finds the error receiver gone.
pub proof fn lemma_one_heartbeat(o: Outcome)
    ensures
        feed(WorkerState::Idle, events_for(o)) matches Some((s, acts)) && acts[0]
            == WorkerAction::Deliver && acts.contains(WorkerAction::Deliver) && (s
            == WorkerState::Idle <==> (o.delivered || o.receiver_alive)),
{
    reveal_with_fuel(feed, 4);
    let (s, acts) = feed(WorkerState::Idle, events_for(o)).unwrap();
    assert(acts[0] == WorkerAction::Deliver);
}

/// Heartbeats leave in the order they were queued, and a delivery fault does
/// not hold up or drop the ones behind it: while the error receiver is there,
/// every queued heartbeat is sent, in order, and the worker keeps running.
pub proof fn lemma_drain_sends_all_in_order<T>(queue: Seq<T>, outcomes: Seq<Outcome>)
    requires
        outcomes.len() == queue.len(),
        forall|k: int| 0 <= k < outcomes.len() ==> #[trigger] outcomes[k].delivered
            || outcomes[k].receiver_alive,
    ensures
        drain(queue, outcomes) == (queue, true),
    decreases queue.len(),
{
    if queue.len() > 0 {
        lemma_one_heartbeat(outcomes[0]);
        assert(outcomes[0].delivered || outcomes[0].receiver_alive);
        let q2 = queue.drop_first();
        let o2 = outcomes.drop_first();
        assert forall|k: int| 0 <= k < o2.len() implies #[trigger] o2[k].delivered
            || o2[k].receiver_alive by {
            assert(o2[k] == outcomes[k + 1]);
        }
        lemma_drain_sends_all_in_order(q2, o2);
        assert(seq![queue[0]] + q2 =~= queue);
    }
}

/// Heartbeat `k` of the queue is sent right after heartbeat `k - 1`, whatever
/// became of that one, as long as the worker did not stop: the heartbeats
/// sent are always a prefix of the queue.
pub proof fn lemma_drain_sends_a_prefix<T>(queue: Seq<T>, outcomes: Seq<Outcome>)
    ensures
        drain(queue, outcomes).0.len() <= queue.len(),
        drain(queue, outcomes).0 =~= queue.take(drain(queue, outcomes).0.len() as int),
    decreases queue.len(),
{
    if queue.len() > 0 && outcomes.len() > 0 {
        lemma_one_heartbeat(outcomes[0]);
        lemma_drain_sends_a_prefix(queue.drop_first(), outcomes.drop_first());
        let rest = drain(queue.drop_first(), outcomes.drop_first()).0;
        assert forall|k: int| 0 <= k < rest.len() implies rest[k] == queue[k + 1] by {
            assert(rest[k] == queue.drop_first().take(rest.len() as int)[k]);
        }
    }
}

} // verus!
