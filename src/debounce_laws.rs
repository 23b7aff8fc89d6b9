use vstd::prelude::*;

use crate::activity::ActivityModel;
use crate::state::{disconnected, elapsed, filter, passes_gate, StateModel, DEBOUNCE_NANOS};

verus! {

/// The debounce filter run over signals in order: the final state and how
/// many heartbeats were sent.
pub open spec fn run_signals(s: StateModel, signals: Seq<(u64, ActivityModel)>) -> (
    StateModel,
    nat,
)
    decreases signals.len(),
{
    if signals.len() == 0 {
        (s, 0)
    } else {
        let (next, sent) = filter(s, signals[0].0, signals[0].1);
        let (last, n) = run_signals(next, signals.drop_first());
        (last, n + if sent {
            1nat
        } else {
            0nat
        })
    }
}

/// While the service is taken to be unreachable, no signal sends a
/// heartbeat, and the state does not change.
pub proof fn lemma_disconnected_sends_nothing(s: StateModel, signals: Seq<(u64, ActivityModel)>)
    requires
        !s.connected,
    ensures
        run_signals(s, signals).1 == 0,
        run_signals(s, signals).0 == s,
    decreases signals.len(),
{
    if signals.len() > 0 {
        lemma_disconnected_sends_nothing(s, signals.drop_first());
    }
}

/// Once the editor thread has taken in a delivery fault, or the user has
/// stopped the watcher, the state says disconnected and no later signal
/// sends a heartbeat until the watcher is started again.
pub proof fn lemma_fault_disconnects(s: StateModel, signals: Seq<(u64, ActivityModel)>)
    ensures
        !disconnected(s).connected,
        run_signals(disconnected(s), signals).1 == 0,
{
    lemma_disconnected_sends_nothing(disconnected(s), signals);
}

/// After a heartbeat, no signal within the debounce window sends another,
/// whatever its activity; so of two signals that close together at most one
/// sends.
pub proof fn lemma_window_suppresses(
    s: StateModel,
    t1: u64,
    t2: u64,
    a1: ActivityModel,
    a2: ActivityModel,
)
    requires
        elapsed(t1, t2) <= DEBOUNCE_NANOS,
    ensures
        filter(s, t1, a1).1 ==> !filter(filter(s, t1, a1).0, t2, a2).1,
        run_signals(s, seq![(t1, a1), (t2, a2)]).1 <= 1,
{
    let two = seq![(t1, a1), (t2, a2)];
    assert(two.drop_first() =~= seq![(t2, a2)]);
    assert(two.drop_first().drop_first() =~= Seq::<(u64, ActivityModel)>::empty());
    reveal_with_fuel(run_signals, 3);
}

/// A signal that reports the activity already recorded sends nothing and
/// leaves the state as it is, however long ago the last heartbeat was.
pub proof fn lemma_unchanged_activity_sends_nothing(s: StateModel, now: u64)
    ensures
        !filter(s, now, s.last).1,
        filter(s, now, s.last).0 == s,
{
}

/// Two signals with the same activity send at most one heartbeat between
/// them, at any times; once one has sent, the repeat does not.
pub proof fn lemma_repeat_sends_at_most_once(s: StateModel, t1: u64, t2: u64, a: ActivityModel)
    ensures
        filter(s, t1, a).1 ==> !filter(filter(s, t1, a).0, t2, a).1,
        run_signals(s, seq![(t1, a), (t2, a)]).1 <= 1,
{
    let two = seq![(t1, a), (t2, a)];
    assert(two.drop_first() =~= seq![(t2, a)]);
    assert(two.drop_first().drop_first() =~= Seq::<(u64, ActivityModel)>::empty());
    reveal_with_fuel(run_signals, 3);
}

/// A signal past the debounce window, while connected, whose activity
/// differs from the recorded one sends exactly one heartbeat, and the state
/// records its time and activity together.
pub proof fn lemma_changed_activity_sends_once(s: StateModel, now: u64, a: ActivityModel)
    requires
        passes_gate(s, now),
        a != s.last,
    ensures
        filter(s, now, a).1,
        run_signals(s, seq![(now, a)]).1 == 1,
        filter(s, now, a).0 == (StateModel {
            connected: s.connected,
            last_heartbeat: Some(now),
            last: a,
        }),
{
    assert(seq![(now, a)].drop_first() =~= Seq::<(u64, ActivityModel)>::empty());
    reveal_with_fuel(run_signals, 2);
}

} // verus!
