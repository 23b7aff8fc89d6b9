use vstd::prelude::*;
use vstd::string::StringExecFns;

use crate::activity::{Activity, ActivityModel};

verus! {

/// Signals that come no more than this many nanoseconds after the last
/// heartbeat are dropped without looking at the editor.
pub const DEBOUNCE_NANOS: u64 = 1_000_000_000;

/// The state shared by the editor callbacks: whether the tracking service is
/// reachable, when the last heartbeat left (nanoseconds on a monotonic clock;
/// `None` before the first one) and what it reported.
#[derive(Debug)]
pub struct ConnectionState {
    pub connected: bool,
    pub last_heartbeat: Option<u64>,
    pub last: Activity,
}

/// The mathematical value of a [`ConnectionState`].
pub struct StateModel {
    pub connected: bool,
    pub last_heartbeat: Option<u64>,
    pub last: ActivityModel,
}

impl View for ConnectionState {
    type V = StateModel;

    open spec fn view(&self) -> StateModel {
        StateModel {
            connected: self.connected,
            last_heartbeat: self.last_heartbeat,
            last: self.last@,
        }
    }
}

/// Time from `since` to `now`, zero where the clock reads earlier than `since`.
pub open spec fn elapsed(since: u64, now: u64) -> nat {
    if now >= since {
        (now - since) as nat
    } else {
        0
    }
}

/// The cheap first check on a signal: connected, and the last heartbeat is
/// more than a debounce window old.
pub open spec fn passes_gate(s: StateModel, now: u64) -> bool {
    s.connected && match s.last_heartbeat {
        None => true,
        Some(t) => elapsed(t, now) > DEBOUNCE_NANOS,
    }
}

/// The state once the service is taken to be unreachable.
pub open spec fn disconnected(s: StateModel) -> StateModel {
    StateModel { connected: false, last_heartbeat: s.last_heartbeat, last: s.last }
}

/// The debounce filter on one signal: the state after it, and whether a
/// heartbeat is sent.
pub open spec fn filter(s: StateModel, now: u64, a: ActivityModel) -> (StateModel, bool) {
    if passes_gate(s, now) && a != s.last {
        (StateModel { connected: s.connected, last_heartbeat: Some(now), last: a }, true)
    } else {
        (s, false)
    }
}

impl ConnectionState {
    /// The state at start-up: not connected, no heartbeat sent, empty activity.
    pub fn new() -> (r: ConnectionState)
        ensures
            !r.connected,
            r.last_heartbeat is None,
            r.last@.file.len() == 0,
            r.last@.project.len() == 0,
            r.last@.language.len() == 0,
    {
        ConnectionState {
            connected: false,
            last_heartbeat: None,
            last: Activity::new(String::new(), String::new(), String::new()),
        }
    }

    /// Whether a signal at `now` is worth resolving the current activity for.
    pub fn passes_gate(&self, now: u64) -> (r: bool)
        ensures
            r == passes_gate(self@, now),
    {
        if !self.connected {
            return false;
        }
        match self.last_heartbeat {
            None => true,
            Some(t) => {
                let gap: u64 = if now >= t {
                    now - t
                } else {
                    0
                };
                gap > DEBOUNCE_NANOS
            },
        }
    }

    /// Runs the debounce filter on a signal at `now` whose current activity is
    /// `activity`. Where a heartbeat is due, the state records it and the
    /// activity to report is returned.
    pub fn on_signal(&mut self, now: u64, activity: Activity) -> (r: Option<Activity>)
        ensures
            final(self)@ == filter(old(self)@, now, activity@).0,
            r is Some <==> filter(old(self)@, now, activity@).1,
            r matches Some(a) ==> a@ == activity@,
    {
        if !self.passes_gate(now) {
            return None;
        }
        if activity.same_as(&self.last) {
            return None;
        }
        self.last_heartbeat = Some(now);
        self.last = activity.duplicate();
        Some(activity)
    }

    /// The outcome of making sure the bucket exists: connected exactly when
    /// that succeeded.
    pub fn apply_start(&mut self, bucket_ready: bool)
        ensures
            final(self).connected == bucket_ready,
            final(self).last_heartbeat == old(self).last_heartbeat,
            final(self).last == old(self).last,
    {
        self.connected = bucket_ready;
    }

    /// Marks the service as unreachable; queued heartbeats are left alone.
    pub fn stop(&mut self)
        ensures
            final(self)@ == disconnected(old(self)@),
            final(self).last == old(self).last,
    {
        self.connected = false;
    }

    /// Takes in one delivery fault that the worker reported.
    pub fn on_delivery_fault(&mut self)
        ensures
            final(self)@ == disconnected(old(self)@),
            final(self).last == old(self).last,
    {
        self.connected = false;
    }

    /// Whether the tracking service is taken to be reachable.
    pub fn status(&self) -> (r: bool)
        ensures
            r == self.connected,
    {
        self.connected
    }

    /// The line that reports the status to the user.
    pub fn status_line(&self) -> (r: String)
        ensures
            r@ == status_line_of(self.connected),
    {
        let head = String::from_str("aw-watcher-nvim running: ");
        if self.connected {
            head.concat("true")
        } else {
            head.concat("false")
        }
    }
}

/// The status report for a connection flag.
pub open spec fn status_line_of(connected: bool) -> Seq<char> {
    "aw-watcher-nvim running: "@ + if connected {
        "true"@
    } else {
        "false"@
    }
}

} // verus!
