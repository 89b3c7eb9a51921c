//! The per-session debounce state machine.
//!
//! A `WatchSession` tracks one watched root. Change signals, debounce-wait
//! polls and sync completions are fed to it one at a time; each call moves
//! the session through the cycle Idle → Debouncing → Syncing → Idle and
//! tells the caller what to do next. The pure transition is written down
//! as the spec functions `step_state` and `step_action`, and every method
//! is proved to implement exactly that transition.

use vstd::prelude::*;

verus! {

/// Phase of one watch session's debounce cycle.
#[derive(Clone, Copy, PartialEq, Eq, Structural, Debug)]
pub enum Phase {
    /// No pending or in-flight sync.
    Idle,
    /// A debounce wait is counting down the quiet period since the last signal.
    Debouncing,
    /// A sync executor invocation is in progress.
    Syncing,
}

/// One event consumed by the scheduler.
#[derive(Clone, Copy, PartialEq, Eq, Structural, Debug)]
pub enum Event {
    /// Something under the watched root changed at the given time.
    Signal { at: u64 },
    /// The debounce wait woke at the given time and re-checked the deadline.
    Poll { at: u64 },
    /// The sync executor invocation finished, successfully or not.
    Complete,
}

/// What the surrounding program must do after handing an event to the session.
#[derive(Clone, Copy, PartialEq, Eq, Structural, Debug)]
pub enum Action {
    /// Nothing to do.
    Nothing,
    /// Start the debounce wait for this session: poll after the poll interval.
    StartWait,
    /// The quiet period has not elapsed yet: poll again after the poll interval.
    KeepWaiting,
    /// The quiet period has elapsed: invoke the sync executor on the session root.
    InvokeSync,
}

/// Default quiet period: five seconds of signal silence before a sync fires.
pub const DEFAULT_QUIET_PERIOD_MS: u64 = 5000;

/// How often a debounce wait re-checks its deadline.
pub const POLL_INTERVAL_MS: u64 = 1000;

/// One active monitoring session for a watched root.
pub struct WatchSession {
    /// The watched directory; never changed by the scheduler.
    pub root_path: String,
    /// Minimum silence before a sync fires; fixed at construction.
    pub quiet_period_ms: u64,
    /// Time of the most recent change signal; only ever moves forward.
    pub last_activity: u64,
    /// Where the session stands in its debounce cycle.
    pub phase: Phase,
}

/// The larger of two times.
pub open spec fn max_u64(a: u64, b: u64) -> u64 {
    if a >= b {
        a
    } else {
        b
    }
}

/// The quiet period has elapsed at time `at`: at least `quiet_period_ms`
/// has passed since the last signal (equality counts as elapsed).
pub open spec fn quiet_elapsed(s: WatchSession, at: u64) -> bool {
    at >= s.last_activity + s.quiet_period_ms
}

/// The session state after consuming one event.
///
/// A signal moves the last-activity time forward (never back) and arms a
/// debounce wait when the session was idle. A poll fires the cycle's sync
/// when, and only when, the session was debouncing and the quiet period
/// had elapsed. A completion returns a syncing session to idle; nothing
/// else leaves the syncing phase.
pub open spec fn step_state(s: WatchSession, e: Event) -> WatchSession {
    match e {
        Event::Signal { at } => WatchSession {
            last_activity: max_u64(s.last_activity, at),
            phase: if s.phase is Idle {
                Phase::Debouncing
            } else {
                s.phase
            },
            ..s
        },
        Event::Poll { at } => if s.phase is Debouncing && quiet_elapsed(s, at) {
            WatchSession { phase: Phase::Syncing, ..s }
        } else {
            s
        },
        Event::Complete => if s.phase is Syncing {
            WatchSession { phase: Phase::Idle, ..s }
        } else {
            s
        },
    }
}

/// What the scheduler asks of its surroundings on consuming one event.
///
/// `InvokeSync` is emitted exactly when a poll finds the session
/// debouncing with the quiet period elapsed; that is the only way a sync
/// ever starts.
pub open spec fn step_action(s: WatchSession, e: Event) -> Action {
    match e {
        Event::Signal { .. } => if s.phase is Idle {
            Action::StartWait
        } else {
            Action::Nothing
        },
        Event::Poll { at } => if s.phase is Debouncing {
            if quiet_elapsed(s, at) {
                Action::InvokeSync
            } else {
                Action::KeepWaiting
            }
        } else {
            Action::Nothing
        },
        Event::Complete => Action::Nothing,
    }
}

impl WatchSession {
    /// An idle session for `root_path` with `now` as its initial activity time.
    pub fn new(root_path: String, quiet_period_ms: u64, now: u64) -> (s: Self)
        ensures
            s.root_path == root_path,
            s.quiet_period_ms == quiet_period_ms,
            s.last_activity == now,
            s.phase is Idle,
    {
        WatchSession { root_path, quiet_period_ms, last_activity: now, phase: Phase::Idle }
    }

    /// Consume one change signal, observed at time `now`.
    ///
    /// Records the activity and, when the session was idle, claims the
    /// single-flight guard and asks the caller to start the debounce wait.
    pub fn on_signal(&mut self, now: u64) -> (a: Action)
        ensures
            *final(self) == step_state(*old(self), Event::Signal { at: now }),
            a == step_action(*old(self), Event::Signal { at: now }),
    {
        if now > self.last_activity {
            self.last_activity = now;
        }
        match self.phase {
            Phase::Idle => {
                self.phase = Phase::Debouncing;
                Action::StartWait
            },
            _ => Action::Nothing,
        }
    }

    /// Consume one wake-up of the debounce wait, at time `now`.
    ///
    /// Fires the sync exactly when the session is debouncing and `now` is
    /// at least one quiet period past the last activity.
    pub fn on_poll(&mut self, now: u64) -> (a: Action)
        ensures
            *final(self) == step_state(*old(self), Event::Poll { at: now }),
            a == step_action(*old(self), Event::Poll { at: now }),
    {
        match self.phase {
            Phase::Debouncing => {
                if now >= self.last_activity && now - self.last_activity >= self.quiet_period_ms {
                    self.phase = Phase::Syncing;
                    Action::InvokeSync
                } else {
                    Action::KeepWaiting
                }
            },
            _ => Action::Nothing,
        }
    }

    /// Consume the completion of the in-flight sync executor invocation.
    ///
    /// Clears the single-flight guard whatever the outcome was, so a
    /// future signal can arm a new cycle.
    pub fn on_sync_complete(&mut self)
        ensures
            *final(self) == step_state(*old(self), Event::Complete),
    {
        match self.phase {
            Phase::Syncing => {
                self.phase = Phase::Idle;
            },
            _ => {},
        }
    }

    /// The single-flight guard: true from the first signal of a cycle
    /// until the cycle's sync completes.
    pub fn sync_in_flight(&self) -> (b: bool)
        ensures
            b == !(self.phase is Idle),
    {
        match self.phase {
            Phase::Idle => false,
            _ => true,
        }
    }
}

/// Creates watch sessions, all with one configured quiet period.
pub struct SyncManager {
    /// The quiet period every session of this manager is built with.
    pub quiet_period_ms: u64,
}

impl SyncManager {
    /// A manager whose sessions use the default five-second quiet period.
    pub fn new() -> (m: Self)
        ensures
            m.quiet_period_ms == DEFAULT_QUIET_PERIOD_MS,
    {
        SyncManager { quiet_period_ms: DEFAULT_QUIET_PERIOD_MS }
    }

    /// Arm a new idle session for `root_path`, with `now` as its initial
    /// activity time.
    pub fn start_session(&self, root_path: String, now: u64) -> (s: WatchSession)
        ensures
            s.root_path == root_path,
            s.quiet_period_ms == self.quiet_period_ms,
            s.last_activity == now,
            s.phase is Idle,
    {
        WatchSession::new(root_path, self.quiet_period_ms, now)
    }
}

} // verus!
