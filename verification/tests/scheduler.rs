//! Scenario tests for the debounce state machine.

use slynk::scheduler::Action;
use slynk::scheduler::Phase;
use slynk::scheduler::SyncManager;
use slynk::scheduler::WatchSession;
use slynk::scheduler::DEFAULT_QUIET_PERIOD_MS;
use slynk::scheduler::POLL_INTERVAL_MS;

/// Drive a session with polls every poll interval from `from` until one
/// fires or `until` is reached; returns the time of the firing poll.
fn poll_until_fire(s: &mut WatchSession, from: u64, until: u64) -> Option<u64> {
    let mut t = from;
    while t <= until {
        match s.on_poll(t) {
            Action::InvokeSync => return Some(t),
            Action::KeepWaiting | Action::Nothing => {}
            Action::StartWait => panic!("a poll never asks to start the wait"),
        }
        t += POLL_INTERVAL_MS;
    }
    None
}

#[test]
fn manager_uses_default_quiet_period() {
    let m = SyncManager::new();
    assert_eq!(m.quiet_period_ms, DEFAULT_QUIET_PERIOD_MS);
    assert_eq!(m.quiet_period_ms, 5000);
    let s = m.start_session("/data/photos".to_string(), 0);
    assert_eq!(s.root_path, "/data/photos");
    assert_eq!(s.quiet_period_ms, 5000);
    assert_eq!(s.phase, Phase::Idle);
    assert!(!s.sync_in_flight());
}

/// Scenario A: one file write under the watched root; after five quiet
/// seconds exactly one sync fires, for that root.
#[test]
fn one_event_one_sync_after_quiet_period() {
    let m = SyncManager::new();
    let mut s = m.start_session("/data/photos".to_string(), 0);
    assert_eq!(s.on_signal(0), Action::StartWait);
    assert!(s.sync_in_flight());
    let fired = poll_until_fire(&mut s, POLL_INTERVAL_MS, 20_000);
    assert_eq!(fired, Some(5000));
    assert_eq!(s.phase, Phase::Syncing);
    assert_eq!(s.root_path, "/data/photos");
    // No second sync fires while this one is in flight.
    assert_eq!(poll_until_fire(&mut s, 6000, 60_000), None);
}

/// Scenario B: fifty rapid writes over two seconds, then silence; exactly
/// one sync, at least one quiet period after the last write.
#[test]
fn fifty_rapid_events_coalesce_into_one_sync() {
    let m = SyncManager::new();
    let mut s = m.start_session("/data/docs".to_string(), 0);
    let mut fires = 0;
    let mut last_signal = 0;
    for k in 0..50u64 {
        let t = k * 40; // 50 events spread over 2 seconds
        last_signal = t;
        let a = s.on_signal(t);
        if k == 0 {
            assert_eq!(a, Action::StartWait);
        } else {
            assert_eq!(a, Action::Nothing);
        }
        // The debounce wait keeps polling during the burst and never fires.
        assert_ne!(s.on_poll(t + 1), Action::InvokeSync);
    }
    let mut t = POLL_INTERVAL_MS;
    let mut fire_time = 0;
    while t <= 30_000 {
        if s.on_poll(t) == Action::InvokeSync {
            fires += 1;
            fire_time = t;
        }
        t += POLL_INTERVAL_MS;
    }
    assert_eq!(fires, 1);
    assert!(fire_time >= last_signal + 5000);
}

/// Scenario C: a failed sync clears the in-flight guard, so one later
/// event triggers a second, independent attempt.
#[test]
fn failed_sync_rearms_on_next_event() {
    let m = SyncManager::new();
    let mut s = m.start_session("/data/docs".to_string(), 0);
    assert_eq!(s.on_signal(0), Action::StartWait);
    assert_eq!(poll_until_fire(&mut s, 1000, 20_000), Some(5000));
    // The executor reports failure; the guard is cleared regardless.
    s.on_sync_complete();
    assert_eq!(s.phase, Phase::Idle);
    assert_eq!(s.on_signal(10_000), Action::StartWait);
    assert_eq!(poll_until_fire(&mut s, 11_000, 30_000), Some(15_000));
}

/// Quiet-period correctness: signals at t=0s and t=4s with a five-second
/// quiet period; nothing fires before t=9s, and the next poll at or after
/// t=9s fires.
#[test]
fn second_signal_extends_the_deadline() {
    let m = SyncManager::new();
    let mut s = m.start_session("/data/photos".to_string(), 0);
    assert_eq!(s.on_signal(0), Action::StartWait);
    for t in [1000, 2000, 3000] {
        assert_eq!(s.on_poll(t), Action::KeepWaiting);
    }
    assert_eq!(s.on_signal(4000), Action::Nothing);
    let mut t = 5000;
    while t < 9000 {
        assert_eq!(s.on_poll(t), Action::KeepWaiting);
        t += 137; // denser than the real poll interval, still no fire
    }
    assert_eq!(s.on_poll(8999), Action::KeepWaiting);
    assert_eq!(s.on_poll(9000), Action::InvokeSync);
}

/// Single-flight: signals and polls arriving while a sync is in flight
/// start no second sync until the first completes.
#[test]
fn no_second_sync_while_one_is_in_flight() {
    let m = SyncManager::new();
    let mut s = m.start_session("/data/photos".to_string(), 0);
    s.on_signal(0);
    assert_eq!(poll_until_fire(&mut s, 1000, 20_000), Some(5000));
    assert!(s.sync_in_flight());
    // A long burst of activity during the sync: no new invocation.
    for t in (5100..40_000).step_by(100) {
        assert_eq!(s.on_signal(t), Action::Nothing);
        assert_eq!(s.on_poll(t + 50), Action::Nothing);
        assert_eq!(s.phase, Phase::Syncing);
    }
    s.on_sync_complete();
    assert_eq!(s.phase, Phase::Idle);
    // Changes that arrived during the sync do not fire by themselves; the
    // next signal re-arms the cycle.
    assert_eq!(s.on_poll(50_000), Action::Nothing);
    assert_eq!(s.on_signal(51_000), Action::StartWait);
}

/// Monotonic timestamp: the last-activity time never decreases, whatever
/// order the signal times arrive in.
#[test]
fn last_activity_never_decreases() {
    let m = SyncManager::new();
    let mut s = m.start_session("/data/photos".to_string(), 0);
    let mut previous = s.last_activity;
    for t in [5u64, 3, 10, 7, 10, 2, 11] {
        s.on_signal(t);
        assert!(s.last_activity >= previous);
        previous = s.last_activity;
    }
    assert_eq!(s.last_activity, 11);
}

/// Session independence: two sessions on disjoint roots can both have a
/// sync in flight at the same time, and complete independently.
#[test]
fn disjoint_sessions_sync_concurrently() {
    let m = SyncManager::new();
    let mut a = m.start_session("/data/photos".to_string(), 0);
    let mut b = m.start_session("/data/docs".to_string(), 0);
    a.on_signal(0);
    b.on_signal(2000);
    assert_eq!(poll_until_fire(&mut a, 1000, 20_000), Some(5000));
    assert_eq!(poll_until_fire(&mut b, 5500, 20_000), Some(7500));
    // Both syncs are in flight during the same wall-clock interval.
    assert_eq!(a.phase, Phase::Syncing);
    assert_eq!(b.phase, Phase::Syncing);
    a.on_sync_complete();
    assert_eq!(a.phase, Phase::Idle);
    assert_eq!(b.phase, Phase::Syncing);
    b.on_sync_complete();
    assert_eq!(b.phase, Phase::Idle);
}

/// A poll exactly at the deadline fires: the elapsed check is inclusive.
#[test]
fn deadline_check_is_inclusive() {
    let mut s = WatchSession::new("/r".to_string(), 5000, 0);
    s.on_signal(100);
    assert_eq!(s.on_poll(5099), Action::KeepWaiting);
    assert_eq!(s.on_poll(5100), Action::InvokeSync);
}

/// A signal with a clock reading older than the recorded activity does not
/// move the activity time backward.
#[test]
fn stale_clock_reading_is_ignored() {
    let mut s = WatchSession::new("/r".to_string(), 5000, 1000);
    s.on_signal(400);
    assert_eq!(s.last_activity, 1000);
}
