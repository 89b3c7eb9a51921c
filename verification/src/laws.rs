//! Laws of the debounce scheduler, stated over whole event sequences.
//!
//! `run_state` folds the single-step transition of the scheduler over a
//! sequence of events, and `sync_count` counts how many sync executor
//! invocations that sequence starts. The proof functions here pin down the
//! scheduler's guarantees: bursts coalesce into exactly one sync, no two
//! syncs of one session overlap, nothing fires before the quiet period has
//! elapsed, and the activity clock never runs backward.

use vstd::prelude::*;

use crate::scheduler::Event;
use crate::scheduler::WatchSession;
use crate::scheduler::quiet_elapsed;
use crate::scheduler::step_action;
use crate::scheduler::step_state;

verus! {

/// The time an event carries: when a signal or poll happened. A completion
/// carries none.
pub open spec fn event_time(e: Event) -> u64 {
    match e {
        Event::Signal { at } => at,
        Event::Poll { at } => at,
        Event::Complete => 0,
    }
}

/// The session state after consuming a sequence of events in order.
pub open spec fn run_state(s: WatchSession, es: Seq<Event>) -> WatchSession
    decreases es.len(),
{
    if es.len() == 0 {
        s
    } else {
        run_state(step_state(s, es[0]), es.drop_first())
    }
}

/// How many sync executor invocations a sequence of events starts.
pub open spec fn sync_count(s: WatchSession, es: Seq<Event>) -> nat
    decreases es.len(),
{
    if es.len() == 0 {
        0
    } else {
        (if step_action(s, es[0]) is InvokeSync {
            1nat
        } else {
            0nat
        }) + sync_count(step_state(s, es[0]), es.drop_first())
    }
}

/// No event of the sequence is a sync completion.
pub open spec fn no_completions(es: Seq<Event>) -> bool {
    forall|i: int| 0 <= i < es.len() ==> !(#[trigger] es[i] is Complete)
}

/// Every event of the sequence is a change signal.
pub open spec fn all_signals(es: Seq<Event>) -> bool {
    forall|i: int| 0 <= i < es.len() ==> #[trigger] es[i] is Signal
}

/// Every event of the sequence is a debounce-wait poll.
pub open spec fn all_polls(es: Seq<Event>) -> bool {
    forall|i: int| 0 <= i < es.len() ==> #[trigger] es[i] is Poll
}

/// Running a concatenation of two event sequences is running the first and
/// then the second, and their sync counts add up.
pub proof fn lemma_run_append(s: WatchSession, a: Seq<Event>, b: Seq<Event>)
    ensures
        run_state(s, a + b) == run_state(run_state(s, a), b),
        sync_count(s, a + b) == sync_count(s, a) + sync_count(run_state(s, a), b),
    decreases a.len(),
{
    if a.len() == 0 {
        assert(a + b =~= b);
    } else {
        assert((a + b).drop_first() =~= a.drop_first() + b);
        lemma_run_append(step_state(s, a[0]), a.drop_first(), b);
    }
}

/// Law (monotonic timestamp): the last-activity time never decreases
/// across any sequence of events.
pub proof fn lemma_last_activity_monotonic(s: WatchSession, es: Seq<Event>)
    ensures
        run_state(s, es).last_activity >= s.last_activity,
    decreases es.len(),
{
    if es.len() > 0 {
        lemma_last_activity_monotonic(step_state(s, es[0]), es.drop_first());
    }
}

/// Law: a session's root path and quiet period are fixed for its lifetime;
/// no event changes them.
pub proof fn lemma_session_config_fixed(s: WatchSession, es: Seq<Event>)
    ensures
        run_state(s, es).root_path == s.root_path,
        run_state(s, es).quiet_period_ms == s.quiet_period_ms,
    decreases es.len(),
{
    if es.len() > 0 {
        lemma_session_config_fixed(step_state(s, es[0]), es.drop_first());
    }
}

/// Law (single-flight, one step): while a sync is in flight no event starts
/// a second one; a sync only ever starts out of the debouncing phase; and
/// only the completion of the in-flight sync ends the syncing phase.
pub proof fn lemma_single_flight_step(s: WatchSession, e: Event)
    ensures
        s.phase is Syncing ==> !(step_action(s, e) is InvokeSync),
        step_action(s, e) is InvokeSync ==> s.phase is Debouncing && step_state(s, e).phase is Syncing,
        s.phase is Syncing && !(e is Complete) ==> step_state(s, e).phase is Syncing,
{
}

/// Law (single-flight): for every interleaving of signals and polls that
/// arrives while a sync is in flight, no second sync executor invocation
/// starts until the first completes.
pub proof fn lemma_single_flight(s: WatchSession, es: Seq<Event>)
    requires
        s.phase is Syncing,
        no_completions(es),
    ensures
        sync_count(s, es) == 0,
        run_state(s, es).phase is Syncing,
    decreases es.len(),
{
    if es.len() > 0 {
        lemma_single_flight(step_state(s, es[0]), es.drop_first());
    }
}

/// Law (coalescing, upper bound): from a session with no sync in progress,
/// any interleaving of signals and polls starts at most one sync.
pub proof fn lemma_coalesce_at_most_one(s: WatchSession, es: Seq<Event>)
    requires
        !(s.phase is Syncing),
        no_completions(es),
    ensures
        sync_count(s, es) <= 1,
    decreases es.len(),
{
    if es.len() > 0 {
        let s1 = step_state(s, es[0]);
        if step_action(s, es[0]) is InvokeSync {
            lemma_single_flight(s1, es.drop_first());
        } else {
            lemma_coalesce_at_most_one(s1, es.drop_first());
        }
    }
}

/// Change signals alone never start a sync, and one or more of them leave
/// a session that was idle or debouncing in the debouncing phase.
pub proof fn lemma_signals_no_sync(s: WatchSession, es: Seq<Event>)
    requires
        !(s.phase is Syncing),
        all_signals(es),
    ensures
        sync_count(s, es) == 0,
        s.phase is Debouncing || es.len() >= 1 ==> run_state(s, es).phase is Debouncing,
        es.len() == 0 ==> run_state(s, es) == s,
    decreases es.len(),
{
    if es.len() > 0 {
        lemma_signals_no_sync(step_state(s, es[0]), es.drop_first());
    }
}

/// Law (quiet period): polls that all fall strictly before one quiet
/// period past the session's last activity start no sync and leave the
/// session unchanged.
pub proof fn lemma_quiet_period_respected(s: WatchSession, es: Seq<Event>)
    requires
        all_polls(es),
        forall|i: int| 0 <= i < es.len() ==> !quiet_elapsed(s, event_time(#[trigger] es[i])),
    ensures
        sync_count(s, es) == 0,
        run_state(s, es) == s,
    decreases es.len(),
{
    if es.len() > 0 {
        assert(step_state(s, es[0]) == s);
        lemma_quiet_period_respected(s, es.drop_first());
    }
}

/// From a debouncing session, debounce polls of which at least one falls at
/// or past the quiet-period deadline start exactly one sync.
pub proof fn lemma_polls_fire_once(s: WatchSession, es: Seq<Event>)
    requires
        s.phase is Debouncing,
        all_polls(es),
        exists|i: int| 0 <= i < es.len() && quiet_elapsed(s, event_time(#[trigger] es[i])),
    ensures
        sync_count(s, es) == 1,
    decreases es.len(),
{
    let w = choose|i: int| 0 <= i < es.len() && quiet_elapsed(s, event_time(#[trigger] es[i]));
    let s1 = step_state(s, es[0]);
    if quiet_elapsed(s, event_time(es[0])) {
        assert(step_action(s, es[0]) is InvokeSync);
        lemma_single_flight(s1, es.drop_first());
    } else {
        assert(s1 == s);
        assert(w >= 1);
        let rest = es.drop_first();
        assert(0 <= w - 1 < rest.len() && quiet_elapsed(s, event_time(rest[w - 1])));
        lemma_polls_fire_once(s, rest);
    }
}

/// From a debouncing session, a sequence of signals and polls that holds a
/// poll at or past one quiet period after the whole sequence's last
/// activity starts at least one sync.
pub proof fn lemma_fires_at_least_once(s: WatchSession, es: Seq<Event>)
    requires
        s.phase is Debouncing,
        no_completions(es),
        exists|k: int|
            0 <= k < es.len() && #[trigger] es[k] is Poll && event_time(es[k])
                >= run_state(s, es).last_activity + s.quiet_period_ms,
    ensures
        sync_count(s, es) >= 1,
    decreases es.len(),
{
    let k = choose|k: int|
        0 <= k < es.len() && #[trigger] es[k] is Poll && event_time(es[k]) >= run_state(
            s,
            es,
        ).last_activity + s.quiet_period_ms;
    let s1 = step_state(s, es[0]);
    let rest = es.drop_first();
    if step_action(s, es[0]) is InvokeSync {
        // the count is already one or more
    } else {
        if es[0] is Poll {
            // A non-firing poll leaves the session unchanged; it cannot be
            // the witness, for the last activity only grows along the run.
            lemma_last_activity_monotonic(s, es);
            assert(k >= 1);
        }
        assert(k >= 1);
        assert(0 <= k - 1 < rest.len() && rest[k - 1] is Poll && event_time(rest[k - 1])
            >= run_state(s1, rest).last_activity + s1.quiet_period_ms);
        lemma_fires_at_least_once(s1, rest);
    }
}

/// Law (coalescing, interleaved): a burst that begins with a change signal,
/// with debounce polls freely interleaved, starts the sync executor exactly
/// once — provided some poll falls at or past one quiet period after the
/// burst's last activity, so the cycle gets its chance to fire.
pub proof fn lemma_coalesce_interleaved(s: WatchSession, es: Seq<Event>)
    requires
        s.phase is Idle,
        no_completions(es),
        es.len() >= 1,
        es[0] is Signal,
        exists|k: int|
            0 <= k < es.len() && #[trigger] es[k] is Poll && event_time(es[k])
                >= run_state(s, es).last_activity + s.quiet_period_ms,
    ensures
        sync_count(s, es) == 1,
{
    let k = choose|k: int|
        0 <= k < es.len() && #[trigger] es[k] is Poll && event_time(es[k]) >= run_state(
            s,
            es,
        ).last_activity + s.quiet_period_ms;
    let s1 = step_state(s, es[0]);
    let rest = es.drop_first();
    assert(k >= 1);
    assert(0 <= k - 1 < rest.len() && rest[k - 1] is Poll && event_time(rest[k - 1]) >= run_state(
        s1,
        rest,
    ).last_activity + s1.quiet_period_ms);
    lemma_fires_at_least_once(s1, rest);
    lemma_coalesce_at_most_one(s, es);
}

/// Law (coalescing): one or more change signals delivered within one quiet
/// period, followed by debounce polls of which at least one falls at or
/// past the quiet-period deadline, start the sync executor exactly once.
pub proof fn lemma_coalesce_exactly_one(s: WatchSession, sigs: Seq<Event>, polls: Seq<Event>)
    requires
        s.phase is Idle,
        all_signals(sigs),
        sigs.len() >= 1,
        all_polls(polls),
        exists|i: int|
            0 <= i < polls.len() && quiet_elapsed(
                run_state(s, sigs),
                event_time(#[trigger] polls[i]),
            ),
    ensures
        sync_count(s, sigs + polls) == 1,
{
    lemma_run_append(s, sigs, polls);
    lemma_signals_no_sync(s, sigs);
    lemma_polls_fire_once(run_state(s, sigs), polls);
}

} // verus!
