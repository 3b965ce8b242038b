//! What holds of every run of the cache.
//!
//! A run is any sequence of steps, taken by any number of callers for any
//! hosts in any order: an interleaving of concurrent calls is one such
//! sequence, because the resolver is only ever touched one step at a time.

use crate::entry::IpAddress;
use crate::model::{ActionView, EventView, ResolverState};
use std::sync::Arc;
use tokio::sync::Notify;
use vstd::prelude::*;

verus! {

/// One step of some caller: what `resolve_host` is given, and the signal
/// under which a new cycle is registered if the step starts one.
pub struct Step {
    pub hostname: Seq<char>,
    pub event: EventView,
    pub signal: Arc<Notify>,
}

impl ResolverState {
    /// The state after `step`.
    pub open spec fn after(self, step: Step) -> ResolverState {
        self.step(step.hostname, step.event, step.signal).0
    }

    /// The action that `step` is answered with.
    pub open spec fn answer(self, step: Step) -> ActionView {
        self.step(step.hostname, step.event, step.signal).1
    }

    /// The state after all of `steps`, taken in order.
    pub open spec fn run(self, steps: Seq<Step>) -> ResolverState
        decreases steps.len(),
    {
        if steps.len() == 0 {
            self
        } else {
            self.run(steps.drop_last()).after(steps.last())
        }
    }

    /// Whether `step` starts a resolution of `hostname`: its caller is told
    /// to run one.
    pub open spec fn starts(self, step: Step, hostname: Seq<char>) -> bool {
        step.hostname == hostname && self.answer(step) is Resolve
    }

    /// Whether `step` ends the running resolution of `hostname`.
    pub open spec fn ends(self, step: Step, hostname: Seq<char>) -> bool {
        step.hostname == hostname && step.event is Resolved && self.in_flight(hostname)
    }

    /// How many resolutions of `hostname` are started in the course of `steps`.
    pub open spec fn started(self, steps: Seq<Step>, hostname: Seq<char>) -> nat
        decreases steps.len(),
    {
        if steps.len() == 0 {
            0
        } else {
            let before = steps.drop_last();
            self.started(before, hostname) + if self.run(before).starts(steps.last(), hostname) {
                1nat
            } else {
                0nat
            }
        }
    }

    /// How many resolutions of `hostname` are ended in the course of `steps`.
    pub open spec fn ended(self, steps: Seq<Step>, hostname: Seq<char>) -> nat
        decreases steps.len(),
    {
        if steps.len() == 0 {
            0
        } else {
            let before = steps.drop_last();
            self.ended(before, hostname) + if self.run(before).ends(steps.last(), hostname) {
                1nat
            } else {
                0nat
            }
        }
    }

    /// How many resolutions of `hostname` are running: one or none.
    pub open spec fn running(self, hostname: Seq<char>) -> nat {
        if self.in_flight(hostname) {
            1
        } else {
            0
        }
    }
}

/// How many of `steps` are taken for `hostname`.
pub open spec fn steps_for(steps: Seq<Step>, hostname: Seq<char>) -> nat
    decreases steps.len(),
{
    if steps.len() == 0 {
        0
    } else {
        steps_for(steps.drop_last(), hostname) + if steps.last().hostname == hostname {
            1nat
        } else {
            0nat
        }
    }
}

/// Whether every step that `steps` holds for `hostname` is the arrival of a
/// caller.
pub open spec fn only_calls(steps: Seq<Step>, hostname: Seq<char>) -> bool {
    forall|i: int|
        0 <= i < steps.len() && (#[trigger] steps[i]).hostname == hostname
            ==> steps[i].event is Called
}

/// A lookup hits exactly when an entry is stored for the host and the time
/// lies in its window, from the commit on and before the window has passed;
/// what it hands out is then the stored entry.
pub proof fn lemma_hit_iff_in_window(state: ResolverState, hostname: Seq<char>, now: nat)
    ensures
        state.lookup(hostname, now) is Some <==> {
            &&& state.resolved.contains_key(hostname)
            &&& state.resolved[hostname].initial_query <= now
            &&& now < state.resolved[hostname].initial_query
                + state.resolved[hostname].dns_refresh_rate
        },
        state.lookup(hostname, now) is Some ==> state.lookup(hostname, now)
            == Some(state.resolved[hostname]),
{
}

/// A step keeps every entry under its own host and with the window of the
/// resolver.
pub proof fn lemma_step_consistent(state: ResolverState, step: Step)
    requires
        state.consistent(),
    ensures
        state.after(step).consistent(),
        state.after(step).dns_refresh_rate == state.dns_refresh_rate,
{
}

/// So does every run; a resolver that starts empty is consistent for good.
pub proof fn lemma_run_consistent(state: ResolverState, steps: Seq<Step>)
    requires
        state.consistent(),
    ensures
        state.run(steps).consistent(),
        state.run(steps).dns_refresh_rate == state.dns_refresh_rate,
    decreases steps.len(),
{
    if steps.len() > 0 {
        lemma_run_consistent(state, steps.drop_last());
        lemma_step_consistent(state.run(steps.drop_last()), steps.last());
    }
}

/// In a consistent state a lookup hands out an entry of the host that was
/// asked for, with the window of the resolver.
pub proof fn lemma_found_is_for_host(state: ResolverState, hostname: Seq<char>, now: nat)
    requires
        state.consistent(),
    ensures
        state.lookup(hostname, now) matches Some(entry) ==> {
            &&& entry.hostname == hostname
            &&& entry.dns_refresh_rate == state.dns_refresh_rate
        },
{
}

/// A step for one host leaves every other host alone: its entry, whether a
/// resolution of it is running, and the signal of that resolution.
pub proof fn lemma_other_hosts_untouched(state: ResolverState, step: Step, hostname: Seq<char>)
    requires
        step.hostname != hostname,
    ensures
        state.after(step).in_flight(hostname) == state.in_flight(hostname),
        state.after(step).in_progress[hostname] == state.in_progress[hostname],
        state.after(step).resolved.contains_key(hostname) == state.resolved.contains_key(
            hostname,
        ),
        state.after(step).resolved[hostname] == state.resolved[hostname],
        forall|now: nat| #[trigger]
            state.after(step).lookup(hostname, now) == state.lookup(hostname, now),
{
}

/// At most one resolution of a host runs at any time, whatever the callers
/// do: over any run, the resolutions started are those ended and the one that
/// is running at the end, less the one that was running at the start.
pub proof fn lemma_one_resolution_at_a_time(
    state: ResolverState,
    steps: Seq<Step>,
    hostname: Seq<char>,
)
    ensures
        state.running(hostname) + state.started(steps, hostname) == state.ended(steps, hostname)
            + state.run(steps).running(hostname),
        state.run(steps).running(hostname) <= 1,
    decreases steps.len(),
{
    if steps.len() > 0 {
        lemma_one_resolution_at_a_time(state, steps.drop_last(), hostname);
    }
}

/// What holds of all the steps holds of all but the last.
proof fn lemma_only_calls_before(steps: Seq<Step>, hostname: Seq<char>)
    requires
        steps.len() > 0,
        only_calls(steps, hostname),
    ensures
        only_calls(steps.drop_last(), hostname),
        steps.last().hostname == hostname ==> steps.last().event is Called,
{
    let before = steps.drop_last();
    assert forall|i: int|
        0 <= i < before.len() && (#[trigger] before[i]).hostname == hostname implies before[i].event is Called by {
        assert(before[i] == steps[i]);
    }
    assert(steps.last() == steps[steps.len() - 1]);
}

/// Any number of callers that arrive for a host while no resolution of it
/// has ended share one resolution. If none was running before, exactly one is
/// started, by the first of them, and it is still running after the last;
/// steps for other hosts may fall in between.
pub proof fn lemma_single_flight(state: ResolverState, steps: Seq<Step>, hostname: Seq<char>)
    requires
        !state.in_flight(hostname),
        only_calls(steps, hostname),
    ensures
        state.ended(steps, hostname) == 0,
        steps_for(steps, hostname) == 0 ==> state.started(steps, hostname) == 0
            && !state.run(steps).in_flight(hostname),
        steps_for(steps, hostname) >= 1 ==> state.started(steps, hostname) == 1 && state.run(
            steps,
        ).in_flight(hostname),
    decreases steps.len(),
{
    if steps.len() > 0 {
        let before = steps.drop_last();
        lemma_only_calls_before(steps, hostname);
        lemma_single_flight(state, before, hostname);
    }
}

/// Every caller of such a group is handed the same signal: the one under
/// which the resolution stays registered. One firing of it reaches them all.
pub proof fn lemma_callers_share_signal(
    state: ResolverState,
    steps: Seq<Step>,
    hostname: Seq<char>,
    i: int,
)
    requires
        !state.in_flight(hostname),
        only_calls(steps, hostname),
        0 <= i < steps.len(),
        steps[i].hostname == hostname,
    ensures
        state.run(steps).in_flight(hostname),
        state.run(steps.take(i)).answer(steps[i]).signal() == state.run(steps).in_progress[hostname],
        state.run(steps.take(i)).answer(steps[i]) is Resolve <==> steps_for(steps.take(i), hostname)
            == 0,
        state.run(steps.take(i)).answer(steps[i]) is Wait <==> steps_for(steps.take(i), hostname)
            >= 1,
    decreases steps.len(),
{
    let before = steps.drop_last();
    lemma_only_calls_before(steps, hostname);
    lemma_single_flight(state, before, hostname);
    if i == steps.len() - 1 {
        assert(steps.take(i) =~= before);
    } else {
        lemma_callers_share_signal(state, before, hostname, i);
        assert(steps.take(i) =~= before.take(i));
        assert(before[i] == steps[i]);
        if steps.last().hostname != hostname {
            lemma_other_hosts_untouched(state.run(before), steps.last(), hostname);
        }
    }
}

/// When the resolution succeeds, every caller is served the same entry: the
/// one that was committed. The first caller is answered at `now`; a waiter is
/// answered at a time of its own, and gets the entry if that time is in
/// the window and no other resolution of the host has ended since.
pub proof fn lemma_callers_same_entry(
    state: ResolverState,
    hostname: Seq<char>,
    ips: Seq<IpAddress>,
    now: nat,
    signal: Arc<Notify>,
    later: nat,
)
    requires
        state.in_flight(hostname),
        state.dns_refresh_rate > 0,
        now <= later < now + state.dns_refresh_rate,
    ensures
        ({
            let event = EventView::Resolved { ips: Some(ips), now };
            let entry = Some(state.entry_for(hostname, ips, now));
            let next = state.step(hostname, event, signal).0;
            &&& state.step(hostname, event, signal).1 == ActionView::Return { found: entry }
            &&& next.step(hostname, EventView::Notified { now: later }, signal) == (
                next,
                ActionView::Return { found: entry },
            )
            &&& !next.in_flight(hostname)
        }),
{
}

/// When the resolution fails, nothing is committed and the host leaves the
/// registry all the same: no caller is left with a resolution that will never
/// end, each is answered with what the store had before, and the next caller
/// starts a resolution of its own.
pub proof fn lemma_failure_releases(
    state: ResolverState,
    hostname: Seq<char>,
    now: nat,
    signal: Arc<Notify>,
    later: nat,
)
    requires
        state.in_flight(hostname),
    ensures
        ({
            let event = EventView::Resolved { ips: None, now };
            let next = state.step(hostname, event, signal).0;
            &&& next == state.release(hostname)
            &&& next.resolved == state.resolved
            &&& !next.in_flight(hostname)
            &&& state.step(hostname, event, signal).1 == ActionView::Return {
                found: state.lookup(hostname, now),
            }
            &&& next.step(hostname, EventView::Notified { now: later }, signal).1
                == ActionView::Return { found: state.lookup(hostname, later) }
            &&& next.step(hostname, EventView::Called, signal).1 == ActionView::Resolve { signal }
        }),
{
}

/// Whatever has happened before, once no resolution of a host is running the
/// next caller for it starts one, and exactly one is started however many
/// callers follow before it ends. That holds in particular when the entry of
/// the host has gone stale, and it does not depend on how many resolutions
/// of the host there were.
pub proof fn lemma_re_resolution(
    state: ResolverState,
    history: Seq<Step>,
    calls: Seq<Step>,
    hostname: Seq<char>,
    signal: Arc<Notify>,
)
    requires
        !state.run(history).in_flight(hostname),
        only_calls(calls, hostname),
        steps_for(calls, hostname) >= 1,
    ensures
        state.run(history).step(hostname, EventView::Called, signal).1 == (ActionView::Resolve {
            signal,
        }),
        state.run(history).started(calls, hostname) == 1,
        state.run(history).ended(calls, hostname) == 0,
        state.run(history).run(calls).in_flight(hostname),
{
    lemma_single_flight(state.run(history), calls, hostname);
}

} // verus!
