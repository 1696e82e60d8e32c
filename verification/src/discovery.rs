//! The endpoint-discovery state machine.
//!
//! A freshly spawned process gives no structured signal about the address
//! it binds; the only observable side effect is a new endpoint appearing in
//! the host's socket table. Discovery therefore polls the set of bound
//! endpoints that were not present before the spawn, and decides after each
//! poll whether a single endpoint has emerged, whether the user must pick
//! one of several, or whether to keep waiting until a deadline.
//!
//! The scanning, the interactive prompt and the clock are outside work; a
//! driver performs them and feeds each outcome back as a [`DiscoveryEvent`].
//! Every decision is made here, by [`discovery_step`].
use vstd::prelude::*;

use crate::endpoint::Endpoint;
use crate::errors::RunnerError;

verus! {

/// How long discovery may poll before it gives up, in milliseconds.
pub const DISCOVERY_DEADLINE_MS: u64 = 5000;

/// One outcome of the driver's outside work during discovery.
pub enum DiscoveryEvent {
    /// A scan returned these candidates: the currently bound endpoints that
    /// are not in the baseline set.
    Scanned(Vec<Endpoint>),
    /// The user was shown these candidates and picked the index, or aborted.
    Chosen(Vec<Endpoint>, Option<usize>),
    /// The deadline elapsed before any single endpoint was resolved.
    DeadlineReached,
}

/// What the driver must do next.
pub enum DiscoveryAction {
    /// Nothing emerged yet: scan again.
    ContinuePolling,
    /// Several candidates emerged: ask the user to pick one of these.
    PromptUser(Vec<Endpoint>),
    /// Discovery is over: this is the endpoint of the spawned process.
    Resolved(Endpoint),
    /// Discovery failed; the error is the timeout.
    GiveUp(RunnerError),
}

/// The decision rule of discovery: what the next action must be for a
/// given outcome of outside work.
///
/// An empty scan keeps polling; a scan with a single candidate resolves to
/// it without any prompt; a scan with several candidates asks the user. A
/// choice resolves to the chosen candidate; an aborted or out-of-range
/// choice keeps polling, so the ambiguity is re-evaluated on the next scan.
/// The deadline alone makes discovery give up.
pub open spec fn discovery_decision(event: DiscoveryEvent, action: DiscoveryAction) -> bool {
    match event {
        DiscoveryEvent::Scanned(c) => if c@.len() == 0 {
            action is ContinuePolling
        } else if c@.len() == 1 {
            action matches DiscoveryAction::Resolved(e) && e == c@[0]
        } else {
            action matches DiscoveryAction::PromptUser(d) && d == c
        },
        DiscoveryEvent::Chosen(c, choice) => match choice {
            Some(i) => if i < c@.len() {
                action matches DiscoveryAction::Resolved(e) && e == c@[i as int]
            } else {
                action is ContinuePolling
            },
            None => action is ContinuePolling,
        },
        DiscoveryEvent::DeadlineReached => action matches DiscoveryAction::GiveUp(err) && err
            is DiscoveryTimeout,
    }
}

/// Decides the next step of discovery from one outcome of outside work,
/// following [`discovery_decision`] exactly.
pub fn discovery_step(event: DiscoveryEvent) -> (action: DiscoveryAction)
    ensures
        discovery_decision(event, action),
{
    match event {
        DiscoveryEvent::Scanned(mut candidates) => {
            if candidates.len() == 0 {
                DiscoveryAction::ContinuePolling
            } else if candidates.len() == 1 {
                DiscoveryAction::Resolved(candidates.remove(0))
            } else {
                DiscoveryAction::PromptUser(candidates)
            }
        },
        DiscoveryEvent::Chosen(mut candidates, choice) => match choice {
            Some(index) => if index < candidates.len() {
                DiscoveryAction::Resolved(candidates.remove(index))
            } else {
                DiscoveryAction::ContinuePolling
            },
            None => DiscoveryAction::ContinuePolling,
        },
        DiscoveryEvent::DeadlineReached => DiscoveryAction::GiveUp(RunnerError::DiscoveryTimeout),
    }
}

/// Whether the discovery deadline has elapsed, given the milliseconds of
/// wall-clock time since polling began.
pub fn deadline_passed(elapsed_ms: u64) -> (passed: bool)
    ensures
        passed == (elapsed_ms >= DISCOVERY_DEADLINE_MS),
{
    elapsed_ms >= DISCOVERY_DEADLINE_MS
}

/// Builds the baseline set for discovery: the endpoints bound before the
/// spawn together with the endpoints already claimed by other tasks.
pub fn merge_baseline(scanned: Vec<Endpoint>, known: &Vec<Endpoint>) -> (baseline: Vec<Endpoint>)
    ensures
        baseline.deep_view() == scanned.deep_view() + known.deep_view(),
{
    let mut baseline = scanned;
    let ghost pre = baseline.deep_view();
    let mut j: usize = 0;
    proof {
        assert(baseline.deep_view() =~= pre + known.deep_view().take(0));
    }
    while j < known.len()
        invariant
            j <= known.len(),
            baseline.deep_view() == pre + known.deep_view().take(j as int),
        decreases known.len() - j,
    {
        let ghost before = baseline.deep_view();
        baseline.push(known[j].clone());
        proof {
            assert(known[j as int].deep_view() == known.deep_view()[j as int]);
            assert(baseline.deep_view() =~= before + seq![known.deep_view()[j as int]]);
            assert(before + seq![known.deep_view()[j as int]] =~= pre + known.deep_view().take(
                j + 1,
            ));
        }
        j = j + 1;
    }
    proof {
        assert(known.deep_view().take(known.len() as int) =~= known.deep_view());
    }
    baseline
}

} // verus!
