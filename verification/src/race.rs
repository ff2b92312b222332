//! The timed race coordinator.
//!
//! One run races an asynchronous fetch against a fixed-duration timer and
//! yields exactly one [`RaceOutcome`]. Which branch finished first — and with
//! what — arrives here as a [`RaceEvent`]; [`settle_race`] then settles the
//! outcome and the deferred bookkeeping: every branch increments the
//! completed-request counter except the timeout branch, which cancels the
//! guard before failing.

use vstd::prelude::*;

use crate::guard::defer;
use crate::guard::triggered_count;
use crate::guard::Metrics;

verus! {

/// The fixed duration of the timer the fetch races against, in milliseconds.
pub const TIMEOUT_MILLIS: u64 = 2500;

/// What the fetch collaborator produced: a text payload, or a failure
/// classified as transport-level or decode-level, carrying the underlying
/// error's description.
pub enum FetchResult {
    Payload(String),
    TransportError(String),
    DecodeError(String),
}

/// Which of the two racing branches completed first: the fetch, with its
/// result, or the fixed-duration timer. The loser is abandoned; its result,
/// if any ever arrives, has no further observable effect.
pub enum RaceEvent {
    Fetch(FetchResult),
    TimerElapsed,
}

/// Why a run failed: a transport-level or decode-level fetch failure with its
/// description, or the synthesized timeout, which carries no underlying
/// cause.
pub enum FailureReason {
    Transport(String),
    Decode(String),
    Timeout,
}

/// The single outcome of one run: the fetched text payload, or one of the
/// three failure kinds. Produced exactly once per run, never partially
/// populated.
pub enum RaceOutcome {
    Success(String),
    Failure(FailureReason),
}

/// Whether a run that observed `event` increments the completed-request
/// counter: every branch counts except the timeout branch.
pub open spec fn counts_request(event: RaceEvent) -> bool {
    !(event is TimerElapsed)
}

/// The outcome a run owes for `event`: derived from the fetch result — its
/// payload on success, its description wrapped in the matching failure kind
/// otherwise — when the fetch won the race, and the timeout failure when the
/// timer won.
pub open spec fn outcome_of(event: RaceEvent) -> RaceOutcome {
    match event {
        RaceEvent::Fetch(FetchResult::Payload(body)) => RaceOutcome::Success(body),
        RaceEvent::Fetch(FetchResult::TransportError(description)) => RaceOutcome::Failure(
            FailureReason::Transport(description),
        ),
        RaceEvent::Fetch(FetchResult::DecodeError(description)) => RaceOutcome::Failure(
            FailureReason::Decode(description),
        ),
        RaceEvent::TimerElapsed => RaceOutcome::Failure(FailureReason::Timeout),
    }
}

/// Settles one run of the timed race.
///
/// A deferred guard for the bookkeeping step is registered first. When the
/// fetch won, the guard is left to fire at scope exit — the counter is
/// incremented whether the fetch succeeded or failed. When the timer won,
/// the guard is cancelled before the timeout failure is returned, so the
/// counter is untouched.
pub fn settle_race(event: RaceEvent, metrics: &mut Metrics) -> (outcome: RaceOutcome)
    requires
        counts_request(event) ==> old(metrics).requests < usize::MAX,
    ensures
        outcome == outcome_of(event),
        final(metrics).requests == triggered_count(
            counts_request(event),
            old(metrics).requests as int,
        ),
{
    let mut finish = defer();
    let outcome = match event {
        RaceEvent::Fetch(FetchResult::Payload(body)) => RaceOutcome::Success(body),
        RaceEvent::Fetch(FetchResult::TransportError(description)) => RaceOutcome::Failure(
            FailureReason::Transport(description),
        ),
        RaceEvent::Fetch(FetchResult::DecodeError(description)) => RaceOutcome::Failure(
            FailureReason::Decode(description),
        ),
        RaceEvent::TimerElapsed => {
            finish.abort();
            RaceOutcome::Failure(FailureReason::Timeout)
        },
    };
    finish.fire(metrics);
    outcome
}

/// When the fetch resolves before the timer, the outcome is always derived
/// from the fetch result — never a timeout — and the run counts the request.
pub proof fn lemma_fetch_win_determines_outcome(result: FetchResult, requests: int)
    ensures
        outcome_of(RaceEvent::Fetch(result)) != RaceOutcome::Failure(FailureReason::Timeout),
        counts_request(RaceEvent::Fetch(result)),
        triggered_count(counts_request(RaceEvent::Fetch(result)), requests) == requests + 1,
{
    match result {
        FetchResult::Payload(_) => {},
        FetchResult::TransportError(_) => {},
        FetchResult::DecodeError(_) => {},
    }
}

/// When the timer fires first, the outcome is always the synthesized timeout
/// failure and the completed-request counter is not incremented for that
/// run.
pub proof fn lemma_timeout_suppresses_counting(requests: int)
    ensures
        outcome_of(RaceEvent::TimerElapsed) == RaceOutcome::Failure(FailureReason::Timeout),
        !counts_request(RaceEvent::TimerElapsed),
        triggered_count(counts_request(RaceEvent::TimerElapsed), requests) == requests,
{
}

} // verus!
