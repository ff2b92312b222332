//! The scoped deferred-action guard and the counter its action updates.
//!
//! A [`Deferred`] guard holds one pending zero-argument action: increment the
//! completed-request counter of a [`Metrics`] value. The action runs at most
//! once, ever. It is consumed either by [`Deferred::abort`], which discards
//! it without running it, or by the scope-exit trigger [`Deferred::fire`],
//! which the owning scope calls on every exit path.

use vstd::prelude::*;

verus! {

/// A counter of completed requests: requests that finished the deferred
/// bookkeeping step, not requests attempted.
///
/// The race coordinator never reads this counter and never writes it
/// directly; it is incremented only through a guard's trigger.
pub struct Metrics {
    /// How many requests have finished the deferred bookkeeping step.
    pub requests: usize,
}

/// What the scope-exit trigger leaves in the counter: one more than before
/// when the guard is still armed, the old value when the action was already
/// consumed or cancelled.
pub open spec fn triggered_count(armed: bool, requests: int) -> int {
    if armed {
        requests + 1
    } else {
        requests
    }
}

/// The armed state a cancellation leaves behind, whatever the state was
/// before: the pending action is gone.
pub open spec fn cancelled_state(armed: bool) -> bool {
    false
}

/// A guard that runs its deferred action — incrementing the metrics counter —
/// exactly once when its owning scope exits, unless cancelled first.
///
/// The trigger is an explicit construct: the owning scope calls
/// [`Deferred::fire`] on every exit path, handing it the counter the action
/// captures. A guard cannot be copied; it may be moved, and only the final
/// owner's scope exit triggers the action.
pub struct Deferred {
    armed: bool,
}

impl Deferred {
    /// Whether the pending action is still present: neither consumed by a
    /// trigger nor discarded by a cancellation.
    pub closed spec fn is_armed(&self) -> bool {
        self.armed
    }

    /// Removes and discards the pending action without invoking it.
    ///
    /// Idempotent: calling it again, or letting the scope-exit trigger run
    /// afterwards, is a no-op. Cannot fail.
    pub fn abort(&mut self)
        ensures
            final(self).is_armed() == cancelled_state(old(self).is_armed()),
    {
        self.armed = false;
    }

    /// The scope-exit trigger: invokes the deferred action — incrementing the
    /// counter by one — if and only if the action has not already been
    /// consumed or cancelled, then marks it consumed.
    pub fn fire(&mut self, metrics: &mut Metrics)
        requires
            old(self).is_armed() ==> old(metrics).requests < usize::MAX,
        ensures
            !final(self).is_armed(),
            final(metrics).requests == triggered_count(
                old(self).is_armed(),
                old(metrics).requests as int,
            ),
    {
        if self.armed {
            self.armed = false;
            metrics.requests = metrics.requests + 1;
        }
    }
}

/// Creates a guard holding the pending action. No side effect at creation
/// time.
pub fn defer() -> (guard: Deferred)
    ensures
        guard.is_armed(),
{
    Deferred { armed: true }
}

/// An armed guard's trigger runs the action exactly once: it adds one to the
/// counter, and any further trigger of the now-consumed guard leaves the
/// counter unchanged — so a scope that never cancels runs the action exactly
/// once, whichever exit path reaches the trigger.
pub proof fn lemma_trigger_exactly_once(requests: int)
    ensures
        triggered_count(true, requests) == requests + 1,
        triggered_count(false, triggered_count(true, requests)) == requests + 1,
{
}

/// A cancellation before scope exit suppresses the action: the trigger of a
/// cancelled guard never increments the counter.
pub proof fn lemma_cancel_suppresses(armed: bool, requests: int)
    ensures
        triggered_count(cancelled_state(armed), requests) == requests,
{
}

/// Cancellation is idempotent: cancelling twice leaves the same disarmed
/// state as cancelling once, and the scope-exit trigger after any number of
/// cancellations never runs the action.
pub proof fn lemma_cancel_idempotent(armed: bool, requests: int)
    ensures
        cancelled_state(cancelled_state(armed)) == cancelled_state(armed),
        triggered_count(cancelled_state(cancelled_state(armed)), requests) == requests,
{
}

} // verus!
