//! A scoped deferred-action guard and a timed race coordinator.
//!
//! The guard ([`Deferred`]) runs a single bookkeeping action — incrementing a
//! [`Metrics`] counter — exactly once when its owning scope ends, unless it is
//! cancelled first. The race coordinator ([`race::settle_race`]) combines the
//! guard with the result of racing an asynchronous fetch against a fixed
//! timer: every branch counts the request except the timeout branch, which
//! cancels the guard before failing.
//!
//! The fetch, the timer and the runtime that races them are collaborators
//! outside this crate; the coordinator here takes which of them finished
//! first as its input and settles everything that follows from it.

pub mod guard;
pub mod race;

pub use guard::defer;
pub use guard::Deferred;
pub use guard::Metrics;
pub use race::settle_race;
pub use race::FailureReason;
pub use race::FetchResult;
pub use race::RaceEvent;
pub use race::RaceOutcome;
pub use race::TIMEOUT_MILLIS;
