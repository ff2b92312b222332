use defer_race::defer;
use defer_race::Metrics;

#[test]
fn trigger_fires_exactly_once() {
    let mut metrics = Metrics { requests: 0 };
    let mut finish = defer();
    finish.fire(&mut metrics);
    assert_eq!(metrics.requests, 1);
    // The action was consumed: a second trigger is a no-op.
    finish.fire(&mut metrics);
    assert_eq!(metrics.requests, 1);
}

#[test]
fn trigger_continues_from_existing_count() {
    let mut metrics = Metrics { requests: 41 };
    let mut finish = defer();
    finish.fire(&mut metrics);
    assert_eq!(metrics.requests, 42);
}

#[test]
fn cancel_suppresses_action() {
    let mut metrics = Metrics { requests: 5 };
    let mut finish = defer();
    finish.abort();
    finish.fire(&mut metrics);
    assert_eq!(metrics.requests, 5);
}

#[test]
fn cancel_is_idempotent() {
    let mut metrics = Metrics { requests: 0 };
    let mut finish = defer();
    finish.abort();
    finish.abort();
    finish.fire(&mut metrics);
    assert_eq!(metrics.requests, 0);
}

#[test]
fn guard_cancelled_then_scope_ends_counter_untouched() {
    let mut metrics = Metrics { requests: 3 };
    {
        let mut finish = defer();
        finish.abort();
        finish.fire(&mut metrics);
    }
    assert_eq!(metrics.requests, 3);
}
