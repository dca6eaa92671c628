use edgar_rs::rate_limit::{GovernorAction, GovernorEvent, RateLimiter};

#[test]
fn governor_admits_capacity_then_waits_for_refill() {
    let mut g = RateLimiter::new(5, 1);
    assert_eq!(g.refill_interval_ms(), 200);
    for _ in 0..5 {
        assert!(g.try_acquire());
    }
    assert!(!g.try_acquire());
    assert_eq!(g.on_event(GovernorEvent::Acquire), GovernorAction::Wait);
    assert_eq!(g.on_event(GovernorEvent::Tick), GovernorAction::Refilled);
    assert_eq!(g.on_event(GovernorEvent::Acquire), GovernorAction::Admit);
    assert_eq!(g.available(), 0);
}

#[test]
fn governor_never_exceeds_capacity() {
    let mut g = RateLimiter::new(3, 2);
    assert_eq!(g.refill_interval_ms(), 667);
    assert_eq!(g.on_event(GovernorEvent::Tick), GovernorAction::Full);
    assert_eq!(g.available(), 3);
    assert!(g.try_acquire());
    g.replenish();
    g.replenish();
    assert_eq!(g.available(), 3);
    assert_eq!(g.capacity(), 3);
}

#[test]
fn drained_governor_admits_one_per_refill() {
    let mut g = RateLimiter::new(5, 1);
    for _ in 0..5 {
        assert!(g.try_acquire());
    }
    let mut admitted = 0;
    for _ in 0..5 {
        g.replenish();
        while g.try_acquire() {
            admitted += 1;
        }
    }
    assert_eq!(admitted, 5);
}

#[test]
fn refill_interval_rounds_up() {
    assert_eq!(RateLimiter::new(3, 1).refill_interval_ms(), 334);
    assert_eq!(RateLimiter::new(10, 1).refill_interval_ms(), 100);
    assert_eq!(RateLimiter::new(7, 3).refill_interval_ms(), 429);
}
