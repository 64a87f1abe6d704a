use sqlx_core::error::PoolError;
use sqlx_core::options::Builder;
use sqlx_core::pool::{
    expired_check, resolve_queue_in_arrival_order, waiter_deadline_passed, AcquireStep, ConnEntry,
    PoolState, ReleaseAction,
};

fn entry(id: u64, created_at: u64, last_used_at: u64) -> ConnEntry {
    ConnEntry { id, created_at, last_used_at }
}

fn live(s: &PoolState) -> u64 {
    s.idle.len() as u64 + s.checked_out as u64 + s.constructing as u64
}

#[test]
fn build_rejects_invalid_config() {
    // min_size above max_size
    let bad = Builder::new().max_size(1).min_size(2).options;
    match PoolState::build(bad, vec![entry(1, 0, 0), entry(2, 0, 0)]) {
        Err((e, back)) => {
            assert_eq!(e, PoolError::Config);
            assert_eq!(back.len(), 2);
        }
        Ok(_) => panic!("an invalid config must be rejected"),
    }
    // a pool of zero connections
    let zero = Builder::new().max_size(0).min_size(0).options;
    assert!(PoolState::build(zero, vec![]).is_err());
    // a zero connect budget
    let no_budget = Builder::new().connect_timeout(0).options;
    assert!(PoolState::build(no_budget, vec![]).is_err());
}

#[test]
fn live_total_never_exceeds_max_size() {
    let opts = Builder::new().max_size(2).options;
    let mut s = PoolState::build(opts, vec![]).unwrap();
    assert!(live(&s) <= 2);
    // fill the pool through the construction path
    assert!(matches!(s.acquire_start(1, 0, 100), AcquireStep::Construct));
    assert!(live(&s) <= 2);
    s.finish_construct_checkout();
    assert!(matches!(s.acquire_start(2, 1, 100), AcquireStep::Construct));
    s.finish_construct_checkout();
    assert!(live(&s) <= 2);
    // saturated: a third caller waits instead of over-subscribing
    assert!(matches!(s.acquire_start(3, 2, 100), AcquireStep::Wait));
    assert!(live(&s) <= 2);
    // a release keeps the total constant (hand-off) or shrinks it
    let _ = s.release(entry(1, 0, 0), false, 3);
    assert!(live(&s) <= 2);
}

#[test]
fn warm_up_meets_min_size() {
    let opts = Builder::new().max_size(5).min_size(3).options;
    let s = PoolState::build(opts, vec![entry(1, 0, 0), entry(2, 0, 0), entry(3, 0, 0)]).unwrap();
    assert!(s.idle.len() as u64 + s.checked_out as u64 >= 3);
}

#[test]
fn fair_mode_completes_in_arrival_order() {
    // capacity 1, fair: four callers in a known order
    let opts = Builder::new().max_size(1).fair(true).options;
    let mut s = PoolState::build(opts, vec![]).unwrap();
    // caller 1 opens the single connection and holds it
    assert!(matches!(s.acquire_start(1, 10, 1_000), AcquireStep::Construct));
    s.finish_construct_checkout();
    // callers 2, 3, 4 arrive in order and must queue
    assert!(matches!(s.acquire_start(2, 20, 1_000), AcquireStep::Wait));
    assert!(matches!(s.acquire_start(3, 30, 1_000), AcquireStep::Wait));
    assert!(matches!(s.acquire_start(4, 40, 1_000), AcquireStep::Wait));
    // each release hands the connection to the longest-waiting caller
    let mut completion: Vec<u64> = vec![1];
    for now in [50, 60, 70] {
        match s.release(entry(9, 10, 10), false, now) {
            ReleaseAction::HandOff(w) => completion.push(w.id),
            other => panic!("expected a hand-off, got {:?}", other),
        }
    }
    assert_eq!(completion, vec![1, 2, 3, 4]);
}

/// Drive a pool of capacity 2 into the state where one caller is queued and
/// a replenished connection sits idle: caller 1 holds a connection, caller
/// 2's own open failed, caller 3 queued while the pool was at capacity, and
/// the reaper then replenished one connection into the idle registry.
fn queued_waiter_next_to_idle(fair: bool) -> PoolState {
    let opts = Builder::new().max_size(2).min_size(2).fair(fair).options;
    let mut s = PoolState::build(opts, vec![entry(1, 0, 0), entry(2, 0, 0)]).unwrap();
    assert!(matches!(s.acquire_start(1, 0, 100), AcquireStep::Ready(_)));
    assert!(matches!(s.acquire_start(2, 1, 100), AcquireStep::Ready(_)));
    // caller 2's connection breaks; the woken waiter is not our subject, so
    // none is queued yet and caller 3 takes the freed slot as a permit
    assert!(matches!(s.release(entry(2, 0, 0), true, 2), ReleaseAction::Discard(None)));
    assert!(matches!(s.acquire_start(3, 3, 100), AcquireStep::Construct));
    // while caller 3's open is in flight the pool is at capacity again, so
    // caller 4 queues
    assert!(matches!(s.acquire_start(4, 4, 100), AcquireStep::Wait));
    // caller 3's open fails; waiter 4 is still queued, a slot is free
    s.finish_construct_failure();
    // the reaper replenishes below min_size; the new connection goes idle
    assert_eq!(s.replenish_deficit(), 1);
    assert!(s.try_begin_construct());
    assert!(s.finish_construct_idle(entry(9, 5, 5)));
    assert_eq!(s.idle.len(), 1);
    assert_eq!(s.waiters.len(), 1);
    s
}

#[test]
fn resolve_queue_serves_every_waiter_in_order() {
    let opts = Builder::new().max_size(1).fair(true).options;
    let mut s = PoolState::build(opts, vec![]).unwrap();
    assert!(matches!(s.acquire_start(1, 0, 500), AcquireStep::Construct));
    s.finish_construct_checkout();
    for (id, now) in [(2u64, 10u64), (3, 20), (4, 30), (5, 40)] {
        assert!(matches!(s.acquire_start(id, now, 500), AcquireStep::Wait));
    }
    let served = resolve_queue_in_arrival_order(&mut s, entry(9, 0, 0), 50);
    let ids: Vec<u64> = served.iter().map(|w| w.id).collect();
    assert_eq!(ids, vec![2, 3, 4, 5]);
    assert_eq!(s.waiters.len(), 0);
    assert_eq!(s.checked_out, 1);
}

#[test]
fn fair_mode_newcomer_queues_behind_waiters_even_with_idle() {
    let mut s = queued_waiter_next_to_idle(true);
    // strict FIFO: an idle connection is available, but caller 5 arrived
    // after waiter 4 and must queue behind it
    assert!(matches!(s.acquire_start(5, 6, 100), AcquireStep::Wait));
    // the wakeup serves the longest-waiting caller first
    match s.wake_front_with_idle() {
        Some((w, e)) => {
            assert_eq!(w.id, 4);
            assert_eq!(e.id, 9);
        }
        None => panic!("a waiter and an idle connection were present"),
    }
}

#[test]
fn unfair_mode_newcomer_may_take_idle_ahead_of_waiters() {
    let mut s = queued_waiter_next_to_idle(false);
    // drive-by: caller 5 takes the idle connection although waiter 4 has
    // been queued longer
    match s.acquire_start(5, 6, 100) {
        AcquireStep::Ready(e) => assert_eq!(e.id, 9),
        other => panic!("expected a drive-by win, got {:?}", other),
    }
}

#[test]
fn unfair_mode_drive_by_steals_and_nothing_deadlocks() {
    let opts = Builder::new().max_size(1).fair(false).options;
    let mut s = PoolState::build(opts, vec![]).unwrap();
    assert!(matches!(s.acquire_start(1, 0, 100), AcquireStep::Construct));
    s.finish_construct_checkout();
    // caller 2 waits on the saturated pool
    assert!(matches!(s.acquire_start(2, 1, 100), AcquireStep::Wait));
    // the release hands off to the waiter: the pool keeps moving
    match s.release(entry(7, 0, 0), false, 2) {
        ReleaseAction::HandOff(w) => assert_eq!(w.id, 2),
        other => panic!("expected a hand-off, got {:?}", other),
    }
    // the holder idles it back; a fresh drive-by caller takes it at once
    match s.release(entry(7, 0, 0), false, 3) {
        ReleaseAction::Idle => {}
        other => panic!("expected idling, got {:?}", other),
    }
    match s.acquire_start(3, 4, 100) {
        AcquireStep::Ready(e) => assert_eq!(e.id, 7),
        other => panic!("expected a connection, got {:?}", other),
    }
    // every caller was resolved; nothing is stuck
    assert_eq!(s.waiters.len(), 0);
}

#[test]
fn idle_timeout_eviction_removes_identity_for_good() {
    let opts = Builder::new().max_size(2).idle_timeout(Some(100)).max_lifetime(None).options;
    let mut s = PoolState::build(opts, vec![]).unwrap();
    // park connection 42, last used at instant 0
    assert!(matches!(s.acquire_start(1, 0, 50), AcquireStep::Construct));
    s.finish_construct_checkout();
    assert!(matches!(s.release(entry(42, 0, 0), false, 0), ReleaseAction::Idle));
    // idled longer than idle_timeout: the next sweep closes it
    let evicted = s.reap_sweep(201);
    assert_eq!(evicted.len(), 1);
    assert_eq!(evicted[0].id, 42);
    assert_eq!(s.idle.len(), 0);
    // it does not reappear: the next acquire must construct afresh
    assert!(matches!(s.acquire_start(2, 202, 300), AcquireStep::Construct));
    // a young connection survives a sweep
    s.finish_construct_failure();
    assert!(matches!(s.acquire_start(3, 203, 300), AcquireStep::Construct));
    s.finish_construct_checkout();
    assert!(matches!(s.release(entry(43, 203, 203), false, 210), ReleaseAction::Idle));
    let evicted = s.reap_sweep(250);
    assert_eq!(evicted.len(), 0);
    assert_eq!(s.idle.len(), 1);
}

#[test]
fn max_lifetime_eviction_at_release_and_at_sweep() {
    let opts = Builder::new().max_size(2).max_lifetime(Some(1_000)).options;
    let mut s = PoolState::build(opts, vec![]).unwrap();
    // discovered at release time: an over-age connection is discarded
    assert!(matches!(s.acquire_start(1, 0, 50), AcquireStep::Construct));
    s.finish_construct_checkout();
    match s.release(entry(5, 0, 0), false, 1_500) {
        ReleaseAction::Discard(None) => {}
        other => panic!("expected a discard, got {:?}", other),
    }
    assert_eq!(s.idle.len(), 0);
    // discovered by the reaper: an idle connection ages past the limit
    assert!(matches!(s.acquire_start(2, 1_500, 1_600), AcquireStep::Construct));
    s.finish_construct_checkout();
    assert!(matches!(s.release(entry(6, 1_500, 1_500), false, 1_501), ReleaseAction::Idle));
    let evicted = s.reap_sweep(3_000);
    assert_eq!(evicted.len(), 1);
    assert_eq!(evicted[0].id, 6);
    // once evicted, the identity cannot be acquired again
    match s.acquire_start(3, 3_001, 3_100) {
        AcquireStep::Ready(e) => panic!("stale connection {} handed out", e.id),
        AcquireStep::Construct => {}
        other => panic!("unexpected step {:?}", other),
    }
}

#[test]
fn expired_check_matches_policy() {
    let opts = Builder::new().max_lifetime(Some(100)).idle_timeout(Some(10)).options;
    assert!(!expired_check(&opts, &entry(1, 0, 0), 10));
    assert!(expired_check(&opts, &entry(1, 0, 0), 11)); // idle too long
    assert!(expired_check(&opts, &entry(1, 0, 95), 101)); // lifetime exceeded
    let lax = Builder::new().max_lifetime(None).idle_timeout(None).options;
    assert!(!expired_check(&lax, &entry(1, 0, 0), u64::MAX));
}

#[test]
fn timed_out_waiter_frees_its_slot_for_a_fresh_acquire() {
    let opts = Builder::new().max_size(1).connect_timeout(50).options;
    let mut s = PoolState::build(opts, vec![]).unwrap();
    // the single connection is held forever
    assert!(matches!(s.acquire_start(1, 0, 50), AcquireStep::Construct));
    s.finish_construct_checkout();
    // caller 2 waits; its deadline is enqueue time + connect_timeout
    assert!(matches!(s.acquire_start(2, 10, 60), AcquireStep::Wait));
    // the deadline fires: the waiter is removed and told PoolError::Timeout
    let w = &s.waiters[0];
    assert!(waiter_deadline_passed(w, 61));
    let cancelled = s.cancel_waiter(2).expect("waiter 2 should be queued");
    assert_eq!(cancelled.id, 2);
    assert_eq!(s.waiters.len(), 0);
    // a different fresh acquire takes the freed slot and is served by the
    // next release immediately
    assert!(matches!(s.acquire_start(3, 70, 120), AcquireStep::Wait));
    match s.release(entry(8, 0, 0), false, 80) {
        ReleaseAction::HandOff(w) => assert_eq!(w.id, 3),
        other => panic!("expected a hand-off, got {:?}", other),
    }
}

#[test]
fn cancelling_a_waiter_keeps_the_others_in_order() {
    let opts = Builder::new().max_size(1).options;
    let mut s = PoolState::build(opts, vec![]).unwrap();
    assert!(matches!(s.acquire_start(1, 0, 500), AcquireStep::Construct));
    s.finish_construct_checkout();
    for (id, now) in [(2u64, 10u64), (3, 20), (4, 30)] {
        assert!(matches!(s.acquire_start(id, now, 500), AcquireStep::Wait));
    }
    let cancelled = s.cancel_waiter(3).expect("waiter 3 should be queued");
    assert_eq!(cancelled.id, 3);
    let ids: Vec<u64> = s.waiters.iter().map(|w| w.id).collect();
    assert_eq!(ids, vec![2, 4]);
    assert!(s.cancel_waiter(3).is_none());
}

#[test]
fn close_drains_idle_fails_waiters_and_discards_late_returns() {
    let opts = Builder::new().max_size(3).options;
    let mut s = PoolState::build(opts, vec![]).unwrap();
    // one idle, one checked out, one waiterless slot
    assert!(matches!(s.acquire_start(1, 0, 100), AcquireStep::Construct));
    s.finish_construct_checkout();
    assert!(matches!(s.acquire_start(2, 1, 100), AcquireStep::Construct));
    s.finish_construct_checkout();
    assert!(matches!(s.release(entry(11, 0, 0), false, 2), ReleaseAction::Idle));
    let (idle, waiters) = s.close();
    // every idle connection comes back for closing
    assert_eq!(idle.len(), 1);
    assert_eq!(idle[0].id, 11);
    assert_eq!(waiters.len(), 0);
    assert!(s.closed);
    assert_eq!(s.idle.len(), 0);
    // subsequent acquires fail with the closed error
    assert!(matches!(s.acquire_start(7, 3, 100), AcquireStep::Closed));
    // an outstanding connection is discarded, not re-idled, when returned
    match s.release(entry(12, 0, 0), false, 4) {
        ReleaseAction::Discard(None) => {}
        other => panic!("expected a discard, got {:?}", other),
    }
    assert_eq!(s.idle.len(), 0);
    assert!(s.is_drained());
    // close is idempotent
    let (idle_again, waiters_again) = s.close();
    assert!(idle_again.is_empty() && waiters_again.is_empty());
}

#[test]
fn close_wakes_every_queued_waiter() {
    let opts = Builder::new().max_size(1).options;
    let mut s = PoolState::build(opts, vec![]).unwrap();
    assert!(matches!(s.acquire_start(1, 0, 100), AcquireStep::Construct));
    s.finish_construct_checkout();
    assert!(matches!(s.acquire_start(2, 1, 100), AcquireStep::Wait));
    assert!(matches!(s.acquire_start(3, 2, 100), AcquireStep::Wait));
    let (_, waiters) = s.close();
    // each of them is resolved exactly once, with PoolError::Closed
    let ids: Vec<u64> = waiters.iter().map(|w| w.id).collect();
    assert_eq!(ids, vec![2, 3]);
    assert_eq!(s.waiters.len(), 0);
}

#[test]
fn failed_ping_is_invisible_to_the_caller() {
    let opts = Builder::new().max_size(1).test_on_acquire(true).options;
    let mut s = PoolState::build(opts, vec![]).unwrap();
    // park a connection that will fail its health check
    assert!(matches!(s.acquire_start(1, 0, 100), AcquireStep::Construct));
    s.finish_construct_checkout();
    assert!(matches!(s.release(entry(66, 0, 0), false, 1), ReleaseAction::Idle));
    // the acquire withdraws it; the ping fails; the discard frees the slot
    let withdrawn = match s.acquire_start(2, 2, 100) {
        AcquireStep::Ready(e) => e,
        other => panic!("expected an idle connection, got {:?}", other),
    };
    assert_eq!(withdrawn.id, 66);
    assert!(matches!(s.release(withdrawn, true, 3), ReleaseAction::Discard(None)));
    // the caller retries within its deadline and gets a fresh permit; the
    // dead identity is gone for good
    match s.acquire_start(2, 4, 100) {
        AcquireStep::Construct => {}
        other => panic!("expected a fresh construction, got {:?}", other),
    }
    assert_eq!(s.idle.len(), 0);
}

#[test]
fn replenish_deficit_counts_shortfall_below_min_size() {
    let opts = Builder::new().max_size(5).min_size(3).options;
    let mut s =
        PoolState::build(opts, vec![entry(1, 0, 0), entry(2, 0, 0), entry(3, 0, 0)]).unwrap();
    assert_eq!(s.replenish_deficit(), 0);
    let _ = s.close();
    // a closed pool is never replenished
    assert_eq!(s.replenish_deficit(), 0);
    // both warm connections age out under a strict lifetime
    let strict = Builder::new().max_size(5).min_size(2).max_lifetime(Some(1)).options;
    let mut s2 = PoolState::build(strict, vec![entry(4, 0, 0), entry(5, 0, 0)]).unwrap();
    let evicted = s2.reap_sweep(10);
    assert_eq!(evicted.len(), 2);
    assert_eq!(s2.replenish_deficit(), 2);
    // the reaper reopens through the ordinary construction path
    assert!(s2.try_begin_construct());
    assert!(s2.finish_construct_idle(entry(6, 10, 10)));
    assert_eq!(s2.replenish_deficit(), 1);
}
