use tread_test::counter::Coordinator;
use tread_test::counter::LockPoisoned;
use tread_test::counter::run_workers;
use tread_test::counter::run_workers_phased;
use tread_test::counter::WORKER_COUNT;

#[test]
fn counter_determinism_one_worker() {
    assert_eq!(run_workers(1), 1);
}

#[test]
fn counter_determinism_sixteen_workers() {
    assert_eq!(run_workers(WORKER_COUNT), 16);
}

#[test]
fn counter_determinism_thousand_workers() {
    assert_eq!(run_workers(1000), 1000);
}

#[test]
fn counter_determinism_no_workers() {
    assert_eq!(run_workers(0), 0);
}

#[test]
fn no_lost_updates_under_contention() {
    let mut trial: usize = 0;
    while trial < 100 {
        assert_eq!(run_workers(16), 16);
        trial += 1;
    }
}

#[test]
fn phased_schedule_gives_same_result() {
    assert_eq!(run_workers_phased(16), 16);
    assert_eq!(run_workers_phased(1000), 1000);
}

#[test]
fn read_only_after_all_joins() {
    let mut c = Coordinator::new(3);
    let mut i: usize = 0;
    while i < 2 {
        c.request_lock(i);
        assert!(c.acquire(i).is_ok());
        c.increment_and_release(i);
        c.finish(i);
        i += 1;
    }
    // Two of three workers done: the counter is a partial count and the
    // initiator's read is not yet permitted.
    assert!(!c.check_all_finished());
    assert_eq!(c.counter, 2);
    c.request_lock(2);
    assert!(c.acquire(2).is_ok());
    c.increment_and_release(2);
    c.finish(2);
    assert!(c.check_all_finished());
    assert_eq!(c.read_result(), 3);
}

#[test]
fn failure_while_holding_poisons_the_lock() {
    let mut c = Coordinator::new(2);
    c.request_lock(0);
    assert!(c.acquire(0).is_ok());
    c.fail(0);
    c.request_lock(1);
    assert!(matches!(c.acquire(1), Err(LockPoisoned)));
}

#[test]
fn failure_before_the_lock_does_not_poison() {
    let mut c = Coordinator::new(2);
    c.fail(0);
    c.request_lock(1);
    assert!(c.acquire(1).is_ok());
    c.increment_and_release(1);
    c.finish(1);
    assert_eq!(c.counter, 1);
}
