use tread_test::join::run_worker_and_join;
use tread_test::join::JoinScenario;
use tread_test::join::WorkerFailed;
use tread_test::join::INITIATOR_ITERATIONS;
use tread_test::join::WORKER_ITERATIONS;

#[test]
fn join_correctness_worker_loop_fully_runs() {
    let (worker_lines, initiator_lines) = run_worker_and_join();
    assert!(worker_lines.len() >= 4);
    assert_eq!(worker_lines, vec![1, 2, 3, 4]);
    assert_eq!(initiator_lines, vec![1, 2, 3, 4]);
    assert_eq!(worker_lines.len() as u64, WORKER_ITERATIONS);
    assert_eq!(initiator_lines.len() as u64, INITIATOR_ITERATIONS);
}

#[test]
fn join_after_full_loop_succeeds() {
    let mut s = JoinScenario::new();
    let mut k: u64 = 0;
    while k < WORKER_ITERATIONS {
        let i = s.worker_step();
        assert_eq!(i, k + 1);
        k += 1;
    }
    assert!(s.join().is_ok());
    assert!(s.joined);
    assert_eq!(s.worker_steps, WORKER_ITERATIONS);
}

#[test]
fn join_surfaces_worker_failure() {
    let mut s = JoinScenario::new();
    s.worker_step();
    s.worker_fail();
    assert!(matches!(s.join(), Err(WorkerFailed)));
    assert!(!s.joined);
}
