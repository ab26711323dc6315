//! Worker-and-join: the initiator spawns one worker running a fixed-count
//! paced loop, runs its own fixed-count loop concurrently, and blocks until
//! the worker has fully completed before returning.
//!
//! A [`JoinScenario`] holds the progress of both loops, whether the worker
//! failed, and whether the join has completed. No order between the two
//! loops' steps is guaranteed — any interleaving of `worker_step` and
//! `initiator_step` is legal — but the join can only complete once the
//! worker has terminated, and it surfaces an abnormal termination as an
//! error instead of succeeding.

use vstd::prelude::*;

verus! {

/// Iterations of the worker's paced loop.
pub const WORKER_ITERATIONS: u64 = 4;

/// Iterations of the initiator's own paced loop.
pub const INITIATOR_ITERATIONS: u64 = 4;

/// Error of a join on a worker that terminated abnormally.
#[derive(Clone, Copy, PartialEq, Eq, Structural, Debug)]
pub struct WorkerFailed;

/// Progress of the worker-and-join demonstration.
pub struct JoinScenario {
    /// Iterations the worker's loop has completed.
    pub worker_steps: u64,
    /// Iterations the initiator's own loop has completed.
    pub initiator_steps: u64,
    /// The worker terminated abnormally.
    pub worker_failed: bool,
    /// The initiator's join has completed.
    pub joined: bool,
}

impl JoinScenario {
    /// Well-formedness: neither loop runs past its bound, and a completed
    /// join means the worker's loop fully completed without failing.
    pub open spec fn wf(self) -> bool {
        &&& self.worker_steps <= WORKER_ITERATIONS
        &&& self.initiator_steps <= INITIATOR_ITERATIONS
        &&& self.joined ==> self.worker_steps == WORKER_ITERATIONS && !self.worker_failed
    }

    /// The worker has terminated, normally or not; a blocking join resolves
    /// exactly then.
    pub open spec fn worker_terminated(self) -> bool {
        self.worker_failed || self.worker_steps == WORKER_ITERATIONS
    }

    /// A fresh scenario: neither loop has run, nothing failed, not joined.
    pub fn new() -> (s: JoinScenario)
        ensures
            s.wf(),
            s.worker_steps == 0,
            s.initiator_steps == 0,
            !s.worker_failed,
            !s.joined,
    {
        JoinScenario { worker_steps: 0, initiator_steps: 0, worker_failed: false, joined: false }
    }

    /// One iteration of the worker's loop; returns the 1-based index the
    /// worker prints on this iteration.
    pub fn worker_step(&mut self) -> (i: u64)
        requires
            old(self).wf(),
            !old(self).worker_failed,
            old(self).worker_steps < WORKER_ITERATIONS,
        ensures
            final(self).wf(),
            final(self).worker_steps == old(self).worker_steps + 1,
            i == old(self).worker_steps + 1,
            final(self).initiator_steps == old(self).initiator_steps,
            final(self).worker_failed == old(self).worker_failed,
            final(self).joined == old(self).joined,
    {
        self.worker_steps = self.worker_steps + 1;
        self.worker_steps
    }

    /// One iteration of the initiator's own loop; returns the 1-based index
    /// the initiator prints on this iteration.
    pub fn initiator_step(&mut self) -> (i: u64)
        requires
            old(self).wf(),
            old(self).initiator_steps < INITIATOR_ITERATIONS,
        ensures
            final(self).wf(),
            final(self).initiator_steps == old(self).initiator_steps + 1,
            i == old(self).initiator_steps + 1,
            final(self).worker_steps == old(self).worker_steps,
            final(self).worker_failed == old(self).worker_failed,
            final(self).joined == old(self).joined,
    {
        self.initiator_steps = self.initiator_steps + 1;
        self.initiator_steps
    }

    /// The worker terminates abnormally before completing its loop.
    pub fn worker_fail(&mut self)
        requires
            old(self).wf(),
            !old(self).joined,
            old(self).worker_steps < WORKER_ITERATIONS,
        ensures
            final(self).wf(),
            final(self).worker_failed,
            final(self).worker_steps == old(self).worker_steps,
            final(self).initiator_steps == old(self).initiator_steps,
            !final(self).joined,
    {
        self.worker_failed = true;
    }

    /// The initiator's blocking join, invoked at the point the wait
    /// resolves: it completes only for a worker whose loop fully ran, and
    /// surfaces an abnormal termination as an error (fatal in this design).
    pub fn join(&mut self) -> (r: Result<(), WorkerFailed>)
        requires
            old(self).wf(),
            old(self).worker_terminated(),
            !old(self).joined,
        ensures
            final(self).wf(),
            !old(self).worker_failed ==> r == Ok::<(), WorkerFailed>(()) && final(self).joined,
            old(self).worker_failed ==> r == Err::<(), WorkerFailed>(WorkerFailed)
                && !final(self).joined,
            final(self).worker_steps == old(self).worker_steps,
            final(self).initiator_steps == old(self).initiator_steps,
            final(self).worker_failed == old(self).worker_failed,
    {
        if self.worker_failed {
            Err(WorkerFailed)
        } else {
            self.joined = true;
            Ok(())
        }
    }
}

/// Join correctness: once the initiator has joined the worker, the worker's
/// loop has run every one of its iterations — the join never completes on a
/// partial loop.
pub proof fn lemma_joined_implies_worker_complete(s: JoinScenario)
    requires
        s.wf(),
        s.joined,
    ensures
        s.worker_steps == WORKER_ITERATIONS,
        !s.worker_failed,
{
}

/// The whole worker-and-join demonstration under one interleaving: both
/// loops run to completion, the join succeeds, and the returned pair holds
/// the 1-based indices each loop printed, in order.
pub fn run_worker_and_join() -> (r: (Vec<u64>, Vec<u64>))
    ensures
        r.0@.len() == WORKER_ITERATIONS,
        forall|j: int| 0 <= j < r.0@.len() ==> r.0@[j] == j + 1,
        r.1@.len() == INITIATOR_ITERATIONS,
        forall|j: int| 0 <= j < r.1@.len() ==> r.1@[j] == j + 1,
{
    let mut scenario = JoinScenario::new();
    let mut worker_lines: Vec<u64> = Vec::new();
    let mut initiator_lines: Vec<u64> = Vec::new();
    let mut k: u64 = 0;
    while k < WORKER_ITERATIONS
        invariant
            k <= WORKER_ITERATIONS,
            WORKER_ITERATIONS == INITIATOR_ITERATIONS,
            scenario.wf(),
            scenario.worker_steps == k,
            scenario.initiator_steps == k,
            !scenario.worker_failed,
            !scenario.joined,
            worker_lines@.len() == k,
            forall|j: int| 0 <= j < k ==> worker_lines@[j] == j + 1,
            initiator_lines@.len() == k,
            forall|j: int| 0 <= j < k ==> initiator_lines@[j] == j + 1,
        decreases WORKER_ITERATIONS - k,
    {
        let wi = scenario.worker_step();
        worker_lines.push(wi);
        let mi = scenario.initiator_step();
        initiator_lines.push(mi);
        k = k + 1;
    }
    match scenario.join() {
        Ok(_) => {},
        Err(_) => {
            proof {
                assert(false);
            }
        },
    }
    (worker_lines, initiator_lines)
}

} // verus!
