//! Shared-state coordination: a fixed fan-out of workers each increments a
//! shared counter exactly once while holding a mutual-exclusion lock, the
//! initiator joins every worker, then reads the final value.
//!
//! The state of the whole protocol is a [`Coordinator`]: the counter, each
//! worker's phase, which worker (if any) holds the lock, and whether the lock
//! was poisoned by a worker failing while holding it. The verified methods
//! are exactly the transitions the lock discipline allows, and the
//! well-formedness invariant ties the counter to the number of workers that
//! have released the lock, so the value read after all joins is exactly the
//! worker count, whatever order the workers ran in.

use vstd::pervasive::VecAdditionalExecFns;
use vstd::prelude::*;

verus! {

/// Fan-out used by the shared-state demonstration.
pub const WORKER_COUNT: usize = 16;

/// Lifecycle of one increment-worker.
#[derive(Clone, Copy, PartialEq, Eq, Structural, Debug)]
pub enum Phase {
    /// Spawned, has not yet asked for the lock.
    Spawned,
    /// Blocked until the lock is free.
    WaitingForLock,
    /// Sole holder of the lock.
    HoldingLock,
    /// Incremented the counter and released the lock.
    Released,
    /// Terminated normally; its join has completed.
    Finished,
    /// Terminated abnormally; fatal to the whole run.
    Failed,
}

/// A worker in this phase has already performed its increment.
pub open spec fn is_done(p: Phase) -> bool {
    p is Released || p is Finished
}

/// 1 if the worker in this phase has incremented, else 0.
pub open spec fn done_one(p: Phase) -> int {
    if is_done(p) {
        1
    } else {
        0
    }
}

/// How many workers in `s` have performed their increment.
pub open spec fn done_count(s: Seq<Phase>) -> int
    decreases s.len(),
{
    if s.len() == 0 {
        0
    } else {
        done_count(s.drop_last()) + done_one(s.last())
    }
}

pub proof fn lemma_done_count_bounds(s: Seq<Phase>)
    ensures
        0 <= done_count(s) <= s.len(),
    decreases s.len(),
{
    if s.len() > 0 {
        lemma_done_count_bounds(s.drop_last());
    }
}

pub proof fn lemma_done_count_zero(s: Seq<Phase>)
    requires
        forall|j: int| 0 <= j < s.len() ==> !is_done(s[j]),
    ensures
        done_count(s) == 0,
    decreases s.len(),
{
    if s.len() > 0 {
        assert(forall|j: int| 0 <= j < s.len() - 1 ==> s.drop_last()[j] == s[j]);
        lemma_done_count_zero(s.drop_last());
    }
}

pub proof fn lemma_done_count_all(s: Seq<Phase>)
    requires
        forall|j: int| 0 <= j < s.len() ==> is_done(s[j]),
    ensures
        done_count(s) == s.len(),
    decreases s.len(),
{
    if s.len() > 0 {
        assert(forall|j: int| 0 <= j < s.len() - 1 ==> s.drop_last()[j] == s[j]);
        lemma_done_count_all(s.drop_last());
    }
}

/// A worker that has not yet incremented keeps the count strictly short of
/// the worker count.
pub proof fn lemma_done_count_partial(s: Seq<Phase>, i: int)
    requires
        0 <= i < s.len(),
        !is_done(s[i]),
    ensures
        done_count(s) < s.len(),
    decreases s.len(),
{
    if i == s.len() - 1 {
        lemma_done_count_bounds(s.drop_last());
    } else {
        assert(s.drop_last()[i] == s[i]);
        lemma_done_count_partial(s.drop_last(), i);
    }
}

/// Replacing one phase changes the count by the difference of the two
/// phases' contributions.
pub proof fn lemma_done_count_update(s: Seq<Phase>, i: int, p: Phase)
    requires
        0 <= i < s.len(),
    ensures
        done_count(s.update(i, p)) == done_count(s) - done_one(s[i]) + done_one(p),
    decreases s.len(),
{
    let t = s.update(i, p);
    if i == s.len() - 1 {
        assert(t.drop_last() =~= s.drop_last());
    } else {
        assert(t.drop_last() =~= s.drop_last().update(i, p));
        assert(s.drop_last()[i] == s[i]);
        lemma_done_count_update(s.drop_last(), i, p);
    }
}

/// The whole protocol state: counter, worker phases, lock holder, poison.
pub struct Coordinator {
    /// The shared counter the lock protects.
    pub counter: usize,
    /// Phase of each worker, indexed by worker.
    pub phases: Vec<Phase>,
    /// The worker currently holding the lock, if any.
    pub holder: Option<usize>,
    /// Set when a worker failed while holding the lock; every later
    /// acquisition fails.
    pub poisoned: bool,
}

impl Coordinator {
    /// Well-formedness: the counter equals the number of workers that have
    /// incremented, and at most one worker holds the lock, recorded in
    /// `holder`.
    pub open spec fn wf(self) -> bool {
        &&& self.counter as int == done_count(self.phases@)
        &&& match self.holder {
            Some(h) => {
                &&& h < self.phases@.len()
                &&& self.phases@[h as int] is HoldingLock
                &&& forall|j: int|
                    0 <= j < self.phases@.len() && j != h ==> !(self.phases@[j] is HoldingLock)
            },
            None => forall|j: int| 0 <= j < self.phases@.len() ==> !(self.phases@[j] is HoldingLock),
        }
    }

    /// Every worker has terminated normally and been joined.
    pub open spec fn all_finished(self) -> bool {
        forall|j: int| 0 <= j < self.phases@.len() ==> self.phases@[j] is Finished
    }

    /// A fresh run: counter 0, every worker spawned, lock free.
    pub fn new(worker_count: usize) -> (c: Coordinator)
        ensures
            c.wf(),
            c.phases@.len() == worker_count,
            forall|j: int| 0 <= j < worker_count ==> c.phases@[j] is Spawned,
            c.counter == 0,
            c.holder is None,
            !c.poisoned,
    {
        let mut phases: Vec<Phase> = Vec::new();
        let mut k: usize = 0;
        while k < worker_count
            invariant
                k <= worker_count,
                phases@.len() == k,
                forall|j: int| 0 <= j < k ==> phases@[j] is Spawned,
            decreases worker_count - k,
        {
            phases.push(Phase::Spawned);
            k = k + 1;
        }
        proof {
            lemma_done_count_zero(phases@);
        }
        Coordinator { counter: 0, phases, holder: None, poisoned: false }
    }

    /// Worker `i` asks for the lock and starts blocking on it.
    pub fn request_lock(&mut self, i: usize)
        requires
            old(self).wf(),
            i < old(self).phases@.len(),
            old(self).phases@[i as int] is Spawned,
        ensures
            final(self).wf(),
            final(self).phases@ == old(self).phases@.update(i as int, Phase::WaitingForLock),
            final(self).counter == old(self).counter,
            final(self).holder == old(self).holder,
            final(self).poisoned == old(self).poisoned,
    {
        proof {
            lemma_done_count_update(self.phases@, i as int, Phase::WaitingForLock);
        }
        self.phases.set(i, Phase::WaitingForLock);
    }

    /// Worker `i`'s blocking acquisition resolves: the lock is free, so it
    /// either becomes the sole holder, or — if an earlier holder failed
    /// while holding the lock — the acquisition fails, propagating that
    /// failure (fatal in this design).
    pub fn acquire(&mut self, i: usize) -> (r: Result<(), LockPoisoned>)
        requires
            old(self).wf(),
            i < old(self).phases@.len(),
            old(self).phases@[i as int] is WaitingForLock,
            old(self).holder is None,
        ensures
            final(self).wf(),
            !old(self).poisoned ==> {
                &&& r == Ok::<(), LockPoisoned>(())
                &&& final(self).phases@ == old(self).phases@.update(i as int, Phase::HoldingLock)
                &&& final(self).holder == Some(i)
            },
            old(self).poisoned ==> r == Err::<(), LockPoisoned>(LockPoisoned) && *final(self)
                == *old(self),
            final(self).counter == old(self).counter,
            final(self).poisoned == old(self).poisoned,
    {
        if self.poisoned {
            Err(LockPoisoned)
        } else {
            proof {
                lemma_done_count_update(self.phases@, i as int, Phase::HoldingLock);
            }
            self.phases.set(i, Phase::HoldingLock);
            self.holder = Some(i);
            Ok(())
        }
    }

    /// Worker `i`, the sole holder, increments the counter by one and
    /// releases the lock. The increment cannot overflow: the count of
    /// workers already done is strictly below the worker count while `i`
    /// itself is still holding.
    pub fn increment_and_release(&mut self, i: usize)
        requires
            old(self).wf(),
            i < old(self).phases@.len(),
            old(self).phases@[i as int] is HoldingLock,
        ensures
            final(self).wf(),
            final(self).counter == old(self).counter + 1,
            final(self).phases@ == old(self).phases@.update(i as int, Phase::Released),
            final(self).holder is None,
            final(self).poisoned == old(self).poisoned,
    {
        proof {
            lemma_done_count_partial(self.phases@, i as int);
            lemma_done_count_update(self.phases@, i as int, Phase::Released);
        }
        let n: usize = self.phases.len();
        assert(self.counter < n);
        self.counter = self.counter + 1;
        self.phases.set(i, Phase::Released);
        self.holder = None;
    }

    /// Worker `i` terminates normally after releasing, and its join
    /// completes.
    pub fn finish(&mut self, i: usize)
        requires
            old(self).wf(),
            i < old(self).phases@.len(),
            old(self).phases@[i as int] is Released,
        ensures
            final(self).wf(),
            final(self).phases@ == old(self).phases@.update(i as int, Phase::Finished),
            final(self).counter == old(self).counter,
            final(self).holder == old(self).holder,
            final(self).poisoned == old(self).poisoned,
    {
        proof {
            lemma_done_count_update(self.phases@, i as int, Phase::Finished);
        }
        self.phases.set(i, Phase::Finished);
    }

    /// Worker `i` terminates abnormally before its increment. If it was
    /// holding the lock, the lock is poisoned: no later acquisition can
    /// succeed, so the counter can never be silently short.
    pub fn fail(&mut self, i: usize)
        requires
            old(self).wf(),
            i < old(self).phases@.len(),
            old(self).phases@[i as int] is Spawned || old(self).phases@[i as int]
                is WaitingForLock || old(self).phases@[i as int] is HoldingLock,
        ensures
            final(self).wf(),
            final(self).phases@ == old(self).phases@.update(i as int, Phase::Failed),
            final(self).counter == old(self).counter,
            final(self).poisoned == (old(self).poisoned || old(self).phases@[i as int]
                is HoldingLock),
            old(self).phases@[i as int] is HoldingLock ==> final(self).holder is None,
            !(old(self).phases@[i as int] is HoldingLock) ==> final(self).holder == old(
                self,
            ).holder,
    {
        proof {
            lemma_done_count_update(self.phases@, i as int, Phase::Failed);
        }
        let ph = self.phases[i];
        match ph {
            Phase::HoldingLock => {
                self.holder = None;
                self.poisoned = true;
            },
            _ => {},
        }
        self.phases.set(i, Phase::Failed);
    }

    /// Whether every worker has terminated normally and been joined.
    pub fn check_all_finished(&self) -> (b: bool)
        ensures
            b == self.all_finished(),
    {
        let n = self.phases.len();
        let mut k: usize = 0;
        while k < n
            invariant
                k <= n,
                n == self.phases@.len(),
                forall|j: int| 0 <= j < k ==> self.phases@[j] is Finished,
            decreases n - k,
        {
            let ph = self.phases[k];
            match ph {
                Phase::Finished => {},
                _ => {
                    assert(!self.all_finished());
                    return false;
                },
            }
            k = k + 1;
        }
        true
    }

    /// After every worker has finished and been joined, the initiator
    /// acquires the lock once more and reads the counter: the value is
    /// exactly the worker count, never a partial count.
    pub fn read_result(&self) -> (r: usize)
        requires
            self.wf(),
            self.all_finished(),
        ensures
            r as int == self.phases@.len(),
            r == self.counter,
    {
        proof {
            lemma_done_count_all(self.phases@);
        }
        self.counter
    }
}

/// Error of a lock acquisition after a holder failed while holding the
/// lock.
#[derive(Clone, Copy, PartialEq, Eq, Structural, Debug)]
pub struct LockPoisoned;

/// Counter determinism: in any well-formed run in which every worker has
/// finished, the counter equals the worker count exactly — no lost updates,
/// whatever order the workers were scheduled in.
pub proof fn lemma_counter_determinism(c: Coordinator)
    requires
        c.wf(),
        c.all_finished(),
    ensures
        c.counter as int == c.phases@.len(),
{
    lemma_done_count_all(c.phases@);
}

/// Join ordering: while some worker has not yet performed its increment,
/// the counter is strictly short of the worker count — so a read before
/// every worker completed could observe a partial count, and reading only
/// after all joins cannot.
pub proof fn lemma_partial_count_before_completion(c: Coordinator, i: int)
    requires
        c.wf(),
        0 <= i < c.phases@.len(),
        !is_done(c.phases@[i]),
    ensures
        (c.counter as int) < c.phases@.len(),
{
    lemma_done_count_partial(c.phases@, i);
}

/// Drives `worker_count` workers through their whole lifecycle one after
/// another, joins them all, and reads the final value: exactly
/// `worker_count`.
pub fn run_workers(worker_count: usize) -> (r: usize)
    ensures
        r == worker_count,
{
    let mut c = Coordinator::new(worker_count);
    let mut i: usize = 0;
    while i < worker_count
        invariant
            i <= worker_count,
            c.wf(),
            c.phases@.len() == worker_count,
            forall|j: int| 0 <= j < i ==> c.phases@[j] is Finished,
            forall|j: int| i <= j < worker_count ==> c.phases@[j] is Spawned,
            c.holder is None,
            !c.poisoned,
        decreases worker_count - i,
    {
        c.request_lock(i);
        match c.acquire(i) {
            Ok(_) => {},
            Err(_) => {
                proof {
                    assert(false);
                }
            },
        }
        c.increment_and_release(i);
        c.finish(i);
        i = i + 1;
    }
    c.read_result()
}

/// The same fan-out under a different schedule — every worker asks for the
/// lock before any acquires it, then the increments happen, then the joins
/// — with the same final value: the result does not depend on the order.
pub fn run_workers_phased(worker_count: usize) -> (r: usize)
    ensures
        r == worker_count,
{
    let mut c = Coordinator::new(worker_count);
    let mut i: usize = 0;
    while i < worker_count
        invariant
            i <= worker_count,
            c.wf(),
            c.phases@.len() == worker_count,
            forall|j: int| 0 <= j < i ==> c.phases@[j] is WaitingForLock,
            forall|j: int| i <= j < worker_count ==> c.phases@[j] is Spawned,
            c.holder is None,
            !c.poisoned,
        decreases worker_count - i,
    {
        c.request_lock(i);
        i = i + 1;
    }
    let mut k: usize = 0;
    while k < worker_count
        invariant
            k <= worker_count,
            c.wf(),
            c.phases@.len() == worker_count,
            forall|j: int| 0 <= j < k ==> c.phases@[j] is Released,
            forall|j: int| k <= j < worker_count ==> c.phases@[j] is WaitingForLock,
            c.holder is None,
            !c.poisoned,
        decreases worker_count - k,
    {
        match c.acquire(k) {
            Ok(_) => {},
            Err(_) => {
                proof {
                    assert(false);
                }
            },
        }
        c.increment_and_release(k);
        k = k + 1;
    }
    let mut m: usize = 0;
    while m < worker_count
        invariant
            m <= worker_count,
            c.wf(),
            c.phases@.len() == worker_count,
            forall|j: int| 0 <= j < m ==> c.phases@[j] is Finished,
            forall|j: int| m <= j < worker_count ==> c.phases@[j] is Released,
        decreases worker_count - m,
    {
        c.finish(m);
        m = m + 1;
    }
    c.read_result()
}

} // verus!
