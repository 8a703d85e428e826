use vstd::prelude::*;

use crate::job_queue::{JobQueue, Received};
use crate::worker::{busy_in, busy_weight, lemma_busy_bounded, lemma_busy_none, lemma_busy_push, lemma_busy_update, Worker, WorkerState};

verus! {

/// Why a pool could not be built.
#[derive(Clone, Copy, Debug, PartialEq, Eq, Structural)]
pub enum PoolError {
    /// A pool needs at least one worker.
    NoWorkers,
}

/// What a worker is told to do when it asks for work.
#[derive(Debug)]
pub enum Claim<T> {
    /// Run this job, then report back with `finish`.
    Run(T),
    /// Nothing is queued yet: block until a job is submitted, then ask again.
    Wait,
    /// The pool is shutting down and every queued job was handed out: stop.
    Exit,
}

/// The bookkeeping of a fixed-size worker pool: its workers, the shared FIFO
/// queue of submitted jobs, and the shutdown protocol.
///
/// The caller that owns the threads asks `claim` on behalf of a worker, runs
/// the job it gets outside any lock, and reports with `finish`. Shutdown closes
/// the queue; workers keep draining it and are told to exit only once it is
/// empty, so every submitted job is run exactly once.
pub struct ThreadPool<T> {
    workers: Vec<Worker>,
    queue: JobQueue<T>,
    running: usize,
    /// Every job ever submitted, in submission order.
    history: Ghost<Seq<T>>,
    /// How many jobs of `history` were handed to a worker.
    started: Ghost<nat>,
    /// How many handed-out jobs were reported finished.
    finished: Ghost<nat>,
}

impl<T> ThreadPool<T> {
    pub closed spec fn workers_seq(&self) -> Seq<Worker> {
        self.workers@
    }

    pub open spec fn num_workers_spec(&self) -> nat {
        self.workers_seq().len()
    }

    pub open spec fn state_of(&self, id: int) -> WorkerState {
        self.workers_seq()[id].state
    }

    /// Every job submitted so far, oldest first.
    pub closed spec fn submitted(&self) -> Seq<T> {
        self.history@
    }

    /// How many submitted jobs were handed to a worker.
    pub closed spec fn started_count(&self) -> nat {
        self.started@
    }

    /// The jobs handed to workers so far, in the order they were handed out.
    pub open spec fn started_jobs(&self) -> Seq<T> {
        self.submitted().take(self.started_count() as int)
    }

    /// How many handed-out jobs were reported finished.
    pub closed spec fn finished_count(&self) -> nat {
        self.finished@
    }

    /// How many jobs are being run right now.
    pub closed spec fn running_spec(&self) -> nat {
        self.running as nat
    }

    /// Jobs submitted and not yet handed out, oldest first.
    pub closed spec fn pending(&self) -> Seq<T> {
        self.queue.pending()
    }

    /// Whether submissions are still accepted (shutdown not begun).
    pub closed spec fn accepting(&self) -> bool {
        self.queue.spec_is_open()
    }

    pub open spec fn all_terminated(&self) -> bool {
        forall|i: int| 0 <= i < self.num_workers_spec() ==> #[trigger] self.state_of(i)
            == WorkerState::Terminated
    }

    pub closed spec fn wf(&self) -> bool {
        &&& self.workers@.len() >= 1
        &&& forall|i: int| 0 <= i < self.workers@.len() ==> #[trigger] self.workers@[i].id == i
        &&& self.running as nat == busy_in(self.workers@)
        &&& self.started@ <= self.history@.len()
        &&& self.queue.pending() == self.history@.subrange(
            self.started@ as int,
            self.history@.len() as int,
        )
        &&& self.started@ == self.finished@ + self.running
        &&& forall|i: int|
            0 <= i < self.workers@.len() && #[trigger] self.workers@[i].state
                == WorkerState::Terminated ==> !self.queue.spec_is_open()
                && self.queue.pending().len() == 0
    }

    /// Builds a pool of `num_workers` idle workers with indices
    /// `0..num_workers` and an empty, open queue. Fails when `num_workers` is 0.
    pub fn new(num_workers: usize) -> (r: Result<ThreadPool<T>, PoolError>)
        ensures
            num_workers == 0 <==> r == Err::<ThreadPool<T>, PoolError>(PoolError::NoWorkers),
            r is Ok ==> {
                let p = r->Ok_0;
                &&& p.wf()
                &&& p.num_workers_spec() == num_workers
                &&& forall|i: int|
                    #![trigger p.workers_seq()[i]]
                    0 <= i < num_workers ==> p.workers_seq()[i].id == i && p.state_of(i)
                        == WorkerState::Idle
                &&& p.submitted() == Seq::<T>::empty()
                &&& p.started_count() == 0
                &&& p.finished_count() == 0
                &&& p.running_spec() == 0
                &&& p.accepting()
            },
    {
        if num_workers == 0 {
            return Err(PoolError::NoWorkers);
        }
        let mut workers: Vec<Worker> = Vec::with_capacity(num_workers);
        let mut i: usize = 0;
        while i < num_workers
            invariant
                i <= num_workers,
                workers@.len() == i,
                busy_in(workers@) == 0,
                forall|j: int|
                    #![trigger workers@[j]]
                    0 <= j < i ==> workers@[j].id == j && workers@[j].state == WorkerState::Idle,
            decreases num_workers - i,
        {
            let w = Worker::new(i);
            proof {
                lemma_busy_push(workers@, w);
            }
            let ghost before = workers@;
            workers.push(w);
            assert forall|j: int|
                #![trigger workers@[j]]
                0 <= j <= i implies workers@[j].id == j && workers@[j].state
                    == WorkerState::Idle by {
                if j < i {
                    assert(workers@[j] == before[j]);
                } else {
                    assert(workers@[j] == w);
                }
            }
            i = i + 1;
        }
        let pool = ThreadPool {
            workers,
            queue: JobQueue::new(),
            running: 0,
            history: Ghost(Seq::empty()),
            started: Ghost(0),
            finished: Ghost(0),
        };
        assert(pool.queue.pending() =~= pool.history@.subrange(0, 0));
        Ok(pool)
    }

    /// Queues `job` behind every job submitted before it and returns at once.
    /// Submitting after shutdown has begun is a contract violation.
    pub fn execute(&mut self, job: T)
        requires
            old(self).wf(),
            old(self).accepting(),
        ensures
            final(self).wf(),
            final(self).submitted() == old(self).submitted().push(job),
            final(self).workers_seq() == old(self).workers_seq(),
            final(self).started_count() == old(self).started_count(),
            final(self).finished_count() == old(self).finished_count(),
            final(self).running_spec() == old(self).running_spec(),
            final(self).accepting(),
    {
        self.queue.send(job);
        self.history = Ghost(self.history@.push(job));
        assert(self.queue.pending() =~= self.history@.subrange(
            self.started@ as int,
            self.history@.len() as int,
        ));
    }

    /// Asks for work on behalf of the idle worker `id`. Hands out the oldest
    /// queued job, so jobs start in submission order whichever worker asks;
    /// tells the worker to wait while the queue is empty and open, and to exit
    /// once it is closed and empty.
    pub fn claim(&mut self, id: usize) -> (r: Claim<T>)
        requires
            old(self).wf(),
            id < old(self).num_workers_spec(),
            old(self).state_of(id as int) == WorkerState::Idle,
        ensures
            final(self).wf(),
            final(self).submitted() == old(self).submitted(),
            final(self).finished_count() == old(self).finished_count(),
            final(self).accepting() == old(self).accepting(),
            final(self).num_workers_spec() == old(self).num_workers_spec(),
            forall|j: int|
                #![trigger final(self).workers_seq()[j]]
                0 <= j < old(self).num_workers_spec() && j != id ==> final(self).workers_seq()[j]
                    == old(self).workers_seq()[j],
            final(self).workers_seq()[id as int].id == id,
            old(self).started_count() < old(self).submitted().len() ==> {
                &&& r == Claim::Run(old(self).submitted()[old(self).started_count() as int])
                &&& final(self).started_count() == old(self).started_count() + 1
                &&& final(self).running_spec() == old(self).running_spec() + 1
                &&& final(self).state_of(id as int) == WorkerState::Busy
            },
            old(self).started_count() == old(self).submitted().len() ==> {
                &&& final(self).started_count() == old(self).started_count()
                &&& final(self).running_spec() == old(self).running_spec()
                &&& if old(self).accepting() {
                    r == Claim::<T>::Wait && final(self).state_of(id as int) == WorkerState::Idle
                } else {
                    r == Claim::<T>::Exit && final(self).state_of(id as int)
                        == WorkerState::Terminated
                }
            },
    {
        let ghost before = self.workers@;
        let n = self.workers.len();
        match self.queue.receive() {
            Received::Item(job) => {
                let w = Worker { id, state: WorkerState::Busy };
                proof {
                    lemma_busy_update(before, id as int, w);
                    lemma_busy_bounded(before.update(id as int, w));
                }
                self.workers.set(id, w);
                self.running = self.running + 1;
                self.started = Ghost(self.started@ + 1);
                assert(self.queue.pending() =~= self.history@.subrange(
                    self.started@ as int,
                    self.history@.len() as int,
                ));
                Claim::Run(job)
            },
            Received::Empty => Claim::Wait,
            Received::Closed => {
                let w = Worker { id, state: WorkerState::Terminated };
                proof {
                    lemma_busy_update(before, id as int, w);
                }
                self.workers.set(id, w);
                Claim::Exit
            },
        }
    }

    /// Reports that busy worker `id` is done with its job, whether the job
    /// completed or failed; the worker is idle again and may claim more work.
    pub fn finish(&mut self, id: usize)
        requires
            old(self).wf(),
            id < old(self).num_workers_spec(),
            old(self).state_of(id as int) == WorkerState::Busy,
        ensures
            final(self).wf(),
            final(self).submitted() == old(self).submitted(),
            final(self).started_count() == old(self).started_count(),
            final(self).finished_count() == old(self).finished_count() + 1,
            final(self).running_spec() + 1 == old(self).running_spec(),
            final(self).pending() == old(self).pending(),
            final(self).accepting() == old(self).accepting(),
            final(self).workers_seq() == old(self).workers_seq().update(
                id as int,
                Worker { id, state: WorkerState::Idle },
            ),
    {
        let w = Worker { id, state: WorkerState::Idle };
        proof {
            lemma_busy_update(self.workers@, id as int, w);
        }
        self.workers.set(id, w);
        self.running = self.running - 1;
        self.finished = Ghost(self.finished@ + 1);
    }

    /// Begins shutdown: no job may be submitted any more, while the jobs
    /// already queued stay queued and are still handed out. Returns the worker
    /// indices in the order their threads are to be joined, increasing.
    pub fn shutdown(&mut self) -> (r: Vec<usize>)
        requires
            old(self).wf(),
        ensures
            final(self).wf(),
            !final(self).accepting(),
            final(self).submitted() == old(self).submitted(),
            final(self).pending() == old(self).pending(),
            final(self).started_count() == old(self).started_count(),
            final(self).finished_count() == old(self).finished_count(),
            final(self).running_spec() == old(self).running_spec(),
            final(self).workers_seq() == old(self).workers_seq(),
            r@.len() == old(self).num_workers_spec(),
            forall|i: int| 0 <= i < r@.len() ==> #[trigger] r@[i] == i,
    {
        self.queue.close();
        let n = self.workers.len();
        let mut order: Vec<usize> = Vec::with_capacity(n);
        let mut i: usize = 0;
        while i < n
            invariant
                n == self.workers@.len(),
                i <= n,
                order@.len() == i,
                forall|j: int| 0 <= j < i ==> #[trigger] order@[j] == j,
            decreases n - i,
        {
            order.push(i);
            i = i + 1;
        }
        order
    }

    pub fn num_workers(&self) -> (r: usize)
        requires
            self.wf(),
        ensures
            r == self.num_workers_spec(),
    {
        self.workers.len()
    }

    /// The worker with index `id`.
    pub fn worker(&self, id: usize) -> (r: Worker)
        requires
            self.wf(),
            id < self.num_workers_spec(),
        ensures
            r == self.workers_seq()[id as int],
    {
        self.workers[id]
    }

    /// How many workers are running a job right now.
    pub fn running(&self) -> (r: usize)
        requires
            self.wf(),
        ensures
            r == self.running_spec(),
    {
        self.running
    }

    /// How many submitted jobs wait to be handed out.
    pub fn pending_len(&self) -> (r: usize)
        requires
            self.wf(),
        ensures
            r == self.pending().len(),
    {
        self.queue.len()
    }

    /// Whether submissions are still accepted.
    pub fn is_accepting(&self) -> (r: bool)
        requires
            self.wf(),
        ensures
            r == self.accepting(),
    {
        self.queue.is_open()
    }

    /// Whether every worker has left its loop.
    pub fn is_terminated(&self) -> (r: bool)
        requires
            self.wf(),
        ensures
            r == self.all_terminated(),
    {
        let mut i: usize = 0;
        while i < self.workers.len()
            invariant
                i <= self.workers@.len(),
                forall|j: int| 0 <= j < i ==> #[trigger] self.state_of(j) == WorkerState::Terminated,
            decreases self.workers@.len() - i,
        {
            if self.workers[i].state != WorkerState::Terminated {
                assert(self.state_of(i as int) != WorkerState::Terminated);
                return false;
            }
            i = i + 1;
        }
        true
    }
}

/// Jobs are handed out in submission order, each at most once, and none is
/// skipped: the jobs started so far are a prefix of the submitted ones, and
/// the queue holds exactly the rest, in order.
pub proof fn lemma_jobs_start_in_submission_order<T>(pool: &ThreadPool<T>)
    requires
        pool.wf(),
    ensures
        pool.started_count() <= pool.submitted().len(),
        pool.started_jobs() + pool.pending() == pool.submitted(),
        pool.pending().len() + pool.started_count() == pool.submitted().len(),
{
    assert(pool.started_jobs() + pool.pending() =~= pool.submitted());
}

/// At most as many jobs run at once as the pool has workers. Every started
/// job is either running or finished, and while all workers are busy none is
/// idle, so no further job can be claimed until one of them finishes.
pub proof fn lemma_running_within_pool_size<T>(pool: &ThreadPool<T>)
    requires
        pool.wf(),
    ensures
        pool.running_spec() <= pool.num_workers_spec(),
        pool.started_count() == pool.finished_count() + pool.running_spec(),
        pool.running_spec() == pool.num_workers_spec() ==> forall|i: int|
            0 <= i < pool.num_workers_spec() ==> #[trigger] pool.state_of(i) == WorkerState::Busy,
{
    lemma_busy_bounded(pool.workers@);
}

/// Once every worker has exited, shutdown lost nothing: the queue is closed
/// and empty, every submitted job was handed out exactly once, in order, and
/// every one of them finished.
pub proof fn lemma_terminated_pool_ran_every_job<T>(pool: &ThreadPool<T>)
    requires
        pool.wf(),
        pool.all_terminated(),
    ensures
        !pool.accepting(),
        pool.pending().len() == 0,
        pool.started_jobs() == pool.submitted(),
        pool.running_spec() == 0,
        pool.finished_count() == pool.submitted().len(),
{
    assert(pool.state_of(0) == WorkerState::Terminated);
    assert(pool.workers@[0].state == WorkerState::Terminated);
    assert forall|i: int| 0 <= i < pool.workers@.len() implies #[trigger] pool.workers@[i].state
        != WorkerState::Busy by {
        assert(pool.state_of(i) == WorkerState::Terminated);
    }
    lemma_busy_none(pool.workers@);
    assert(pool.started_jobs() =~= pool.submitted());
}

} // verus!
