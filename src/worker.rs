use vstd::prelude::*;

verus! {

/// Where a worker is in its claim-execute loop.
#[derive(Clone, Copy, Debug, PartialEq, Eq, Structural)]
pub enum WorkerState {
    /// Ready to claim the next job.
    Idle,
    /// Running the job it claimed last.
    Busy,
    /// Saw the queue closed and drained, and left its loop for good.
    Terminated,
}

/// One execution unit of the pool, identified by its index.
#[derive(Clone, Copy, Debug)]
pub struct Worker {
    /// Index of the worker, fixed when the pool is built.
    pub id: usize,
    pub state: WorkerState,
}

/// 1 for a busy worker, 0 otherwise.
pub open spec fn busy_weight(w: Worker) -> nat {
    if w.state == WorkerState::Busy {
        1
    } else {
        0
    }
}

/// How many workers of `ws` are running a job.
pub open spec fn busy_in(ws: Seq<Worker>) -> nat
    decreases ws.len(),
{
    if ws.len() == 0 {
        0
    } else {
        busy_in(ws.drop_last()) + busy_weight(ws.last())
    }
}

pub proof fn lemma_busy_push(ws: Seq<Worker>, w: Worker)
    ensures
        busy_in(ws.push(w)) == busy_in(ws) + busy_weight(w),
{
    assert(ws.push(w).drop_last() =~= ws);
}

pub proof fn lemma_busy_bounded(ws: Seq<Worker>)
    ensures
        busy_in(ws) <= ws.len(),
        busy_in(ws) == ws.len() ==> forall|i: int|
            0 <= i < ws.len() ==> #[trigger] ws[i].state == WorkerState::Busy,
    decreases ws.len(),
{
    if ws.len() > 0 {
        lemma_busy_bounded(ws.drop_last());
        if busy_in(ws) == ws.len() {
            assert forall|i: int| 0 <= i < ws.len() implies #[trigger] ws[i].state
                == WorkerState::Busy by {
                if i < ws.len() - 1 {
                    assert(ws.drop_last()[i] == ws[i]);
                }
            }
        }
    }
}

pub proof fn lemma_busy_update(ws: Seq<Worker>, i: int, w: Worker)
    requires
        0 <= i < ws.len(),
    ensures
        busy_in(ws.update(i, w)) + busy_weight(ws[i]) == busy_in(ws) + busy_weight(w),
    decreases ws.len(),
{
    let u = ws.update(i, w);
    if i == ws.len() - 1 {
        assert(u.drop_last() =~= ws.drop_last());
    } else {
        assert(u.drop_last() =~= ws.drop_last().update(i, w));
        lemma_busy_update(ws.drop_last(), i, w);
    }
}

pub proof fn lemma_busy_none(ws: Seq<Worker>)
    requires
        forall|i: int| 0 <= i < ws.len() ==> #[trigger] ws[i].state != WorkerState::Busy,
    ensures
        busy_in(ws) == 0,
    decreases ws.len(),
{
    if ws.len() > 0 {
        assert forall|i: int| 0 <= i < ws.drop_last().len() implies #[trigger] ws.drop_last()[i].state
            != WorkerState::Busy by {
            assert(ws.drop_last()[i] == ws[i]);
        }
        lemma_busy_none(ws.drop_last());
        assert(ws.last() == ws[ws.len() - 1]);
    }
}

impl Worker {
    /// A fresh worker with index `id`, ready to claim a job.
    pub fn new(id: usize) -> (r: Worker)
        ensures
            r.id == id,
            r.state == WorkerState::Idle,
    {
        Worker { id, state: WorkerState::Idle }
    }
}

} // verus!
