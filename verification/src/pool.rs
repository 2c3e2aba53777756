use vstd::prelude::*;
use std::collections::VecDeque;
use vstd::multiset::Multiset;

verus! {

broadcast use vstd::seq_lib::group_to_multiset_ensures;

/// The multiset holding each job identifier below `n` exactly once.
pub open spec fn ids_below(n: int) -> Multiset<u64>
    decreases n,
{
    if n <= 0 {
        Multiset::empty()
    } else {
        ids_below(n - 1).insert((n - 1) as u64)
    }
}

/// Each identifier below `n` is in `ids_below(n)` exactly once, and no
/// other identifier is in it at all.
pub proof fn lemma_ids_below_count(n: int, id: u64)
    requires
        n <= u64::MAX + 1,
    ensures
        ids_below(n).count(id) == if id < n {
            1int
        } else {
            0int
        },
    decreases n,
{
    if n > 0 {
        lemma_ids_below_count(n - 1, id);
    }
}

/// Mathematical image of the pool's bookkeeping.
pub ghost struct PoolView {
    /// Number of workers, fixed at construction.
    pub size: int,
    /// Identifier the next submitted job will get.
    pub next_job: int,
    /// Jobs submitted and not yet taken by a worker, oldest first.
    pub pending: Seq<u64>,
    /// Jobs a worker has taken and not yet finished.
    pub running: Seq<u64>,
    /// Jobs executed to completion, whether they succeeded or failed.
    pub finished: Seq<u64>,
    /// The finished jobs whose execution raised a failure.
    pub failed: Seq<u64>,
}

/// Conservation of jobs: every job ever submitted is pending, running or
/// finished — in exactly one place, exactly once.
pub open spec fn pool_wf(p: PoolView) -> bool {
    &&& p.size >= 1
    &&& 0 <= p.next_job <= u64::MAX
    &&& p.pending.to_multiset().add(p.running.to_multiset()).add(p.finished.to_multiset())
        == ids_below(p.next_job)
}

/// Bookkeeping of the fixed-size worker pool: which submitted jobs are
/// still queued, which are being executed, and which have finished.
///
/// A job here is bare identity: the work itself is an opaque action with
/// no return value, executed for its side effects by whichever worker
/// becomes free first.  Execution order across workers is not guaranteed;
/// only the queue itself is first-in, first-out.
///
/// The queue is unbounded and a job runs to completion once taken: no
/// depth limit, backpressure or per-job timeout is part of the minimal
/// contract, and a production deployment would want to add them.
pub struct PoolState {
    size: usize,
    next_job: u64,
    pending: VecDeque<u64>,
    running: Vec<u64>,
    finished: Vec<u64>,
    failed: Vec<u64>,
}

impl View for PoolState {
    type V = PoolView;

    closed spec fn view(&self) -> PoolView {
        PoolView {
            size: self.size as int,
            next_job: self.next_job as int,
            pending: self.pending@,
            running: self.running@,
            finished: self.finished@,
            failed: self.failed@,
        }
    }
}

impl PoolState {
    /// A pool of exactly `size` long-lived workers and an empty queue.
    pub fn new(size: usize) -> (r: PoolState)
        requires
            size >= 1,
        ensures
            pool_wf(r@),
            r@.size == size as int,
            r@.next_job == 0,
            r@.pending == Seq::<u64>::empty(),
            r@.running == Seq::<u64>::empty(),
            r@.finished == Seq::<u64>::empty(),
            r@.failed == Seq::<u64>::empty(),
    {
        let r = PoolState {
            size,
            next_job: 0,
            pending: VecDeque::new(),
            running: Vec::new(),
            finished: Vec::new(),
            failed: Vec::new(),
        };
        proof {
            lemma_empty_seq_multiset(r.pending@);
            lemma_empty_seq_multiset(r.running@);
            lemma_empty_seq_multiset(r.finished@);
            assert(r.pending@.to_multiset().add(r.running@.to_multiset()).add(
                r.finished@.to_multiset(),
            ) =~= ids_below(0));
        }
        r
    }

    /// A pool sized to the number of available execution units.
    pub fn with_default_size() -> (r: PoolState)
        ensures
            pool_wf(r@),
            r@.size >= 1,
            r@.next_job == 0,
            r@.pending == Seq::<u64>::empty(),
            r@.running == Seq::<u64>::empty(),
            r@.finished == Seq::<u64>::empty(),
            r@.failed == Seq::<u64>::empty(),
    {
        PoolState::new(default_pool_size())
    }

    /// Enqueues one job and returns its identifier: a non-blocking,
    /// fire-and-forget submission, appended at the back of the queue.
    pub fn submit(&mut self) -> (id: u64)
        requires
            pool_wf(old(self)@),
            old(self)@.next_job < u64::MAX,
        ensures
            pool_wf(final(self)@),
            id == old(self)@.next_job,
            final(self)@ == (PoolView {
                next_job: old(self)@.next_job + 1,
                pending: old(self)@.pending.push(id),
                ..old(self)@
            }),
    {
        let id = self.next_job;
        self.next_job = self.next_job + 1;
        self.pending.push_back(id);
        proof {
            assert(self.pending@.to_multiset().add(self.running@.to_multiset()).add(
                self.finished@.to_multiset(),
            ) =~= ids_below(self.next_job as int));
        }
        id
    }

    /// Hands the oldest queued job to a worker that became free, or
    /// reports an empty queue: the blocking dequeue's decision step.
    pub fn take(&mut self) -> (r: Option<u64>)
        requires
            pool_wf(old(self)@),
        ensures
            pool_wf(final(self)@),
            match r {
                Some(id) => {
                    &&& old(self)@.pending.len() > 0
                    &&& id == old(self)@.pending[0]
                    &&& final(self)@ == (PoolView {
                        pending: old(self)@.pending.drop_first(),
                        running: old(self)@.running.push(id),
                        ..old(self)@
                    })
                },
                None => {
                    &&& old(self)@.pending.len() == 0
                    &&& final(self)@ == old(self)@
                },
            },
    {
        let ghost pre: Seq<u64> = self.pending@;
        match self.pending.pop_front() {
            None => None,
            Some(id) => {
                self.running.push(id);
                proof {
                    assert(pre.remove(0) =~= pre.drop_first());
                    assert(self.pending@.to_multiset().add(self.running@.to_multiset()).add(
                        self.finished@.to_multiset(),
                    ) =~= ids_below(self.next_job as int));
                }
                Some(id)
            },
        }
    }

    /// Number of jobs ever submitted — also the identifier the next
    /// submission will get.
    pub fn submitted(&self) -> (r: u64)
        ensures
            r as int == self@.next_job,
    {
        self.next_job
    }

    /// Whether job `id` is currently held by a worker.
    pub fn is_running(&self, id: u64) -> (r: bool)
        ensures
            r == self@.running.contains(id),
    {
        let n: usize = self.running.len();
        let mut j: usize = 0;
        while j < n
            invariant
                j <= n,
                n == self.running@.len(),
                forall|k: int| 0 <= k < j ==> self.running@[k] != id,
            decreases n - j,
        {
            if self.running[j] == id {
                proof {
                    assert(self.running@[j as int] == id);
                }
                return true;
            }
            j = j + 1;
        }
        proof {
            if self.running@.contains(id) {
                let w = choose|w: int| 0 <= w < self.running@.len() && self.running@[w] == id;
                assert(self.running@[w] != id);
            }
        }
        false
    }

    /// Records that a worker executed job `id` to completion.  A job whose
    /// execution failed is recorded as finished all the same — the failure
    /// is isolated, noted under `failed`, and the worker goes on serving
    /// the queue.
    pub fn finish(&mut self, id: u64, succeeded: bool)
        requires
            pool_wf(old(self)@),
            old(self)@.running.contains(id),
        ensures
            pool_wf(final(self)@),
            final(self)@.running.to_multiset() == old(self)@.running.to_multiset().remove(id),
            final(self)@.finished == old(self)@.finished.push(id),
            final(self)@.failed == if succeeded {
                old(self)@.failed
            } else {
                old(self)@.failed.push(id)
            },
            final(self)@.pending == old(self)@.pending,
            final(self)@.next_job == old(self)@.next_job,
            final(self)@.size == old(self)@.size,
    {
        let ghost pre: Seq<u64> = self.running@;
        let n: usize = self.running.len();
        let mut j: usize = 0;
        while j < n && self.running[j] != id
            invariant
                j <= n,
                n == self.running@.len(),
                self.running@ == pre,
                pre.contains(id),
                forall|k: int| 0 <= k < j ==> pre[k] != id,
            decreases n - j,
        {
            j = j + 1;
        }
        proof {
            if j >= n {
                let w = choose|w: int| 0 <= w < pre.len() && pre[w] == id;
                assert(pre[w] != id);
            }
            assert(j < n && pre[j as int] == id);
        }
        self.running.remove(j);
        self.finished.push(id);
        if !succeeded {
            self.failed.push(id);
        }
        proof {
            assert(self.pending@.to_multiset().add(self.running@.to_multiset()).add(
                self.finished@.to_multiset(),
            ) =~= ids_below(self.next_job as int));
        }
    }
}

/// An empty sequence carries an empty multiset.
proof fn lemma_empty_seq_multiset(s: Seq<u64>)
    requires
        s.len() == 0,
    ensures
        s.to_multiset() == Multiset::<u64>::empty(),
{
    assert(s.to_multiset() =~= Multiset::<u64>::empty());
}

/// Law: when the queue is empty and no worker holds a job, every job ever
/// submitted to the pool has been executed — each exactly once, the
/// failed ones included.
pub proof fn lemma_all_jobs_finish_once(p: PoolView)
    requires
        pool_wf(p),
        p.pending.len() == 0,
        p.running.len() == 0,
    ensures
        p.finished.to_multiset() == ids_below(p.next_job),
        forall|id: u64|
            id < p.next_job ==> #[trigger] p.finished.to_multiset().count(id) == 1,
        forall|id: u64|
            id >= p.next_job ==> #[trigger] p.finished.to_multiset().count(id) == 0,
{
    lemma_empty_seq_multiset(p.pending);
    lemma_empty_seq_multiset(p.running);
    assert(p.finished.to_multiset() =~= p.pending.to_multiset().add(
        p.running.to_multiset(),
    ).add(p.finished.to_multiset()));
    assert forall|id: u64| id < p.next_job implies #[trigger] p.finished.to_multiset().count(id)
        == 1 by {
        lemma_ids_below_count(p.next_job, id);
    }
    assert forall|id: u64| id >= p.next_job implies #[trigger] p.finished.to_multiset().count(
        id,
    ) == 0 by {
        lemma_ids_below_count(p.next_job, id);
    }
}

/// Relies on num_cpus::get: the number of available logical CPUs of the
/// current system, documented to always be at least 1.
#[verifier::external_body]
fn available_cpus() -> (r: usize)
    ensures
        r >= 1,
{
    num_cpus::get()
}

/// Pool size used when the caller does not choose one: the number of
/// available execution units reported by the system.
pub fn default_pool_size() -> (r: usize)
    ensures
        r >= 1,
{
    available_cpus()
}

} // verus!
