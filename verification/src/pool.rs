//! The worker pool: a fixed set of workers and one shared FIFO job queue.
//!
//! This module is the dispatch core. A [`Job`] is a one-shot task carrying
//! the state it needs; [`WorkerPool::execute`] appends it to the tail of the
//! shared queue, and a worker takes the head with [`WorkerPool::take_next`].
//! The pool keeps, in ghost state, the full history of submissions and
//! deliveries, and its invariant ties the two together: the submitted jobs
//! are exactly the delivered jobs followed by the jobs still queued. The
//! delivery laws — exactly-once and FIFO — are proved from that invariant.
//!
//! The threads that drive the workers live outside the library; here a
//! worker is its identity, and `take_next` records which worker a job was
//! handed to.

use vstd::prelude::*;

verus! {

/// A one-shot unit of work. Rather than an opaque closure, a job is a task
/// record carrying the connection state it captured: the request line it
/// will answer.
pub struct Job {
    pub id: u64,
    pub request_line: String,
}

impl Job {
    pub fn new(id: u64, request_line: String) -> (job: Job)
        ensures
            job.id == id,
            job.request_line@ == request_line@,
    {
        Job { id, request_line }
    }
}

/// One worker of the pool, identified by its index.
pub struct Worker {
    pub id: usize,
}

impl Worker {
    pub fn new(id: usize) -> (worker: Worker)
        ensures
            worker.id == id,
    {
        Worker { id }
    }
}

/// A fixed set of workers plus the shared submission queue.
pub struct WorkerPool {
    workers: Vec<Worker>,
    queue: Vec<Job>,
    submitted: Ghost<Seq<Job>>,
    delivered: Ghost<Seq<(Job, usize)>>,
}

impl WorkerPool {
    /// The workers, as seen by specifications.
    pub closed spec fn spec_workers(self) -> Seq<Worker> {
        self.workers@
    }

    /// The jobs still waiting in the queue, head first.
    pub closed spec fn spec_queue(self) -> Seq<Job> {
        self.queue@
    }

    /// Every job ever submitted, in submission order.
    pub closed spec fn spec_submitted(self) -> Seq<Job> {
        self.submitted@
    }

    /// Every delivery made so far: the job and the worker that took it, in
    /// delivery order.
    pub closed spec fn spec_delivered(self) -> Seq<(Job, usize)> {
        self.delivered@
    }

    /// The jobs delivered so far, in delivery order.
    pub open spec fn delivered_jobs(self) -> Seq<Job> {
        self.spec_delivered().map_values(|d: (Job, usize)| d.0)
    }

    /// The pool invariant: at least one worker; workers are numbered by
    /// their index; what was submitted is exactly what was delivered
    /// followed by what is still queued; and every delivery named an
    /// existing worker.
    pub open spec fn wf(self) -> bool {
        &&& self.spec_workers().len() >= 1
        &&& forall|i: int|
            0 <= i < self.spec_workers().len() ==> (#[trigger] self.spec_workers()[i]).id == i
        &&& self.spec_submitted() == self.delivered_jobs() + self.spec_queue()
        &&& forall|i: int|
            0 <= i < self.spec_delivered().len() ==> (#[trigger] self.spec_delivered()[i]).1
                < self.spec_workers().len()
    }

    /// Build a pool of `size` workers with an empty queue. A pool of size
    /// zero cannot be constructed.
    pub fn new(size: usize) -> (pool: WorkerPool)
        requires
            size >= 1,
        ensures
            pool.wf(),
            pool.spec_workers().len() == size,
            pool.spec_queue().len() == 0,
            pool.spec_submitted().len() == 0,
            pool.spec_delivered().len() == 0,
    {
        let mut workers: Vec<Worker> = Vec::with_capacity(size);
        let mut id: usize = 0;
        while id < size
            invariant
                id <= size,
                workers@.len() == id,
                forall|i: int| 0 <= i < id ==> (#[trigger] workers@[i]).id == i,
            decreases size - id,
        {
            workers.push(Worker::new(id));
            id = id + 1;
        }
        let pool = WorkerPool {
            workers,
            queue: Vec::new(),
            submitted: Ghost(Seq::empty()),
            delivered: Ghost(Seq::empty()),
        };
        proof {
            assert(pool.spec_submitted() =~= pool.delivered_jobs() + pool.spec_queue());
        }
        pool
    }

    /// Checked construction: a pool is returned exactly when `size` is at
    /// least one; a request for zero workers is refused.
    pub fn try_new(size: usize) -> (result: Option<WorkerPool>)
        ensures
            match result {
                Some(pool) => {
                    &&& size >= 1
                    &&& pool.wf()
                    &&& pool.spec_workers().len() == size
                    &&& pool.spec_queue().len() == 0
                    &&& pool.spec_submitted().len() == 0
                    &&& pool.spec_delivered().len() == 0
                },
                None => size == 0,
            },
    {
        if size == 0 {
            None
        } else {
            Some(WorkerPool::new(size))
        }
    }

    /// How many workers the pool owns.
    pub fn worker_count(&self) -> (n: usize)
        ensures
            n == self.spec_workers().len(),
    {
        self.workers.len()
    }

    /// How many jobs are waiting in the queue.
    pub fn queued_count(&self) -> (n: usize)
        ensures
            n == self.spec_queue().len(),
    {
        self.queue.len()
    }

    /// Submit a job: it is appended to the tail of the shared queue and the
    /// call returns at once — submission never blocks and never rejects
    /// work.
    pub fn execute(&mut self, job: Job)
        requires
            old(self).wf(),
        ensures
            final(self).wf(),
            final(self).spec_workers() == old(self).spec_workers(),
            final(self).spec_queue() == old(self).spec_queue().push(job),
            final(self).spec_submitted() == old(self).spec_submitted().push(job),
            final(self).spec_delivered() == old(self).spec_delivered(),
    {
        self.queue.push(job);
        proof {
            self.submitted@ = self.submitted@.push(job);
            assert(self.spec_submitted() =~= self.delivered_jobs() + self.spec_queue());
        }
    }

    /// Hand the head of the queue to worker `worker_id`, recording the
    /// delivery; `None` exactly when the queue is empty. Removing the head
    /// under the pool's exclusive access is what makes a delivery unique:
    /// a taken job is no longer in the queue for anyone else.
    pub fn take_next(&mut self, worker_id: usize) -> (result: Option<Job>)
        requires
            old(self).wf(),
            worker_id < old(self).spec_workers().len(),
        ensures
            final(self).wf(),
            final(self).spec_workers() == old(self).spec_workers(),
            final(self).spec_submitted() == old(self).spec_submitted(),
            match result {
                Some(job) => {
                    &&& old(self).spec_queue().len() > 0
                    &&& job == old(self).spec_queue()[0]
                    &&& final(self).spec_queue() == old(self).spec_queue().subrange(
                        1,
                        old(self).spec_queue().len() as int,
                    )
                    &&& final(self).spec_delivered() == old(self).spec_delivered().push(
                        (job, worker_id),
                    )
                },
                None => {
                    &&& old(self).spec_queue().len() == 0
                    &&& *final(self) == *old(self)
                },
            },
    {
        if self.queue.len() == 0 {
            None
        } else {
            let job = self.queue.remove(0);
            proof {
                self.delivered@ = self.delivered@.push((job, worker_id));
                assert(self.delivered_jobs() =~= old(self).delivered_jobs().push(job));
                assert(self.spec_queue() =~= old(self).spec_queue().subrange(
                    1,
                    old(self).spec_queue().len() as int,
                ));
                assert(self.spec_submitted() =~= self.delivered_jobs() + self.spec_queue());
            }
            Some(job)
        }
    }
}

/// Exactly-once delivery: once the queue has been drained, the jobs handed
/// out are exactly the jobs submitted — in order, none lost, none
/// duplicated — and each delivery went to a single, existing worker.
pub proof fn lemma_exactly_once_delivery(pool: WorkerPool)
    requires
        pool.wf(),
        pool.spec_queue().len() == 0,
    ensures
        pool.delivered_jobs() == pool.spec_submitted(),
        forall|i: int|
            0 <= i < pool.spec_delivered().len() ==> (#[trigger] pool.spec_delivered()[i]).1
                < pool.spec_workers().len(),
{
    assert(pool.delivered_jobs() =~= pool.delivered_jobs() + pool.spec_queue());
}

/// FIFO dequeueing: at any point, the jobs delivered so far are exactly the
/// first deliveries the submission order calls for — the queue hands jobs
/// out in the order they were submitted.
pub proof fn lemma_fifo_order(pool: WorkerPool)
    requires
        pool.wf(),
    ensures
        pool.delivered_jobs() == pool.spec_submitted().take(pool.spec_delivered().len() as int),
{
    assert(pool.delivered_jobs() =~= (pool.delivered_jobs() + pool.spec_queue()).take(
        pool.spec_delivered().len() as int,
    ));
}

/// The pool never invents capacity: every delivery names one of the pool's
/// `N` workers, so no more than `N` jobs can ever be in execution at once.
pub proof fn lemma_deliveries_within_pool(pool: WorkerPool)
    requires
        pool.wf(),
    ensures
        forall|i: int|
            0 <= i < pool.spec_delivered().len() ==> (#[trigger] pool.spec_delivered()[i]).1
                < pool.spec_workers().len(),
{
}

} // verus!
