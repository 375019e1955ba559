//! A fixed-size worker pool: the count of running jobs, the submission side
//! of the job queue, one turn of a worker, and the pool that ties them
//! together.
//!
//! The pool does not start threads itself. Its constructor is given the
//! function that starts one worker, so the same pool runs on whatever the
//! embedding program uses for threads; a worker's thread calls [`serve_one`]
//! until it returns `false`.

use crate::sync::{lock_take, restore};
use crossbeam_channel::{Receiver, Sender};
use std::sync::{Arc, Condvar, Mutex, MutexGuard};
use vstd::prelude::*;

verus! {

/// How many jobs are being executed right now.
#[derive(Debug)]
pub struct JobCount {
    running: usize,
}

impl JobCount {
    /// The number of running jobs.
    pub closed spec fn view(&self) -> nat {
        self.running as nat
    }

    /// No job is running.
    pub fn new() -> (count: Self)
        ensures
            count@ == 0,
    {
        JobCount { running: 0 }
    }

    /// The number of running jobs.
    pub fn running(&self) -> (n: usize)
        ensures
            n == self@,
    {
        self.running
    }

    /// Whether at least one job is running.
    pub fn is_busy(&self) -> (busy: bool)
        ensures
            busy == (self@ > 0),
    {
        self.running > 0
    }

    /// Whether one more job can be counted.
    pub fn has_room(&self) -> (room: bool)
        ensures
            room == (self@ < usize::MAX),
    {
        self.running < usize::MAX
    }

    /// A worker begins a job.
    pub fn start(&mut self)
        requires
            old(self)@ < usize::MAX,
        ensures
            final(self)@ == old(self)@ + 1,
    {
        self.running = self.running + 1;
    }

    /// A worker has finished a job.
    pub fn finish(&mut self)
        requires
            old(self)@ > 0,
        ensures
            final(self)@ == old(self)@ - 1,
    {
        self.running = self.running - 1;
    }
}

impl Default for JobCount {
    fn default() -> (count: Self)
        ensures
            count@ == 0,
    {
        JobCount::new()
    }
}

/// `Condvar::wait_while` on the job count: stores `count` behind the guard,
/// releases the lock and sleeps until the stored count is no longer busy, then
/// moves that count out with the lock held again. The count that comes back
/// is therefore idle. A poisoned mutex aborts the calling thread.
#[verifier::external_body]
fn wait_idle<'a>(cv: &Condvar, guard: MutexGuard<'a, JobCount>, count: JobCount) -> (held: (
    MutexGuard<'a, JobCount>,
    JobCount,
))
    ensures
        held.1@ == 0,
{
    let mut guard = guard;
    *guard = count;
    let mut guard = cv.wait_while(guard, |c: &mut JobCount| c.is_busy()).unwrap();
    let count = std::mem::take(&mut *guard);
    (guard, count)
}

/// The job count of a pool, shared between the pool and its workers.
#[derive(Debug)]
pub struct ThreadPoolInner {
    job_count: Mutex<JobCount>,
    empty_condvar: Condvar,
}

impl Default for ThreadPoolInner {
    fn default() -> Self {
        ThreadPoolInner::new()
    }
}

impl ThreadPoolInner {
    /// A counter at zero.
    pub fn new() -> Self {
        ThreadPoolInner { job_count: Mutex::new(JobCount::new()), empty_condvar: Condvar::new() }
    }

    /// Counts one more running job. A count that is already at the machine's
    /// limit stays there.
    pub fn start_job(&self) {
        let (guard, mut count) = lock_take(&self.job_count);
        if count.has_room() {
            count.start();
        }
        restore(guard, count);
    }

    /// Counts one running job less and wakes the threads that wait for the
    /// pool to fall idle. A count of zero stays at zero.
    pub fn finish_job(&self) {
        let (guard, mut count) = lock_take(&self.job_count);
        if count.is_busy() {
            count.finish();
        }
        restore(guard, count);
        self.empty_condvar.notify_all();
    }

    /// Blocks until no job is running.
    ///
    /// Only jobs that a worker has begun are counted. A job that is queued
    /// and not yet taken does not hold this call back.
    pub fn wait_empty(&self) {
        let (guard, count) = lock_take(&self.job_count);
        let (guard, count) = wait_idle(&self.empty_condvar, guard, count);
        restore(guard, count);
    }
}

/// `crossbeam_channel::Sender`, carried as an opaque value.
#[verifier::external_type_specification]
#[verifier::external_body]
#[verifier::reject_recursive_types(T)]
pub struct ExSender<T>(Sender<T>);

/// `crossbeam_channel::Receiver`, carried as an opaque value.
#[verifier::external_type_specification]
#[verifier::external_body]
#[verifier::reject_recursive_types(T)]
pub struct ExReceiver<T>(Receiver<T>);

/// `crossbeam_channel::unbounded`: the two ends of a new queue without a
/// capacity limit.
pub assume_specification<T>[ crossbeam_channel::unbounded::<T> ]() -> (ends: (
    Sender<T>,
    Receiver<T>,
));

/// `Sender::send`: puts `job` into the queue. Where every receiving end is
/// gone the job is not queued and comes back, unchanged.
#[verifier::external_body]
fn send_job<J>(sender: &Sender<J>, job: J) -> (refused: Option<J>)
    ensures
        refused is Some ==> refused == Some(job),
{
    match sender.send(job) {
        Ok(()) => None,
        Err(error) => Some(error.into_inner()),
    }
}

/// `Receiver::recv`: blocks until a job can be taken from the queue, or until
/// the queue is empty and every sending end is gone, which gives `None`.
#[verifier::external_body]
fn next_job<J>(receiver: &Receiver<J>) -> (job: Option<J>) {
    match receiver.recv() {
        Ok(job) => Some(job),
        Err(_) => None,
    }
}

/// What became of a submitted job.
#[derive(Debug)]
pub enum Submitted<J> {
    /// The job is in the queue.
    Queued,
    /// The queue had been closed: the job is handed back.
    Closed(J),
    /// No worker is left to receive: the job is handed back.
    Disconnected(J),
}

/// The submitting end of a pool's job queue. It is open from its creation
/// until `close`, and stays closed from then on.
#[derive(Debug)]
#[verifier::reject_recursive_types(J)]
pub struct JobQueue<J> {
    sender: Option<Sender<J>>,
}

impl<J> JobQueue<J> {
    /// Whether jobs are still accepted.
    pub closed spec fn is_open(&self) -> bool {
        self.sender is Some
    }

    /// A new queue: its open submitting end, and the receiving end that the
    /// workers share.
    pub fn open() -> (ends: (Self, Receiver<J>))
        ensures
            ends.0.is_open(),
    {
        let (sender, receiver) = crossbeam_channel::unbounded();
        (JobQueue { sender: Some(sender) }, receiver)
    }

    /// Whether jobs are still accepted.
    pub fn accepts(&self) -> (open: bool)
        ensures
            open == self.is_open(),
    {
        self.sender.is_some()
    }

    /// Enqueues `job` for some worker and returns without waiting for it to
    /// start. A closed queue hands the job back, and so does an open one
    /// that no worker listens to any more.
    pub fn execute(&self, job: J) -> (outcome: Submitted<J>)
        ensures
            !self.is_open() ==> outcome == Submitted::Closed(job),
            self.is_open() ==> outcome is Queued || outcome == Submitted::Disconnected(job),
    {
        match &self.sender {
            Some(sender) => match send_job(sender, job) {
                None => Submitted::Queued,
                Some(job) => Submitted::Disconnected(job),
            },
            None => Submitted::Closed(job),
        }
    }

    /// Stops accepting jobs. The jobs already queued stay in the queue; once
    /// they are taken, the workers see the queue closed and empty.
    pub fn close(&mut self)
        ensures
            !final(self).is_open(),
    {
        self.sender = None;
    }
}

/// One turn of a worker: waits for the next job and runs it, counted as
/// running from just before it starts until just after it returns. Returns
/// `false`, without running anything, once the queue is closed and empty:
/// the worker then ends.
pub fn serve_one<J: FnOnce()>(receiver: &Receiver<J>, inner: &ThreadPoolInner) -> (served: bool)
    requires
        forall|job: J| job.requires(()),
    ensures
        served ==> exists|job: J| job.ensures((), ()),
{
    let received = next_job(receiver);
    serve_received(received, inner)
}

/// What a worker does with what the queue gave it. A job is run, once,
/// counted as running from just before it starts until just after it
/// returns, and the worker goes on. With `None` the queue is closed and
/// empty: nothing is run, and the worker ends.
pub fn serve_received<J: FnOnce()>(received: Option<J>, inner: &ThreadPoolInner) -> (served: bool)
    requires
        received matches Some(job) ==> job.requires(()),
    ensures
        served == received is Some,
        received matches Some(job) ==> job.ensures((), ()),
{
    match received {
        Some(job) => {
            inner.start_job();
            job();
            inner.finish_job();
            true
        },
        None => false,
    }
}

/// `Receiver::clone`: one more receiving end of the same queue. A job is
/// delivered to one of the ends, not to each.
#[verifier::external_body]
fn share_receiver<J>(receiver: &Receiver<J>) -> (shared: Receiver<J>) {
    receiver.clone()
}

/// `Arc::clone`: one more handle on the same counter.
#[verifier::external_body]
fn share_counter(counter: &Arc<ThreadPoolInner>) -> (shared: Arc<ThreadPoolInner>)
    ensures
        shared == *counter,
{
    Arc::clone(counter)
}

/// Whether `worker` is what `spawn` returned for `id`, some receiving end of
/// a queue, and `counter`.
pub open spec fn started_by<J, W, F: Fn(usize, Receiver<J>, Arc<ThreadPoolInner>) -> W>(
    spawn: F,
    id: usize,
    counter: Arc<ThreadPoolInner>,
    worker: W,
) -> bool {
    exists|receiver: Receiver<J>| #[trigger] spawn.ensures((id, receiver, counter), worker)
}

/// Thread pool with a fixed number of workers of type `W`, for jobs of type
/// `J`.
///
/// The fields are dropped in the order written: the queue is closed first,
/// then the workers are dropped. A worker that joins its thread when dropped
/// therefore sees the queue closed, works off what is left in it, and ends.
#[derive(Debug)]
#[verifier::reject_recursive_types(J)]
pub struct ThreadPool<J, W> {
    job_queue: JobQueue<J>,
    workers: Vec<W>,
    pool_inner: Arc<ThreadPoolInner>,
}

impl<J, W> ThreadPool<J, W> {
    /// The workers, in the order in which they were started.
    pub closed spec fn workers(&self) -> Seq<W> {
        self.workers@
    }

    /// Whether the pool still accepts jobs.
    pub closed spec fn is_open(&self) -> bool {
        self.job_queue.is_open()
    }

    /// The job count that the pool shares with its workers.
    pub closed spec fn counter(&self) -> Arc<ThreadPoolInner> {
        self.pool_inner
    }

    /// Create a new pool with `size` workers. Worker `id` is what `spawn`
    /// returns for `id`, a receiving end of the pool's queue and the pool's
    /// job count; the ids are `0` to `size - 1`, in this order.
    ///
    /// There is no pool without workers: `size` must not be 0.
    pub fn new<F>(size: usize, spawn: F) -> (pool: Self) where
        F: Fn(usize, Receiver<J>, Arc<ThreadPoolInner>) -> W,

        requires
            size > 0,
            forall|id: usize, receiver: Receiver<J>, counter: Arc<ThreadPoolInner>|
                spawn.requires((id, receiver, counter)),
        ensures
            pool.is_open(),
            pool.workers().len() == size,
            forall|i: int|
                0 <= i < size ==> started_by(
                    spawn,
                    i as usize,
                    pool.counter(),
                    #[trigger] pool.workers()[i],
                ),
    {
        let (job_queue, receiver) = JobQueue::open();
        let pool_inner = Arc::new(ThreadPoolInner::new());
        let mut workers: Vec<W> = Vec::with_capacity(size);
        let mut id: usize = 0;
        while id < size
            invariant
                id <= size,
                workers@.len() == id,
                forall|id: usize, receiver: Receiver<J>, counter: Arc<ThreadPoolInner>|
                    spawn.requires((id, receiver, counter)),
                forall|i: int|
                    0 <= i < id ==> started_by(spawn, i as usize, pool_inner, #[trigger] workers@[i]),
            decreases size - id,
        {
            let worker = spawn(id, share_receiver(&receiver), share_counter(&pool_inner));
            workers.push(worker);
            id = id + 1;
        }
        ThreadPool { job_queue, workers, pool_inner }
    }

    /// The number of workers.
    pub fn size(&self) -> (size: usize)
        ensures
            size == self.workers().len(),
    {
        self.workers.len()
    }

    /// Execute a new job in the pool: it is queued for some worker, and the
    /// call returns without waiting for it. After `shutdown` the job is
    /// handed back and never runs.
    pub fn execute(&self, job: J) -> (outcome: Submitted<J>)
        ensures
            !self.is_open() ==> outcome == Submitted::Closed(job),
            self.is_open() ==> outcome is Queued || outcome == Submitted::Disconnected(job),
    {
        self.job_queue.execute(job)
    }

    /// Block the current thread until no worker is executing a job.
    ///
    /// This waits for running jobs, not for threads, and leaves the pool as
    /// it is. See [`ThreadPoolInner::wait_empty`] for what counts as running.
    pub fn join(&self) {
        self.pool_inner.wait_empty()
    }

    /// Stops accepting jobs. The workers stay as they are: each goes on
    /// until the queue is empty.
    pub fn shutdown(&mut self)
        ensures
            !final(self).is_open(),
            final(self).workers() == old(self).workers(),
            final(self).counter() == old(self).counter(),
    {
        self.job_queue.close();
    }
}

} // verus!
