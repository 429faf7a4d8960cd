use crate::error::Error;
use crate::worker::{InnerWorker, Platform, Worker};
use vstd::prelude::*;

verus! {

/// The slot that is served after `cursor` in a pool of `len` workers.
pub open spec fn next_slot(cursor: int, len: int) -> int {
    (cursor + 1) % len
}

/// The slot that a pool of `len` workers serves on its call number `calls`,
/// counted from 0 at a fresh pool.
pub open spec fn slot_after(len: int, calls: nat) -> int
    decreases calls,
{
    if calls == 0 {
        0
    } else {
        next_slot(slot_after(len, (calls - 1) as nat), len)
    }
}

/// A fixed set of workers that are served in turn.
pub struct WorkerPool<W: InnerWorker, P: Platform> {
    workers: Vec<Worker<W, P>>,
    next_worker: usize,
}

impl<W: InnerWorker, P: Platform> WorkerPool<W, P> {
    #[verifier::type_invariant]
    spec fn inv(self) -> bool {
        &&& self.next_worker == 0 || self.next_worker < self.workers@.len()
        &&& forall|i: int| 0 <= i < self.workers@.len() ==> (#[trigger] self.workers@[i]).is_live()
    }

    /// The number of workers.
    pub closed spec fn size(self) -> nat {
        self.workers@.len()
    }

    /// The slot that the next dispatch goes to.
    pub closed spec fn cursor(self) -> int {
        self.next_worker as int
    }

    /// The worker in slot `id`.
    pub closed spec fn worker(self, id: int) -> Worker<W, P> {
        self.workers@[id]
    }

    /// Prepares the platform for `n_workers` threads and starts that many
    /// workers, one after the other, each from a copy of `options`. The first
    /// worker that cannot be started ends the construction with its error.
    pub fn new(options: W::RuntimeOptions, n_workers: u32) -> (result: Result<Self, Error>)
        ensures
            n_workers == 0 ==> result is Ok,
            result matches Ok(pool) ==> {
                &&& pool.size() == n_workers
                &&& pool.cursor() == 0
                &&& forall|i: int| 0 <= i < n_workers ==> (#[trigger] pool.worker(i)).is_live()
            },
    {
        P::init(n_workers);
        let mut workers: Vec<Worker<W, P>> = Vec::new();
        let mut started: u32 = 0;
        while started < n_workers
            invariant
                started <= n_workers,
                workers@.len() == started,
                forall|i: int| 0 <= i < workers@.len() ==> (#[trigger] workers@[i]).is_live(),
            decreases n_workers - started,
        {
            match Worker::new(options.clone()) {
                Ok(worker) => {
                    workers.push(worker);
                },
                Err(e) => {
                    return Err(e);
                },
            }
            started = started + 1;
        }
        Ok(WorkerPool { workers, next_worker: 0 })
    }

    /// Shuts the workers down in the order of their slots, each one only when
    /// the thread of the one before it has ended, and hands them back.
    pub fn shutdown(self) -> (stopped: Vec<Worker<W, P>>)
        ensures
            stopped@.len() == self.size(),
            forall|i: int|
                0 <= i < stopped@.len() ==> {
                    &&& !(#[trigger] stopped@[i]).is_live()
                    &&& stopped@[i].inbox() == self.worker(i).inbox()
                },
    {
        let mut workers = self.workers;
        let mut done: usize = 0;
        while done < workers.len()
            invariant
                done <= workers@.len(),
                workers@.len() == self.size(),
                forall|i: int| 0 <= i < done ==> !(#[trigger] workers@[i]).is_live(),
                forall|i: int|
                    0 <= i < workers@.len() ==> (#[trigger] workers@[i]).inbox()
                        == self.worker(i).inbox(),
            decreases workers@.len() - done,
        {
            workers[done].shutdown();
            done = done + 1;
        }
        workers
    }

    /// The number of workers.
    pub fn len(&self) -> (n: usize)
        ensures
            n == self.size(),
    {
        self.workers.len()
    }

    /// Whether the pool has no worker.
    pub fn is_empty(&self) -> (empty: bool)
        ensures
            empty == (self.size() == 0),
    {
        self.workers.len() == 0
    }

    /// The worker in slot `id`, outside the rotation.
    pub fn worker_by_id(&self, id: usize) -> (found: Option<&Worker<W, P>>)
        ensures
            id < self.size() ==> found == Some(&self.worker(id as int)),
            id >= self.size() ==> found is None,
            found matches Some(worker) ==> worker.is_live(),
    {
        proof {
            use_type_invariant(self);
        }
        if id < self.workers.len() {
            Some(&self.workers[id])
        } else {
            None
        }
    }

    /// The worker whose turn it is. The turn passes to the next slot.
    pub fn next_worker(&mut self) -> (worker: &Worker<W, P>)
        requires
            old(self).size() > 0,
        ensures
            *worker == old(self).worker(old(self).cursor()),
            worker.is_live(),
            final(self).cursor() == next_slot(old(self).cursor(), old(self).size() as int),
            final(self).size() == old(self).size(),
            forall|i: int| 0 <= i < old(self).size() ==> final(self).worker(i) == old(self).worker(i),
    {
        proof {
            use_type_invariant(&*self);
        }
        let turn = self.next_worker;
        let len = self.workers.len();
        self.next_worker = (turn + 1) % len;
        &self.workers[turn]
    }

    /// Hands a query to the worker whose turn it is and waits for the
    /// response.
    pub fn send_and_await(&mut self, query: W::Query) -> (result: Result<W::Response, Error>)
        requires
            old(self).size() > 0,
        ensures
            result is Ok || result matches Err(Error::Runtime(_)),
            final(self).cursor() == next_slot(old(self).cursor(), old(self).size() as int),
            final(self).size() == old(self).size(),
    {
        self.next_worker().send_and_await(query)
    }
}

/// Served in turn from a fresh pool, the slots come in increasing order and
/// start over after the last: call number `calls` goes to slot `calls` modulo
/// the number of workers.
pub proof fn lemma_round_robin(len: int, calls: nat)
    requires
        len > 0,
    ensures
        slot_after(len, calls) == calls as int % len,
        calls < len ==> slot_after(len, calls) == calls,
    decreases calls,
{
    if calls == 0 {
        assert(0int % len == 0) by (nonlinear_arith)
            requires
                len > 0,
        ;
    } else {
        let before = (calls - 1) as nat;
        lemma_round_robin(len, before);
        vstd::arithmetic::div_mod::lemma_add_mod_noop(before as int, 1, len);
        vstd::arithmetic::div_mod::lemma_mod_twice(before as int, len);
        vstd::arithmetic::div_mod::lemma_add_mod_noop(before as int % len, 1, len);
    }
    if calls < len {
        vstd::arithmetic::div_mod::lemma_small_mod(calls, len as nat);
    }
}

} // verus!
