//! Worker pool dispatch: a fixed set of workers pulling queued tasks in
//! FIFO order.
//!
//! The running program keeps one OS thread per worker and blocks each on a
//! shared channel; those threads and the channel live outside this library.
//! The dispatch discipline itself is decided here: tasks leave the queue
//! front first, a task runs only when a worker is idle, and however the pool
//! is driven, never more than `capacity` tasks run at once.

use crate::task::Task;
use vstd::prelude::*;

verus! {

/// The dispatch state of a fixed-size worker pool.
pub struct Dispatcher {
    /// Number of workers; fixed at construction. The running program uses
    /// the physical core count.
    pub capacity: usize,
    /// Queued tasks, front first.
    pub pending: Vec<Task>,
    /// Tasks currently executing, at most one per worker.
    pub running: usize,
}

impl Dispatcher {
    /// The pool's invariant: there is at least one worker, and no more
    /// tasks run than there are workers.
    pub open spec fn wf(self) -> bool {
        &&& self.capacity >= 1
        &&& self.running <= self.capacity
    }

    /// A pool of `capacity` idle workers with an empty queue.
    pub fn new(capacity: usize) -> (d: Dispatcher)
        requires
            capacity >= 1,
        ensures
            d.wf(),
            d.capacity == capacity,
            d.pending@ == Seq::<Task>::empty(),
            d.running == 0,
    {
        Dispatcher { capacity, pending: Vec::new(), running: 0 }
    }

    /// Enqueues a task at the back of the queue. Nothing starts running by
    /// itself; a task runs only once [`Dispatcher::try_dispatch`] hands it
    /// to an idle worker.
    pub fn enqueue(&mut self, task: Task)
        requires
            old(self).wf(),
        ensures
            final(self).wf(),
            final(self).capacity == old(self).capacity,
            final(self).running == old(self).running,
            final(self).pending@ == old(self).pending@.push(task),
    {
        self.pending.push(task);
    }

    /// Hands the front of the queue to an idle worker. Exactly when a task
    /// is waiting and a worker is idle, the front task — never any other —
    /// leaves the queue and counts as running; otherwise nothing changes.
    pub fn try_dispatch(&mut self) -> (t: Option<Task>)
        requires
            old(self).wf(),
        ensures
            final(self).wf(),
            final(self).capacity == old(self).capacity,
            (old(self).running < old(self).capacity && old(self).pending@.len() > 0) ==> {
                &&& (t matches Some(task) && task == old(self).pending@[0])
                &&& final(self).pending@ == old(self).pending@.drop_first()
                &&& final(self).running == old(self).running + 1
            },
            !(old(self).running < old(self).capacity && old(self).pending@.len() > 0) ==> {
                &&& t is None
                &&& final(self).pending@ == old(self).pending@
                &&& final(self).running == old(self).running
            },
    {
        if self.running < self.capacity && self.pending.len() > 0 {
            let task = self.pending.remove(0);
            self.running = self.running + 1;
            proof {
                assert(old(self).pending@.remove(0) =~= old(self).pending@.drop_first());
            }
            Some(task)
        } else {
            None
        }
    }

    /// A worker finished its task — successfully or not — and is idle
    /// again.
    pub fn complete(&mut self)
        requires
            old(self).wf(),
            old(self).running > 0,
        ensures
            final(self).wf(),
            final(self).capacity == old(self).capacity,
            final(self).running == old(self).running - 1,
            final(self).pending@ == old(self).pending@,
    {
        self.running = self.running - 1;
    }

    /// However the pool was driven, at most `capacity` tasks execute
    /// concurrently; everything else waits in the queue in arrival order.
    pub proof fn lemma_bounded_concurrency(self)
        requires
            self.wf(),
        ensures
            self.running <= self.capacity,
    {
    }
}

} // verus!
