//! The load-balancing policy for the worker threads that run tick jobs:
//! a fresh job goes to the thread with the shortest queue, round-robin
//! when some thread is idle; a yielding job is parked locally and
//! resumed on the owning thread's next pass.

use vstd::prelude::*;

verus! {

/// Where a job should run: on the deciding thread, or migrated to
/// another.
#[derive(Clone, Copy, PartialEq, Eq, Structural, Debug)]
pub enum Decision {
    Resume,
    Migrate(usize),
}

/// `i` is the first index of a minimal entry of `lengths`.
pub open spec fn is_first_min(lengths: Seq<usize>, i: int) -> bool {
    &&& 0 <= i < lengths.len()
    &&& (forall|j: int| 0 <= j < lengths.len() ==> lengths[i] <= #[trigger] lengths[j])
    &&& (forall|j: int| 0 <= j < i ==> lengths[i] < #[trigger] lengths[j])
}

/// The first index with the smallest queue length.
pub fn min_thread(lengths: &Vec<usize>) -> (r: usize)
    requires
        lengths@.len() > 0,
    ensures
        is_first_min(lengths@, r as int),
{
    let mut min_id: usize = 0;
    let mut min = lengths[0];
    let mut i: usize = 1;
    while i < lengths.len()
        invariant
            1 <= i <= lengths@.len(),
            min_id < i,
            min == lengths@[min_id as int],
            forall|j: int| 0 <= j < i ==> min <= #[trigger] lengths@[j],
            forall|j: int| 0 <= j < min_id ==> min < #[trigger] lengths@[j],
        decreases lengths@.len() - i,
    {
        if lengths[i] < min {
            min_id = i;
            min = lengths[i];
        }
        i = i + 1;
    }
    min_id
}

/// Hands out worker-thread identities and shares the per-thread queue
/// lengths the balancing decisions read.
pub struct BalancingScheduler {
    pub thread_counter: usize,
    pub queue_lengths: Vec<usize>,
}

impl BalancingScheduler {
    pub fn new(num_threads: usize) -> (r: BalancingScheduler)
        ensures
            r.thread_counter == 0,
            r.queue_lengths@.len() == num_threads,
            forall|i: int| 0 <= i < num_threads ==> #[trigger] r.queue_lengths@[i] == 0,
    {
        let mut queue_lengths: Vec<usize> = Vec::new();
        let mut i: usize = 0;
        while i < num_threads
            invariant
                i <= num_threads,
                queue_lengths@.len() == i,
                forall|j: int| 0 <= j < i ==> #[trigger] queue_lengths@[j] == 0,
            decreases num_threads - i,
        {
            queue_lengths.push(0);
            i = i + 1;
        }
        BalancingScheduler { thread_counter: 0, queue_lengths }
    }

    /// Creates the state of the next worker thread, giving it the next
    /// thread identity.
    pub fn spawn_thread(&mut self) -> (r: BalancingSchedulerThread)
        requires
            old(self).thread_counter < usize::MAX,
        ensures
            final(self).thread_counter == old(self).thread_counter + 1,
            final(self).queue_lengths@ == old(self).queue_lengths@,
            r.thread_id == old(self).thread_counter,
            r.counter == 0,
            r.q@.len() == 0,
    {
        let thread_id = self.thread_counter;
        self.thread_counter = self.thread_counter + 1;
        BalancingSchedulerThread { counter: 0, thread_id, q: Vec::new() }
    }
}

/// One worker thread's balancing state: its identity, its round-robin
/// counter, and the jobs parked on it.
pub struct BalancingSchedulerThread {
    pub counter: usize,
    pub thread_id: usize,
    pub q: Vec<u64>,
}

impl BalancingSchedulerThread {
    /// Places a freshly spawned job: on the thread with the shortest
    /// queue, or round-robin when some thread is already idle.
    pub fn spawned(&mut self, lengths: &Vec<usize>) -> (r: Decision)
        requires
            lengths@.len() > 0,
            old(self).counter < lengths@.len(),
        ensures
            final(self).thread_id == old(self).thread_id,
            final(self).q@ == old(self).q@,
            (if exists|i: int| 0 <= i < lengths@.len() && #[trigger] lengths@[i] == 0 {
                final(self).counter == (old(self).counter + 1) % (lengths@.len() as int) && (
                match r {
                    Decision::Resume => final(self).counter == final(self).thread_id,
                    Decision::Migrate(k) => k == final(self).counter && k != final(self).thread_id,
                })
            } else {
                final(self).counter == old(self).counter && (match r {
                    Decision::Resume => is_first_min(lengths@, final(self).thread_id as int),
                    Decision::Migrate(k) => is_first_min(lengths@, k as int) && k != final(self).thread_id,
                })
            }),
            final(self).counter < lengths@.len(),
    {
        let m = min_thread(lengths);
        let chosen = if lengths[m] == 0 {
            let n = lengths.len();
            assert(self.counter < n);
            self.counter = (self.counter + 1) % n;
            self.counter
        } else {
            proof {
                if exists|i: int| 0 <= i < lengths@.len() && #[trigger] lengths@[i] == 0 {
                    let w = choose|i: int|
                        0 <= i < lengths@.len() && #[trigger] lengths@[i] == 0;
                    assert(lengths@[m as int] <= lengths@[w]);
                    assert(false);
                }
            }
            m
        };
        if chosen == self.thread_id {
            Decision::Resume
        } else {
            Decision::Migrate(chosen)
        }
    }

    /// Accepts a job becoming ready: a yielding job is parked on this
    /// thread and counted in its queue length; any other is resumed at
    /// once.
    pub fn ready(&mut self, lengths: &mut Vec<usize>, job: u64, yielding: bool) -> (r: Option<
        Decision,
    >)
        requires
            old(self).thread_id < old(lengths)@.len(),
            old(lengths)@[old(self).thread_id as int] < usize::MAX,
        ensures
            final(self).thread_id == old(self).thread_id,
            final(self).counter == old(self).counter,
            (if yielding {
                final(self).q@ == old(self).q@.push(job) && final(lengths)@ == old(
                    lengths,
                )@.update(
                    old(self).thread_id as int,
                    (old(lengths)@[old(self).thread_id as int] + 1) as usize,
                ) && r is None
            } else {
                final(self).q@ == old(self).q@ && final(lengths)@ == old(lengths)@ && r
                    == Option::Some(Decision::Resume)
            }),
    {
        if yielding {
            self.q.push(job);
            let tid = self.thread_id;
            let cur = lengths[tid];
            lengths.set(tid, cur + 1);
            Option::None
        } else {
            Option::Some(Decision::Resume)
        }
    }

    /// Resumes every job parked on this thread, most recently parked
    /// first, and returns its queue length to zero.
    pub fn tick(&mut self, lengths: &mut Vec<usize>) -> (r: Vec<u64>)
        requires
            old(self).thread_id < old(lengths)@.len(),
            old(lengths)@[old(self).thread_id as int] >= old(self).q@.len(),
        ensures
            final(self).thread_id == old(self).thread_id,
            final(self).counter == old(self).counter,
            final(self).q@.len() == 0,
            r@ == old(self).q@.reverse(),
            final(lengths)@ == old(lengths)@.update(
                old(self).thread_id as int,
                (old(lengths)@[old(self).thread_id as int] - old(self).q@.len()) as usize,
            ),
    {
        let ghost original = self.q@;
        let ghost lengths0 = lengths@;
        let mut r: Vec<u64> = Vec::new();
        let tid = self.thread_id;
        while self.q.len() > 0
            invariant
                tid == self.thread_id,
                self.thread_id < lengths@.len(),
                lengths@.len() == lengths0.len(),
                self.counter == old(self).counter,
                r@.len() + self.q@.len() == original.len(),
                self.q@ == original.take(self.q@.len() as int),
                forall|i: int|
                    0 <= i < r@.len() ==> #[trigger] r@[i] == original[original.len() - 1 - i],
                lengths@ == lengths0.update(
                    tid as int,
                    (lengths0[tid as int] - r@.len()) as usize,
                ),
                lengths0[tid as int] >= original.len(),
            decreases self.q@.len(),
        {
            let cur = lengths[tid];
            assert(cur >= 1);
            let ghost qlen = self.q@.len();
            let job = self.q.pop().unwrap();
            proof {
                assert(original.take(qlen as int).drop_last() =~= original.take(qlen as int - 1));
                assert(self.q@ =~= original.take(self.q@.len() as int));
            }
            r.push(job);
            lengths[tid] = cur - 1;
        }
        proof {
            assert(r@ =~= original.reverse());
            assert(lengths@ =~= lengths0.update(
                tid as int,
                (lengths0[tid as int] - original.len()) as usize,
            ));
        }
        r
    }

    /// This scheduler never asks for a wake-up timeout.
    pub fn timeout(&self) -> (r: Option<u64>)
        ensures
            r is None,
    {
        Option::None
    }
}

} // verus!
