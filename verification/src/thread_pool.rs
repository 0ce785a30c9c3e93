//! A pool handle for running independent jobs: submit closures, wait for all
//! of them, or map a function over a vector in parallel keeping input order.

use vstd::prelude::*;

verus! {

use core::marker::PhantomData;
use std::sync::Arc;
use vstd::rwlock::RwLock;

use crate::orchestrator::{push_job, JobInfo};

/// An error raised by the pool.
#[derive(Debug)]
pub struct ThreadPoolError {
    details: String,
}

impl ThreadPoolError {
    /// The error's message.
    pub closed spec fn spec_details(&self) -> Seq<char> {
        self.details@
    }

    /// Wraps a message.
    pub fn new(msg: &str) -> (r: ThreadPoolError)
        ensures
            r.spec_details() == msg@,
    {
        ThreadPoolError { details: msg.to_string() }
    }

    /// Reads the message back.
    pub fn message(&self) -> (r: &str)
        ensures
            r@ == self.spec_details(),
    {
        self.details.as_str()
    }
}

/// Ghost predicate of one result slot of [`ThreadPool::par_map`]: a filled
/// slot holds a result of applying `f` to this slot's input item.
pub struct MapSlotPred<TIn, TOut, F> {
    pub f: F,
    pub x: TIn,
    pub phantom: PhantomData<TOut>,
}

impl<TIn, TOut, F: Fn(TIn) -> TOut> vstd::rwlock::RwLockPredicate<Option<TOut>> for MapSlotPred<
    TIn,
    TOut,
    F,
> {
    open spec fn inv(self, v: Option<TOut>) -> bool {
        v matches Some(y) ==> call_ensures(self.f, (self.x,), y)
    }
}

/// A handle for running independent jobs.  Every submitted job runs on a
/// dedicated OS thread of its own; `num_threads` does not bound `execute`,
/// only how many items [`ThreadPool::par_map`] keeps in flight at once.
/// [`ThreadPool::wait`] returns only once every job submitted so far has
/// finished.
pub struct ThreadPool {
    num_threads: usize,
    jobs_info: Vec<JobInfo>,
}

impl ThreadPool {
    /// The number of jobs submitted and not yet waited for.
    pub closed spec fn pending(&self) -> int {
        self.jobs_info@.len() as int
    }

    /// The size the pool was asked for.
    pub closed spec fn spec_num_threads(&self) -> usize {
        self.num_threads
    }

    /// Builds a handle whose parallel map keeps at most `num_threads` items
    /// in flight at once.
    pub fn new_with_global_registry(num_threads: usize) -> (r: ThreadPool)
        ensures
            r.pending() == 0,
            r.spec_num_threads() == num_threads,
    {
        ThreadPool { num_threads, jobs_info: Vec::new() }
    }

    /// Runs `task` on a freshly spawned OS thread; it is complete by the time
    /// a later [`ThreadPool::wait`] returns.
    pub fn execute<F: FnOnce() -> () + Send + 'static>(&mut self, task: F)
        requires
            task.requires(()),
        ensures
            final(self).pending() == old(self).pending() + 1,
            final(self).spec_num_threads() == old(self).spec_num_threads(),
    {
        self.jobs_info.push(push_job(task));
    }

    /// Blocks until every job submitted so far has executed to completion:
    /// the pending count returns to zero.
    pub fn wait(&mut self)
        ensures
            final(self).pending() == 0,
            final(self).spec_num_threads() == old(self).spec_num_threads(),
    {
        while self.jobs_info.len() > 0
            invariant
                self.num_threads == old(self).num_threads,
            decreases self.jobs_info@.len(),
        {
            let job = self.jobs_info.pop();
            match job {
                Some(mut j) => {
                    j.wait();
                },
                None => (),
            }
        }
    }

    /// Applies `f` to every element of `input` in parallel and returns the
    /// results in input order: the value at position `i` of the output is a
    /// result of `f` on the element at position `i` of the input.  At most
    /// `num_threads` items are in flight at once.  `None` is returned only if
    /// a worker failed to publish its slot, which the thread join rules out
    /// in practice.
    pub fn par_map<TIn, TOut, F>(&mut self, input: Vec<TIn>, f: F) -> (r: Option<Vec<TOut>>)
        where
            TIn: Send + 'static,
            TOut: Send + Sync + 'static,
            F: Fn(TIn) -> TOut + Send + Sync + Copy + 'static,
        requires
            forall|i: int| 0 <= i < input@.len() ==> call_requires(f, (#[trigger] input@[i],)),
        ensures
            r matches Some(out) ==> {
                &&& out@.len() == input@.len()
                &&& forall|i: int|
                    0 <= i < out@.len() ==> call_ensures(f, (input@[i],), #[trigger] out@[i])
            },
            input@.len() == 0 ==> r is Some,
    {
        let ghost input0 = input@;
        let mut input = input;
        let total = input.len();
        let width = if self.num_threads == 0 {
            1
        } else {
            self.num_threads
        };
        let mut out: Vec<TOut> = Vec::new();
        let mut processed: usize = 0;
        let mut failed = false;
        while input.len() > 0
            invariant
                width >= 1,
                input0.len() == total,
                input@ =~= input0.skip(processed as int),
                processed + input@.len() == input0.len(),
                input0.len() == 0 ==> !failed,
                !failed ==> out@.len() == processed,
                !failed ==> forall|i: int|
                    0 <= i < processed ==> call_ensures(f, (input0[i],), #[trigger] out@[i]),
                forall|i: int| 0 <= i < input0.len() ==> call_requires(f, (#[trigger] input0[i],)),
            ensures
                failed || input@.len() == 0,
            decreases input@.len(),
        {
            let mut wave: Vec<TIn> = Vec::new();
            let mut t: usize = 0;
            loop
                invariant
                    1 <= width,
                    input0.len() == total,
                    t <= width,
                    t == wave@.len(),
                    wave@ =~= input0.subrange(processed as int, processed + t),
                    input@ =~= input0.skip(processed + t),
                    processed + t + input@.len() == input0.len(),
                    t == 0 ==> input@.len() > 0,
                ensures
                    t >= 1,
                    t == wave@.len(),
                    wave@ =~= input0.subrange(processed as int, processed + t),
                    input@ =~= input0.skip(processed + t),
                    processed + t + input@.len() == input0.len(),
                decreases width - t,
            {
                if t >= width {
                    break ;
                }
                if input.len() == 0 {
                    break ;
                }
                proof {
                    assert(input0.skip(processed + t)[0] == input0[processed + t]);
                }
                let x = input.remove(0);
                proof {
                    assert(input@ =~= input0.skip(processed + t + 1));
                }
                wave.push(x);
                proof {
                    assert(wave@ =~= input0.subrange(processed as int, processed + t + 1));
                }
                t = t + 1;
            }
            processed = processed + t;
            match Self::map_wave(wave, f) {
                Some(mut batch) => {
                    out.append(&mut batch);
                },
                None => {
                    failed = true;
                },
            }
            if failed {
                break ;
            }
        }
        if failed {
            None
        } else {
            Some(out)
        }
    }

    /// Runs `f` on every item of one wave, one worker thread per item, and
    /// collects the results in item order through the slot predicates.
    fn map_wave<TIn, TOut, F>(items: Vec<TIn>, f: F) -> (r: Option<Vec<TOut>>)
        where
            TIn: Send + 'static,
            TOut: Send + Sync + 'static,
            F: Fn(TIn) -> TOut + Send + Sync + Copy + 'static,
        requires
            forall|i: int| 0 <= i < items@.len() ==> call_requires(f, (#[trigger] items@[i],)),
        ensures
            r matches Some(out) ==> {
                &&& out@.len() == items@.len()
                &&& forall|i: int|
                    0 <= i < out@.len() ==> call_ensures(f, (items@[i],), #[trigger] out@[i])
            },
            items@.len() == 0 ==> r is Some,
    {
        let ghost input0 = items@;
        let mut input = items;
        let mut slots: Vec<Arc<RwLock<Option<TOut>, MapSlotPred<TIn, TOut, F>>>> = Vec::new();
        let mut jobs: Vec<JobInfo> = Vec::new();
        let n = input.len();
        let mut i: usize = 0;
        while input.len() > 0
            invariant
                input0.len() <= usize::MAX,
                input@ =~= input0.skip(i as int),
                i + input@.len() == input0.len(),
                slots@.len() == i,
                jobs@.len() == i,
                forall|j: int|
                    0 <= j < i ==> (#[trigger] slots@[j]).pred() == (MapSlotPred {
                        f,
                        x: input0[j],
                        phantom: PhantomData::<TOut>,
                    }),
                forall|j: int| 0 <= j < input0.len() ==> call_requires(f, (#[trigger] input0[j],)),
            decreases input@.len(),
        {
            proof {
                assert(input0.skip(i as int)[0] == input0[i as int]);
            }
            let x = input.remove(0);
            proof {
                assert(input@ =~= input0.skip(i as int + 1));
            }
            let slot = Arc::new(
                RwLock::<Option<TOut>, MapSlotPred<TIn, TOut, F>>::new(
                    None,
                    Ghost(MapSlotPred { f, x, phantom: PhantomData::<TOut> }),
                ),
            );
            let slot_copy = Arc::clone(&slot);
            let job = push_job(
                move ||
                    {
                        let y = f(x);
                        let (_old, handle) = slot_copy.acquire_write();
                        handle.release_write(Some(y));
                    },
            );
            slots.push(slot);
            jobs.push(job);
            i = i + 1;
        }
        while jobs.len() > 0
            decreases jobs@.len(),
        {
            let job = jobs.pop();
            match job {
                Some(mut j) => {
                    j.wait();
                },
                None => (),
            }
        }
        let mut out: Vec<TOut> = Vec::new();
        let mut k: usize = 0;
        let mut failed = false;
        while k < n
            invariant
                n == input0.len(),
                slots@.len() == n,
                k <= n,
                forall|j: int|
                    0 <= j < n ==> (#[trigger] slots@[j]).pred() == (MapSlotPred {
                        f,
                        x: input0[j],
                        phantom: PhantomData::<TOut>,
                    }),
                n == 0 ==> !failed,
                !failed ==> out@.len() == k,
                !failed ==> forall|j: int|
                    0 <= j < k ==> call_ensures(f, (input0[j],), #[trigger] out@[j]),
            decreases n - k,
        {
            let (v, handle) = slots[k].acquire_write();
            handle.release_write(None);
            match v {
                Some(y) => {
                    out.push(y);
                },
                None => {
                    failed = true;
                },
            }
            k = k + 1;
        }
        if failed {
            None
        } else {
            Some(out)
        }
    }
}

} // verus!
