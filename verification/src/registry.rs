//! Decision core of the work-stealing worker loop.
//!
//! A worker of the pool looks for a job in its own deque first, then in the
//! global injector, then among its peers, and reacts to what it found; the
//! scheduling decisions live here, and the executor that owns the deques
//! drives them in its loop.

use vstd::prelude::*;

verus! {

/// The kind of job a worker fetched from a queue.
pub enum JobKind {
    /// A single-shot closure to run.
    NewJob,
    /// The shutdown sentinel of the pool.
    Terminate,
}

/// What a worker does after one look at the queues.
pub enum WorkerAction {
    /// Run the fetched job, then look again.
    RunJob,
    /// Remember that the pool is shutting down, then keep draining.
    MarkStop,
    /// Re-publish the shutdown sentinel for the other workers and exit.
    RepostAndExit,
    /// Found nothing and not stopping: yield the CPU and look again.
    Yield,
}

/// One turn of the worker loop: from the stop flag and the fetched job to
/// the action taken and the new stop flag.
pub open spec fn spec_worker_step(stop: bool, fetched: Option<JobKind>) -> (WorkerAction, bool) {
    match fetched {
        Some(JobKind::NewJob) => (WorkerAction::RunJob, stop),
        Some(JobKind::Terminate) => (WorkerAction::MarkStop, true),
        None => if stop {
            (WorkerAction::RepostAndExit, true)
        } else {
            (WorkerAction::Yield, false)
        },
    }
}

/// Computes [`spec_worker_step`].  A worker runs every genuine job it finds,
/// drains the queues even after the shutdown sentinel was seen, and exits
/// only when the sentinel was seen and nothing is left — re-posting the
/// sentinel so that every other worker eventually sees it too.
pub fn worker_step(stop: bool, fetched: Option<JobKind>) -> (r: (WorkerAction, bool))
    ensures
        r == spec_worker_step(stop, fetched),
{
    match fetched {
        Some(JobKind::NewJob) => (WorkerAction::RunJob, stop),
        Some(JobKind::Terminate) => (WorkerAction::MarkStop, true),
        None => if stop {
            (WorkerAction::RepostAndExit, true)
        } else {
            (WorkerAction::Yield, false)
        },
    }
}

/// The shutdown sentinel is sticky: no turn of the worker loop ever clears
/// the stop flag once it is set.
pub proof fn lemma_stop_is_sticky(stop: bool, fetched: Option<JobKind>)
    ensures
        stop ==> spec_worker_step(stop, fetched).1,
{
}

/// Shutdown propagates: a worker that has seen the sentinel and finds the
/// queues empty re-publishes the sentinel and exits, so the next idle worker
/// sees it as well, and every worker eventually exits.
pub proof fn lemma_terminate_propagates()
    ensures
        spec_worker_step(true, None).0 is RepostAndExit,
        forall|stop: bool| #[trigger] spec_worker_step(stop, Some(JobKind::Terminate)).1,
{
}

} // verus!
