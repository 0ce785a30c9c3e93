//! Worker-thread capacity for the pipeline nodes: every node replica runs as
//! one long-lived OS thread, and the node keeps a join handle per replica.

use vstd::prelude::*;

verus! {

#[verifier::external_type_specification]
#[verifier::external_body]
#[verifier::reject_recursive_types(T)]
pub struct ExJoinHandle<T>(jod_thread::JoinHandle<T>);

/// Relies on jod_thread::spawn: runs `f` once on a freshly spawned OS thread
/// and returns the handle to join it.
#[verifier::external_body]
fn spawn_raw<F: FnOnce() -> () + Send + 'static>(f: F) -> jod_thread::JoinHandle<()>
    requires
        f.requires(()),
{
    jod_thread::spawn(f)
}

/// Relies on jod_thread::JoinHandle::join: blocks until the thread's function
/// has returned, and propagates a panic of that thread (a panicked replica is
/// fatal to the runtime).
#[verifier::external_body]
fn join_raw(h: jod_thread::JoinHandle<()>) {
    h.join()
}

/// Join handle published when a worker function is accepted: its one
/// observable operation is [`JobInfo::wait`], which blocks until the worker
/// function has returned.
pub struct JobInfo {
    handle: Option<jod_thread::JoinHandle<()>>,
}

impl JobInfo {
    /// True once the worker has been joined.
    pub closed spec fn is_done(&self) -> bool {
        self.handle is None
    }

    /// Blocks until the worker function has returned.
    pub fn wait(&mut self)
        ensures
            final(self).is_done(),
    {
        let handle = self.handle.take();
        match handle {
            Some(h) => join_raw(h),
            None => (),
        }
    }
}

/// Accepts one long-running worker function and starts it on a dedicated OS
/// thread, returning the join handle for it.
pub fn push_job<F: FnOnce() -> () + Send + 'static>(f: F) -> (r: JobInfo)
    requires
        f.requires(()),
    ensures
        !r.is_done(),
{
    JobInfo { handle: Some(spawn_raw(f)) }
}

} // verus!
