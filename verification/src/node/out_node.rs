//! The source stage: pulls items from a user-supplied generator and feeds the
//! first downstream node, tagging each item with a monotone order id.

use vstd::prelude::*;

verus! {

use core::marker::PhantomData;
use std::sync::Arc;
use vstd::rwlock::RwLock;

use crate::mpsc::{channel_flume::Channel, OutputChannel, SenderError};
use crate::node::{arc_try_unwrap, AnyValue, Node};
use crate::orchestrator::{push_job, JobInfo};
use crate::task::{Message, Task};

/// A stream source: yields one item per call until it returns `None`.
pub trait Out<TOut>: Sized {
    /// Called repeatedly by the runtime; `None` ends the stream.
    fn run(&mut self) -> Option<TOut>;
}

/// The head of a pipeline.  Its worker thread is spawned at construction and
/// parks on a latch until [`OutNode::start`] opens it; the generator then runs
/// until the stream ends, the stop flag is raised, or the downstream node is
/// gone, and a final terminate message carries the count of items emitted.
#[verifier::reject_recursive_types(TOut)]
#[verifier::reject_recursive_types(TCollected)]
pub struct OutNode<TOut: Send, TCollected, TNext> {
    job_info: JobInfo,
    latch: OutputChannel<bool>,
    stop: Arc<RwLock<bool, AnyValue>>,
    next_node: Arc<TNext>,
    started: bool,
    phantom: PhantomData<(TOut, TCollected)>,
}

impl<
    TOut: Send + 'static,
    TCollected,
    TNext: Node<TOut, TCollected> + Send + Sync + 'static,
> OutNode<TOut, TCollected, TNext> {
    /// Whether [`OutNode::start`] has been called.
    pub closed spec fn is_started(&self) -> bool {
        self.started
    }

    /// Builds the source around the user's generator and the node after it.
    /// The generator does not run until [`OutNode::start`].
    pub fn new<H: Out<TOut> + Send + 'static>(_id: usize, handler: H, next_node: TNext) -> (r:
        OutNode<TOut, TCollected, TNext>)
        ensures
            !r.is_started(),
    {
        let next_node = Arc::new(next_node);
        let stop = Arc::new(RwLock::<bool, AnyValue>::new(false, Ghost(AnyValue)));
        let (latch_rx, latch_tx) = Channel::channel(true);
        let nn = Arc::clone(&next_node);
        let stop_copy = Arc::clone(&stop);
        let func = move ||
            {
                let go = match latch_rx.receive() {
                    Ok(Some(g)) => g,
                    _ => false,
                };
                if go {
                    Self::run_source(handler, &nn, &stop_copy);
                } else {
                    let _ = nn.send(Message::new(Task::Terminate, 0), 0);
                }
            };
        OutNode {
            job_info: push_job(func),
            latch: latch_tx,
            stop,
            next_node,
            started: false,
            phantom: PhantomData,
        }
    }

    /// Opens the latch: the generator starts producing.  The send into the
    /// latch fails only when the source thread is already gone, which a
    /// repeated start after the stream ended may see; starting more than once
    /// has no further effect either way.
    pub fn start(&mut self) -> (r: Result<(), SenderError>)
        ensures
            final(self).is_started(),
    {
        self.started = true;
        self.latch.send(true)
    }

    /// Joins the source thread, then collects the rest of the pipeline.  On a
    /// handle that was never started, the generator is skipped and only the
    /// termination wave runs.
    pub fn collect(self) -> Option<TCollected> {
        let mut this = self;
        if !this.started {
            let _ = this.latch.send(false);
        }
        this.job_info.wait();
        match arc_try_unwrap(this.next_node) {
            Ok(nn) => nn.collect(),
            Err(_) => None,
        }
    }

    /// Raises the stop flag, so the generator breaks off even mid-stream, and
    /// tears the whole pipeline down, discarding the collected value.  Every
    /// replica thread is joined before this returns.
    pub fn terminate(self) {
        let mut this = self;
        let (_old, handle) = this.stop.acquire_write();
        handle.release_write(true);
        if !this.started {
            let _ = this.latch.send(false);
        }
        this.job_info.wait();
        match arc_try_unwrap(this.next_node) {
            Ok(nn) => {
                let _ = nn.collect();
            },
            Err(_) => (),
        }
    }

    /// The source loop: pull one item, tag it with the next order id, ship it
    /// to the downstream replica `order % R_next`; on end of stream send the
    /// terminate message whose order id is the count of items emitted.
    fn run_source<H: Out<TOut>>(
        handler: H,
        next_node: &Arc<TNext>,
        stop: &RwLock<bool, AnyValue>,
    ) {
        let mut node = handler;
        let next_replicas = next_node.get_num_of_replicas();
        let mut order: usize = 0;
        loop
            invariant
                next_replicas >= 1,
            decreases usize::MAX - order,
        {
            if order == usize::MAX {
                break ;
            }
            let read_handle = stop.acquire_read();
            let stop_now = *read_handle.borrow();
            read_handle.release_read();
            if stop_now {
                break ;
            }
            match node.run() {
                Some(x) => {
                    let rec = order % next_replicas;
                    if next_node.send(Message::new(Task::NewTask(x), order), rec).is_err() {
                        break ;
                    }
                    order = order + 1;
                },
                None => {
                    break ;
                },
            }
        }
        let _ = next_node.send(Message::new(Task::Terminate, order), 0);
    }
}

} // verus!
