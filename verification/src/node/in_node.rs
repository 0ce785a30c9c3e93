//! The sink stage: consumes the final items of the stream and finalizes them
//! into the collected result.

use vstd::prelude::*;

verus! {

use std::sync::Arc;
use vstd::rwlock::RwLock;

use crate::mpsc::{channel_flume::Channel, InputChannel, OutputChannel, SenderError};
use crate::node::reorder::IngressState;
use crate::node::{arc_try_unwrap, ordered_ingress_send, AnyValue, IngressPred, Node};
use crate::orchestrator::{push_job, JobInfo};
use crate::task::{Message, Task};

/// A stream sink: consumes one item per call, and is finalized once after the
/// end of the stream.
pub trait In<TIn, TCollected>: Sized {
    /// Called for each arriving item.
    fn run(&mut self, input: TIn);

    /// Called once after the termination sentinel; yields the collected value.
    fn finalize(self) -> Option<TCollected>;
}

/// The terminal stage of a pipeline: a single replica feeding the user's sink.
/// When `ordered` it reorders arrivals by order id before handing them over,
/// so the sink sees the stream in emission order; skipped slots are dropped
/// silently either way.
#[verifier::reject_recursive_types(TIn)]
#[verifier::reject_recursive_types(TCollected)]
pub struct InNode<TIn: Send, TCollected> {
    job_info: JobInfo,
    channel: OutputChannel<Message<TIn>>,
    ingress: RwLock<IngressState<TIn>, IngressPred>,
    ordered: bool,
    result: Arc<RwLock<Option<TCollected>, AnyValue>>,
}

impl<TIn: Send + 'static, TCollected: Send + Sync + 'static> InNode<TIn, TCollected> {
    /// Whether this sink serializes arrivals by order id at its ingress.
    pub closed spec fn spec_ordered(&self) -> bool {
        self.ordered
    }

    /// Whether the sink's replica has been joined.
    pub closed spec fn job_done(&self) -> bool {
        self.job_info.is_done()
    }

    /// Builds the sink around the user's handler and starts its replica.  If
    /// `blocking` the replica parks on an empty queue; if `ordered` arrivals
    /// are serialized by order id at the ingress.
    pub fn new<H: In<TIn, TCollected> + Send + 'static>(
        _id: usize,
        handler: H,
        blocking: bool,
        ordered: bool,
    ) -> (r: InNode<TIn, TCollected>)
        ensures
            r.spec_ordered() == ordered,
            !r.job_done(),
    {
        let (channel_in, channel_out) = Channel::channel(blocking);
        let result = Arc::new(
            RwLock::<Option<TCollected>, AnyValue>::new(
                None,
                Ghost(AnyValue),
            ),
        );
        let result_copy = Arc::clone(&result);
        let func = move ||
            {
                Self::rts(handler, channel_in, &result_copy);
            };
        InNode {
            job_info: push_job(func),
            channel: channel_out,
            ingress: RwLock::<IngressState<TIn>, IngressPred>::new(
                IngressState::new(),
                Ghost(IngressPred),
            ),
            ordered,
            result,
        }
    }

    /// The sink loop: run the handler on each genuine item, skip dropped
    /// slots, and on the terminate message finalize the handler and publish
    /// the collected value.
    fn rts<H: In<TIn, TCollected>>(
        handler: H,
        channel_in: InputChannel<Message<TIn>>,
        result: &RwLock<Option<TCollected>, AnyValue>,
    ) {
        let mut node = handler;
        // The loop needs a decreasing measure; one turn handles at most one
        // message, so this budget is beyond any reachable stream length.
        let mut fuel: usize = usize::MAX;
        loop
            decreases fuel,
        {
            if fuel == 0 {
                break ;
            }
            fuel = fuel - 1;
            match channel_in.receive() {
                Ok(Some(msg)) => {
                    let Message { op, order: _order } = msg;
                    match op {
                        Task::NewTask(x) => {
                            node.run(x);
                        },
                        Task::Dropped => (),
                        Task::Terminate => {
                            break ;
                        },
                    }
                },
                Ok(None) => (),
                Err(_) => {
                    break ;
                },
            }
        }
        let collected = node.finalize();
        let (_old, handle) = result.acquire_write();
        handle.release_write(collected);
    }
}

impl<TIn: Send + 'static, TCollected: Send + Sync + 'static> Node<TIn, TCollected> for InNode<
    TIn,
    TCollected,
> {
    fn send(&self, input: Message<TIn>, _rec_id: usize) -> Result<(), SenderError> {
        let Message { op, order } = input;
        if self.ordered {
            ordered_ingress_send(&self.ingress, &self.channel, op, order)
        } else {
            self.channel.send(Message::new(op, order))
        }
    }

    fn collect(self) -> Option<TCollected> {
        let mut this = self;
        this.job_info.wait();
        match arc_try_unwrap(this.result) {
            Ok(lock) => lock.into_inner(),
            Err(_) => None,
        }
    }

    fn get_num_of_replicas(&self) -> (r: usize) {
        1
    }
}

} // verus!
