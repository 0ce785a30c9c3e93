//! The lifecycle handle of a parallel pipeline: start it, wait for it and
//! collect the result, or terminate it early while the source still produces.

use vstd::prelude::*;

verus! {

use crate::node::out_node::OutNode;
use crate::node::Node;

/// A parallel pipeline.  The handle owns the source until the pipeline is
/// collected or terminated; both leave it empty, and both join every worker
/// thread of every stage before they return.
///
/// A started handle must be consumed by [`Parallel::wait_and_collect`] or
/// [`Parallel::terminate`].  Merely dropping it joins the replica threads
/// without sending the termination wave first, so over a source that never
/// ends the drop blocks forever.
#[verifier::reject_recursive_types(TOut)]
#[verifier::reject_recursive_types(TCollected)]
pub struct Parallel<TOut: Send + 'static, TCollected, TNext: Node<TOut, TCollected> + Send + Sync + 'static> {
    first_block: Option<OutNode<TOut, TCollected, TNext>>,
}

impl<
    TOut: Send + 'static,
    TCollected,
    TNext: Node<TOut, TCollected> + Send + Sync + 'static,
> Parallel<TOut, TCollected, TNext> {
    /// Whether the handle still owns its pipeline.
    pub closed spec fn is_live(&self) -> bool {
        self.first_block is Some
    }

    /// Creates a new parallel pipeline around an assembled chain of nodes.
    pub fn new(first_block: OutNode<TOut, TCollected, TNext>) -> (r: Parallel<
        TOut,
        TCollected,
        TNext,
    >)
        ensures
            r.is_live(),
    {
        Parallel { first_block: Some(first_block) }
    }

    /// Starts the pipeline: the source begins to produce.  The handle must
    /// still own its pipeline: a handle that `wait_and_collect` or `terminate`
    /// has already consumed cannot be started.  Starting more than once has
    /// no further effect.
    pub fn start(&mut self)
        requires
            old(self).is_live(),
        ensures
            final(self).is_live(),
    {
        let block = self.first_block.take();
        match block {
            Some(mut b) => {
                let _ = b.start();
                self.first_block = Some(b);
            },
            None => (),
        }
    }

    /// Waits for the pipeline to terminate and collects the result: joins the
    /// source and every replica of every stage, then returns what the sink
    /// finalized.  A second call returns `None`.
    pub fn wait_and_collect(&mut self) -> (r: Option<TCollected>)
        ensures
            !final(self).is_live(),
            !old(self).is_live() ==> r is None,
    {
        let block = self.first_block.take();
        match block {
            Some(b) => b.collect(),
            None => None,
        }
    }

    /// Tears the pipeline down even while the source still produces: raises
    /// the stop flag, lets the termination wave run, joins every worker
    /// thread, and discards the collected value.
    pub fn terminate(&mut self)
        ensures
            !final(self).is_live(),
    {
        let block = self.first_block.take();
        match block {
            Some(b) => b.terminate(),
            None => (),
        }
    }
}

} // verus!
