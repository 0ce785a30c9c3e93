//! A pipeline handle that collects eagerly: start the source, then consume
//! the handle to join everything and take the sink's value.
//!
//! A pipeline always begins with a single-output source; this crate offers no
//! multi-output first block.

use vstd::prelude::*;

verus! {

use crate::node::out_node::OutNode;
use crate::node::Node;

/// Owns the source of a pipeline; the downstream stages hang off it.
#[verifier::reject_recursive_types(TOut)]
#[verifier::reject_recursive_types(TCollected)]
pub struct Pipeline<TOut: Send, TCollected, TNext> {
    first_block: OutNode<TOut, TCollected, TNext>,
}

impl<
    TOut: Send + 'static,
    TCollected,
    TNext: Node<TOut, TCollected> + Send + Sync + 'static,
> Pipeline<TOut, TCollected, TNext> {
    /// Whether the source has been started.
    pub closed spec fn is_started(&self) -> bool {
        self.first_block.is_started()
    }

    /// Wraps an assembled chain of nodes into a pipeline handle.
    pub fn new(first_block: OutNode<TOut, TCollected, TNext>) -> (r: Pipeline<
        TOut,
        TCollected,
        TNext,
    >)
        ensures
            r.is_started() == first_block.is_started(),
    {
        Pipeline { first_block }
    }

    /// Starts the source; items begin to flow.  Starting more than once has
    /// no further effect: the latch in front of the source opens exactly once.
    pub fn start(&mut self)
        ensures
            final(self).is_started(),
    {
        let _ = self.first_block.start();
    }

    /// Joins the source and every replica downstream, and returns the value
    /// the sink finalized.
    pub fn collect(self) -> Option<TCollected> {
        self.first_block.collect()
    }
}

} // verus!
