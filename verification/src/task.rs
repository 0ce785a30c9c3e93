//! The unit of traffic between pipeline nodes: a task variant together with
//! the order id assigned by the upstream sender.

use vstd::prelude::*;

verus! {

/// One of the three things a channel can carry: a genuine payload, an order
/// slot that was explicitly skipped, or the end-of-stream sentinel.
pub enum Task<T> {
    NewTask(T),
    Dropped,
    Terminate,
}

/// A task paired with its order id.
///
/// On any single channel the order ids assigned by the upstream sender form a
/// contiguous prefix `0, 1, 2, ...` in emission order.  On a `Terminate`
/// message the order id carries the total number of items emitted before it.
pub struct Message<T> {
    pub op: Task<T>,
    pub order: usize,
}

impl<T> Message<T> {
    /// Pairs a task with an order id.
    pub fn new(op: Task<T>, order: usize) -> (r: Message<T>)
        ensures
            r.op == op,
            r.order == order,
    {
        Message { op, order }
    }

    /// Whether this message is the end-of-stream sentinel.
    pub fn is_terminate(&self) -> (r: bool)
        ensures
            r == (self.op is Terminate),
    {
        match self.op {
            Task::Terminate => true,
            _ => false,
        }
    }
}

} // verus!
