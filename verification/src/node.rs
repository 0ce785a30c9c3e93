//! Pipeline nodes: the stage contract, the source, the replicated transform
//! stage, the sink, and the ingress serialization they share.

use vstd::prelude::*;

pub mod in_node;
pub mod inout_node;
pub mod out_node;
pub mod reorder;

verus! {

use std::sync::Arc;
use vstd::rwlock::RwLock;

use crate::mpsc::{OutputChannel, SenderError};
use crate::node::reorder::{lemma_reorder_step, reorder_inv, IngressState, ReorderHistory};
use crate::task::{Message, Task};

/// Lock predicate placing no restriction on the protected value: these locks
/// guard plain runtime state, whose contracts live on the state's own
/// methods rather than on a lock invariant.
pub struct AnyValue;

impl<V> vstd::rwlock::RwLockPredicate<V> for AnyValue {
    open spec fn inv(self, v: V) -> bool {
        true
    }
}

/// A pipeline stage seen from the stage before it: it accepts messages, knows
/// how many replicas receive them, and can be collected once the stream ends.
pub trait Node<TIn: Send, TCollected>: Sized {
    /// Hands one message to this node, aimed at the replica `rec_id` (taken
    /// modulo the replica count).
    fn send(&self, input: Message<TIn>, rec_id: usize) -> Result<(), SenderError>;

    /// Joins every replica of this node and of the nodes after it, and yields
    /// whatever the sink finalized.
    fn collect(self) -> Option<TCollected>;

    /// The number of replicas of this node; always at least one.
    fn get_num_of_replicas(&self) -> (r: usize)
        ensures
            r >= 1,
    ;
}

/// Relies on std's Arc::try_unwrap: yields the value when this handle is the
/// last reference to it, and hands the handle back otherwise.
#[verifier::external_body]
pub(crate) fn arc_try_unwrap<T>(v: Arc<T>) -> (r: Result<T, Arc<T>>)
    ensures
        match r {
            Ok(t) => t == v,
            Err(e) => e == v,
        },
{
    Arc::try_unwrap(v)
}

/// Lock predicate of an ordered ingress: the reorder buffer always agrees
/// with its history — of everything accepted so far, exactly the messages
/// with order id below the one owed next have been released, in ascending
/// order of order id.  Every release of this lock re-establishes it, so the
/// count an ordered stage reports on termination provably equals the number
/// of messages it let through.
pub struct IngressPred;

impl<T> vstd::rwlock::RwLockPredicate<IngressState<T>> for IngressPred {
    open spec fn inv(self, st: IngressState<T>) -> bool {
        reorder_inv(
            st.reorder.next(),
            st.reorder.pending(),
            st.history@.arrived,
            st.history@.released,
        )
    }
}

/// Ingress of an ordered stage: accepts one message into the reorder buffer
/// behind the lock and forwards whatever the buffer releases, so that the
/// stage behind it sees order ids `0, 1, 2, ...` contiguously.  A terminate
/// notice is parked until every earlier order slot went out; a message whose
/// order id was already accepted is discarded, since upstream assigns every
/// message a fresh id.
pub(crate) fn ordered_ingress_send<T: Send>(
    ingress: &RwLock<IngressState<T>, IngressPred>,
    channel: &OutputChannel<Message<T>>,
    op: Task<T>,
    order: usize,
) -> Result<(), SenderError> {
    let (mut st, handle) = ingress.acquire_write();
    let mut ok = true;
    match op {
        Task::Terminate => {
            if order == st.reorder.next_val() {
                if channel.send(Message::new(Task::Terminate, order)).is_err() {
                    ok = false;
                }
                st.term = None;
            } else {
                st.term = Some(order);
            }
        },
        other => {
            if !st.reorder.seen(order) {
                let ghost pre = st.reorder;
                let ghost history = st.history@;
                let ghost accepted_op = other;
                let mut released = st.reorder.accept(other, order);
                proof {
                    if history.arrived.contains_key(order) {
                        assert(pre.pending().contains_key(order));
                    }
                    lemma_reorder_step(
                        pre.next(),
                        pre.pending(),
                        history.arrived,
                        history.released,
                        accepted_op,
                        order,
                        st.reorder.next(),
                        st.reorder.pending(),
                        released@,
                    );
                }
                st.history = Ghost(
                    ReorderHistory {
                        arrived: history.arrived.insert(order, accepted_op),
                        released: history.released + released@,
                    },
                );
                while released.len() > 0
                    decreases released@.len(),
                {
                    let (t, o) = released.remove(0);
                    if channel.send(Message::new(t, o)).is_err() {
                        ok = false;
                    }
                }
                match st.term {
                    Some(n) => {
                        if n == st.reorder.next_val() {
                            if channel.send(Message::new(Task::Terminate, n)).is_err() {
                                ok = false;
                            }
                            st.term = None;
                        }
                    },
                    None => (),
                }
            }
        },
    }
    handle.release_write(st);
    if ok {
        Ok(())
    } else {
        Err(SenderError)
    }
}

} // verus!
