//! Ingress serialization for ordered stages.
//!
//! A stage that must see its input in order, but sits downstream of a
//! multi-replica stage, receives messages whose order ids are a permutation of
//! `0, 1, 2, ...`.  The state here releases a message the moment its order id
//! is the next one owed, and buffers every early arrival until the gap before
//! it has been filled.

use std::collections::BTreeMap;

use vstd::prelude::*;

use crate::task::Task;

verus! {

/// Reordering state of an ordered ingress: the order id owed next, and the
/// early arrivals buffered by order id.
#[verifier::reject_recursive_types(T)]
pub struct ReorderState<T> {
    next_msg: usize,
    storage: BTreeMap<usize, Task<T>>,
}

/// What one ingress step does: relates the state before accepting a message
/// carrying `(op, order)` to the state after it, together with the sequence
/// `released` of messages the step lets through, in the order they go out.
///
/// A message is buffered unless its order id is exactly the one owed next;
/// when it is, it goes out at once, followed by the contiguous run of buffered
/// successors.  (An order id at the very top of `usize` is parked instead of
/// released, since no id could follow it.)
pub open spec fn accept_rel<T>(
    pre_next: usize,
    pre_pending: Map<usize, Task<T>>,
    op: Task<T>,
    order: usize,
    post_next: usize,
    post_pending: Map<usize, Task<T>>,
    released: Seq<(Task<T>, usize)>,
) -> bool {
    if order != pre_next || order == usize::MAX {
        &&& post_next == pre_next
        &&& post_pending == pre_pending.insert(order, op)
        &&& released.len() == 0
    } else {
        &&& released.len() >= 1
        &&& released[0] == (op, order)
        &&& post_next == order + released.len()
        &&& forall|k: usize|
            order < k < post_next ==> {
                &&& #[trigger] pre_pending.contains_key(k)
                &&& released[k - order] == (pre_pending[k], k)
            }
        &&& post_pending == pre_pending.remove_keys(
            Set::new(|k: usize| order <= k < post_next),
        )
        &&& post_next == usize::MAX || !pre_pending.contains_key(post_next)
    }
}

impl<T> ReorderState<T> {
    /// Order id of the message owed next to the stage behind this ingress.
    pub closed spec fn next(self) -> usize {
        self.next_msg
    }

    /// The early arrivals currently buffered, keyed by order id.
    pub closed spec fn pending(self) -> Map<usize, Task<T>> {
        self.storage@
    }

    /// A fresh ingress owes order id `0` and buffers nothing.
    pub fn new() -> (r: ReorderState<T>)
        ensures
            r.next() == 0,
            r.pending() == Map::<usize, Task<T>>::empty(),
    {
        ReorderState { next_msg: 0, storage: BTreeMap::new() }
    }

    /// Accepts one arriving message and returns the messages it lets through,
    /// in release order, as [`accept_rel`] describes.
    pub fn accept(&mut self, op: Task<T>, order: usize) -> (released: Vec<(Task<T>, usize)>)
        ensures
            accept_rel(
                old(self).next(),
                old(self).pending(),
                op,
                order,
                final(self).next(),
                final(self).pending(),
                released@,
            ),
    {
        let ghost pre = self.storage@;
        if order != self.next_msg || order == usize::MAX {
            self.storage.insert(order, op);
            Vec::new()
        } else {
            self.storage.remove(&order);
            let mut released: Vec<(Task<T>, usize)> = Vec::new();
            released.push((op, order));
            let mut c: usize = order + 1;
            proof {
                assert(self.storage@ =~= pre.remove_keys(Set::new(|k: usize| order <= k < c)));
            }
            loop
                invariant
                    order < usize::MAX,
                    order < c <= usize::MAX,
                    c == order + released@.len(),
                    released@.len() >= 1,
                    released@[0] == (op, order),
                    forall|k: usize|
                        order < k < c ==> {
                            &&& #[trigger] pre.contains_key(k)
                            &&& released@[k - order] == (pre[k], k)
                        },
                    self.storage@ == pre.remove_keys(Set::new(|k: usize| order <= k < c)),
                    self.next_msg == order,
                ensures
                    c == usize::MAX || !pre.contains_key(c),
                decreases usize::MAX - c,
            {
                if c == usize::MAX {
                    break ;
                }
                let taken = self.storage.remove(&c);
                match taken {
                    Some(t) => {
                        proof {
                            assert(pre.remove_keys(
                                Set::new(|k: usize| order <= k < c),
                            ).contains_key(c));
                            assert(pre.contains_key(c));
                            assert(t == pre[c]);
                            assert(self.storage@ =~= pre.remove_keys(
                                Set::new(|k: usize| order <= k < c + 1),
                            ));
                        }
                        released.push((t, c));
                        c = c + 1;
                    },
                    None => {
                        proof {
                            assert(!pre.remove_keys(
                                Set::new(|k: usize| order <= k < c),
                            ).contains_key(c));
                            assert(!pre.contains_key(c));
                        }
                        break ;
                    },
                }
            }
            self.next_msg = c;
            released
        }
    }

    /// The order id owed next, as a runtime value.
    pub fn next_val(&self) -> (r: usize)
        ensures
            r == self.next(),
    {
        self.next_msg
    }

    /// Whether a message with this order id was already accepted: either it
    /// has been released (its id is below the one owed next) or it still sits
    /// in the buffer.
    pub fn seen(&self, order: usize) -> (r: bool)
        ensures
            r == (order < self.next() || self.pending().contains_key(order)),
    {
        order < self.next_msg || self.storage.contains_key(&order)
    }
}

/// Abstraction invariant connecting an ingress state to its history: of all
/// the messages arrived so far (`arrived`, keyed by order id), exactly those
/// with order id below `next` have been released, in ascending order of order
/// id, and the rest sit in the buffer.
pub open spec fn reorder_inv<T>(
    next: usize,
    pending: Map<usize, Task<T>>,
    arrived: Map<usize, Task<T>>,
    released: Seq<(Task<T>, usize)>,
) -> bool {
    &&& released.len() == next
    &&& forall|i: usize|
        i < next ==> {
            &&& #[trigger] arrived.contains_key(i)
            &&& released[i as int] == (arrived[i], i)
        }
    &&& forall|k: usize| #[trigger] pending.contains_key(k) <==> (arrived.contains_key(k) && k
        >= next)
    &&& forall|k: usize| #[trigger] pending.contains_key(k) ==> pending[k] == arrived[k]
    &&& next == usize::MAX || !arrived.contains_key(next)
}

/// A fresh ingress satisfies the abstraction invariant for an empty history.
pub proof fn lemma_reorder_init<T>()
    ensures
        reorder_inv(
            0,
            Map::<usize, Task<T>>::empty(),
            Map::<usize, Task<T>>::empty(),
            Seq::<(Task<T>, usize)>::empty(),
        ),
{
}

/// Every ingress step preserves the abstraction invariant: accepting a
/// message with a fresh order id extends the history, and whatever the step
/// releases extends the released sequence.
pub proof fn lemma_reorder_step<T>(
    pre_next: usize,
    pre_pending: Map<usize, Task<T>>,
    arrived: Map<usize, Task<T>>,
    released: Seq<(Task<T>, usize)>,
    op: Task<T>,
    order: usize,
    post_next: usize,
    post_pending: Map<usize, Task<T>>,
    step_released: Seq<(Task<T>, usize)>,
)
    requires
        reorder_inv(pre_next, pre_pending, arrived, released),
        accept_rel(pre_next, pre_pending, op, order, post_next, post_pending, step_released),
        !arrived.contains_key(order),
    ensures
        reorder_inv(post_next, post_pending, arrived.insert(order, op), released + step_released),
{
    let arrived2 = arrived.insert(order, op);
    let released2 = released + step_released;
    if order != pre_next || order == usize::MAX {
        if (order as int) < pre_next {
            assert(arrived.contains_key(order));
            assert(false);
        }
        assert forall|i: usize| i < post_next implies (#[trigger] arrived2.contains_key(i)
            && released2[i as int] == (arrived2[i], i)) by {
            assert(arrived.contains_key(i));
            assert(i != order);
            assert(released2[i as int] == released[i as int]);
        }
        assert forall|k: usize| #[trigger] post_pending.contains_key(k) implies (
        arrived2.contains_key(k) && k >= post_next) by {
            if k != order {
                assert(pre_pending.contains_key(k));
            }
        }
        assert forall|k: usize| arrived2.contains_key(k) && k >= post_next implies
            #[trigger] post_pending.contains_key(k) by {
            if k != order {
                assert(pre_pending.contains_key(k));
            }
        }
        assert forall|k: usize| #[trigger] post_pending.contains_key(k) implies post_pending[k]
            == arrived2[k] by {
            if k != order {
                assert(pre_pending.contains_key(k));
                assert(pre_pending[k] == arrived[k]);
            }
        }
        if post_next != usize::MAX && order != pre_next {
            assert(!arrived2.contains_key(post_next));
        }
    } else {
        assert(step_released.len() >= 1);
        assert forall|i: usize| i < post_next implies (#[trigger] arrived2.contains_key(i)
            && released2[i as int] == (arrived2[i], i)) by {
            if i < pre_next {
                assert(arrived.contains_key(i));
                assert(i != order);
                assert(released2[i as int] == released[i as int]);
            } else if i == order {
                assert(released2[i as int] == step_released[0]);
            } else {
                assert(order < i < post_next);
                assert(pre_pending.contains_key(i));
                assert(arrived.contains_key(i));
                assert(pre_pending[i] == arrived[i]);
                assert(released2[i as int] == step_released[i - order]);
                assert(step_released[i - order] == (pre_pending[i], i));
            }
        }
        assert forall|k: usize| #[trigger] post_pending.contains_key(k) implies (
        arrived2.contains_key(k) && k >= post_next) by {
            assert(pre_pending.contains_key(k));
            assert(k >= pre_next);
            assert(!(order <= k < post_next));
        }
        assert forall|k: usize| arrived2.contains_key(k) && k >= post_next implies
            #[trigger] post_pending.contains_key(k) by {
            assert(k != order);
            assert(arrived.contains_key(k));
            assert(k >= pre_next);
            assert(pre_pending.contains_key(k));
        }
        assert forall|k: usize| #[trigger] post_pending.contains_key(k) implies post_pending[k]
            == arrived2[k] by {
            assert(pre_pending.contains_key(k));
            assert(pre_pending[k] == arrived[k]);
            assert(k != order);
        }
        if post_next != usize::MAX {
            assert(post_next > order);
            if arrived2.contains_key(post_next) {
                assert(arrived.contains_key(post_next));
                assert(pre_pending.contains_key(post_next));
                assert(false);
            }
        }
    }
}

/// Order preservation at an ordered ingress: once the arrived order ids are
/// exactly `0 .. n`, everything has been released, and the released sequence
/// carries the arrived payloads in ascending order of order id.  This holds
/// whatever the payloads are, so skipped slots (`Task::Dropped`) keep their
/// place exactly like genuine ones.
pub proof fn lemma_reorder_complete<T>(
    next: usize,
    pending: Map<usize, Task<T>>,
    arrived: Map<usize, Task<T>>,
    released: Seq<(Task<T>, usize)>,
    n: usize,
)
    requires
        reorder_inv(next, pending, arrived, released),
        forall|k: usize| #[trigger] arrived.contains_key(k) <==> k < n,
    ensures
        next == n,
        released.len() == n,
        forall|i: int| 0 <= i < n ==> released[i] == (arrived[i as usize], i as usize),
        pending =~= Map::<usize, Task<T>>::empty(),
{
    if next < n {
        assert(arrived.contains_key(next));
        assert(pending.contains_key(next));
        assert(next != usize::MAX);
        assert(false);
    }
    if next > n {
        assert(n < next);
        assert(arrived.contains_key(n));
        assert(false);
    }
    assert forall|k: usize| !(#[trigger] pending.contains_key(k)) by {
        if pending.contains_key(k) {
            assert(arrived.contains_key(k) && k >= next);
        }
    }
    assert forall|i: int| 0 <= i < n implies released[i] == (arrived[i as usize], i as usize) by {
        let u = i as usize;
        assert(arrived.contains_key(u));
        assert(released[u as int] == (arrived[u], u));
    }
}

/// The history of an ingress: every message accepted so far, keyed by order
/// id, and the sequence of messages released so far, in release order.
#[verifier::reject_recursive_types(T)]
pub struct ReorderHistory<T> {
    pub arrived: Map<usize, Task<T>>,
    pub released: Seq<(Task<T>, usize)>,
}

/// State behind the ingress lock of an ordered stage: the reorder buffer, a
/// terminate notice parked until every order slot before it has been
/// released, and the ghost history the lock's invariant speaks of.
#[verifier::reject_recursive_types(T)]
pub struct IngressState<T> {
    pub reorder: ReorderState<T>,
    pub term: Option<usize>,
    pub history: Ghost<ReorderHistory<T>>,
}

impl<T> IngressState<T> {
    /// A fresh ingress: nothing owed, nothing buffered, no terminate parked,
    /// an empty history.
    pub fn new() -> (r: IngressState<T>)
        ensures
            r.reorder.next() == 0,
            r.reorder.pending() == Map::<usize, Task<T>>::empty(),
            r.term is None,
            r.history@.arrived == Map::<usize, Task<T>>::empty(),
            r.history@.released == Seq::<(Task<T>, usize)>::empty(),
    {
        IngressState {
            reorder: ReorderState::new(),
            term: None,
            history: Ghost(
                ReorderHistory {
                    arrived: Map::empty(),
                    released: Seq::empty(),
                },
            ),
        }
    }
}

} // verus!
