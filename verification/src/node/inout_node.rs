//! The replicated transform stage: distributes input messages over `R`
//! replica threads, preserves ordering when asked to, and supports producer
//! stages that turn one input into a batch of outputs.

use vstd::prelude::*;

verus! {

use core::marker::PhantomData;
use std::sync::Arc;
use vstd::rwlock::RwLock;

use crate::mpsc::{channel_flume::Channel, InputChannel, OutputChannel, SenderError};
use crate::node::reorder::IngressState;
use crate::node::{arc_try_unwrap, ordered_ingress_send, AnyValue, IngressPred, Node};
use crate::orchestrator::{push_job, JobInfo};
use crate::task::{Message, Task};

/// A transform stage: consumes one input and produces at most one output —
/// or, for a producer stage, a whole batch of outputs through `produce`.
/// Each of its replicas runs on a private copy of the handler.
pub trait InOut<TIn, TOut>: Sized + Clone {
    /// Called on each arriving item; `None` skips the item's order slot.
    fn run(&mut self, input: TIn) -> Option<TOut>;

    /// When `is_producer` is true, called repeatedly right after `run` until
    /// it returns `None`; each value becomes one outbound item.
    fn produce(&mut self) -> Option<TOut> {
        None
    }

    /// How many replicas of this stage run in parallel.
    fn number_of_replicas(&self) -> usize {
        1
    }

    /// Whether items must leave this stage in the order they entered it.
    fn is_ordered(&self) -> bool {
        false
    }

    /// Reserved; the runtime treats it as false.
    fn broadcasting(&self) -> bool {
        false
    }

    /// Reserved; the runtime treats it as false.
    fn a2a(&self) -> bool {
        false
    }

    /// Whether this stage produces many outputs per input through `produce`.
    fn is_producer(&self) -> bool {
        false
    }
}

/// Shared state of the ordered-splitter protocol: `latest` is the order id of
/// the next input whose produced batch may be emitted, and `start` is the
/// next outbound order id to assign.  The ghost `sizes` records the size of
/// every batch emitted so far, one entry per input, in input order.
pub struct OrderedSplitter {
    latest: usize,
    start: usize,
    sizes: Ghost<Seq<nat>>,
}

impl OrderedSplitter {
    /// The order id of the next input allowed to emit.
    pub closed spec fn spec_latest(&self) -> usize {
        self.latest
    }

    /// The next outbound order id to assign.
    pub closed spec fn spec_start(&self) -> usize {
        self.start
    }

    /// The sizes of the batches emitted so far, in input order.
    pub closed spec fn spec_sizes(&self) -> Seq<nat> {
        self.sizes@
    }

    /// A fresh splitter: the first input emits first, ids start at zero.
    pub fn new() -> (r: OrderedSplitter)
        ensures
            r.spec_latest() == 0,
            r.spec_start() == 0,
            r.spec_sizes() == Seq::<nat>::empty(),
    {
        OrderedSplitter { latest: 0, start: 0, sizes: Ghost(Seq::empty()) }
    }

    /// Reads `(latest, start)`.
    pub fn get(&self) -> (r: (usize, usize))
        ensures
            r.0 == self.spec_latest(),
            r.1 == self.spec_start(),
    {
        (self.latest, self.start)
    }

    /// Writes `(latest, start)`, recording how far `start` moved as the size
    /// of the batch whose emission is being committed.
    pub fn set(&mut self, latest: usize, start: usize)
        ensures
            final(self).spec_latest() == latest,
            final(self).spec_start() == start,
            final(self).spec_sizes() == old(self).spec_sizes().push(
                if start >= old(self).spec_start() {
                    (start - old(self).spec_start()) as nat
                } else {
                    0
                },
            ),
    {
        proof {
            let k: nat = if start >= self.start {
                (start - self.start) as nat
            } else {
                0
            };
            self.sizes@ = self.sizes@.push(k);
        }
        self.latest = latest;
        self.start = start;
    }
}

/// Lock predicate of the splitter state: the protocol never leaves the gap
/// between `latest`, `start` and the recorded history — one batch was emitted
/// for each of the first `latest` inputs, and `start` is exactly the running
/// total of their sizes, so the outbound ids tile `[0, start)`.
pub struct SplitterPred;

impl vstd::rwlock::RwLockPredicate<OrderedSplitter> for SplitterPred {
    open spec fn inv(self, sp: OrderedSplitter) -> bool {
        &&& sp.spec_latest() == sp.spec_sizes().len()
        &&& splitter_inv(sp.spec_latest(), sp.spec_start(), sp.spec_sizes())
    }
}

/// [`batch_total`] reads only the first `i` entries of the sizes sequence.
pub proof fn lemma_batch_total_prefix(s1: Seq<nat>, s2: Seq<nat>, i: int)
    requires
        i <= s1.len(),
        i <= s2.len(),
        forall|j: int| 0 <= j < i ==> s1[j] == s2[j],
    ensures
        batch_total(s1, i) == batch_total(s2, i),
    decreases i,
{
    if i > 0 {
        lemma_batch_total_prefix(s1, s2, i - 1);
    }
}

/// Total number of items produced by the first `i` inputs of a producer
/// stage, given the batch size of every input.
pub open spec fn batch_total(sizes: Seq<nat>, i: int) -> nat
    decreases i,
{
    if i <= 0 {
        0
    } else {
        batch_total(sizes, i - 1) + sizes[i - 1]
    }
}

/// The splitter protocol state reached after the batches of the first
/// `latest` inputs have been emitted: outbound ids continue at the running
/// total of the batch sizes so far.
pub open spec fn splitter_inv(latest: usize, start: usize, sizes: Seq<nat>) -> bool {
    &&& latest <= sizes.len()
    &&& start == batch_total(sizes, latest as int)
}

/// A fresh splitter satisfies the protocol invariant for any batch sizes.
pub proof fn lemma_splitter_init(sizes: Seq<nat>)
    ensures
        splitter_inv(0, 0, sizes),
{
}

/// One protocol step preserves the invariant: when the turn comes for input
/// `latest`, its batch of `k` items takes the ids `start .. start + k`, and
/// the state moves to `(latest + 1, start + k)`.
pub proof fn lemma_splitter_step(latest: usize, start: usize, sizes: Seq<nat>, k: nat)
    requires
        splitter_inv(latest, start, sizes),
        (latest as int) < sizes.len(),
        sizes[latest as int] == k,
        start + k <= usize::MAX,
        latest + 1 <= usize::MAX,
    ensures
        splitter_inv((latest + 1) as usize, (start + k) as usize, sizes),
{
}

/// Splitter contiguity: the outbound order ids of successive batches tile the
/// range `[0, Σ sizes)` without gaps or overlaps — the batch of input `i`
/// begins exactly where the batch of input `i - 1` ended.
pub proof fn lemma_splitter_contiguity(sizes: Seq<nat>)
    ensures
        batch_total(sizes, 0) == 0,
        forall|i: int|
            0 <= i < sizes.len() ==> #[trigger] batch_total(sizes, i + 1) == batch_total(sizes, i)
                + sizes[i],
{
}

/// Stamps a produced batch with contiguous outbound order ids `start,
/// start + 1, ...`, in batch order.  (Ids beyond the top of `usize` cannot be
/// assigned, so items past that point — unreachable in practice — are cut.)
pub fn assign_batch<T>(items: Vec<T>, start: usize) -> (r: Vec<Message<T>>)
    ensures
        r@.len() == if items@.len() <= usize::MAX - start {
            items@.len() as int
        } else {
            usize::MAX - start
        },
        forall|i: int|
            0 <= i < r@.len() ==> (#[trigger] r@[i]).order == start + i && r@[i].op
                == Task::NewTask(items@[i]),
{
    let ghost items0 = items@;
    let mut items = items;
    let mut r: Vec<Message<T>> = Vec::new();
    let mut cs: usize = start;
    loop
        invariant
            cs == start + r@.len(),
            items@ =~= items0.skip(r@.len() as int),
            r@.len() <= items0.len(),
            forall|i: int|
                0 <= i < r@.len() ==> (#[trigger] r@[i]).order == start + i && r@[i].op
                    == Task::NewTask(items0[i]),
        ensures
            items@.len() == 0 || cs == usize::MAX,
        decreases items@.len(),
    {
        if items.len() == 0 {
            break ;
        }
        if cs == usize::MAX {
            break ;
        }
        let v = items.remove(0);
        proof {
            assert(items0.skip(r@.len() as int)[0] == items0[r@.len() as int]);
            assert(items@ =~= items0.skip(r@.len() as int + 1));
        }
        r.push(Message::new(Task::NewTask(v), cs));
        cs = cs + 1;
    }
    r
}

/// The first downstream replica index a replica begins sending to.  When the
/// next stage is wider than this one, the replicas of this stage start at
/// evenly spread offsets, so their output is not hot-spotted on one
/// downstream replica; otherwise a replica projects onto its own index.
pub open spec fn spec_initial_counter(id: usize, n_replicas: usize, next_replicas: usize) -> int {
    if next_replicas > n_replicas && n_replicas != 1 {
        (id % n_replicas) * (next_replicas / n_replicas)
    } else if next_replicas <= n_replicas {
        id as int
    } else {
        0
    }
}

/// Computes [`spec_initial_counter`]; in the spread case the result is always
/// a genuine downstream replica index.
pub fn initial_counter(id: usize, n_replicas: usize, next_replicas: usize) -> (r: usize)
    requires
        n_replicas >= 1,
        next_replicas >= 1,
    ensures
        r == spec_initial_counter(id, n_replicas, next_replicas),
        next_replicas > n_replicas ==> r < next_replicas,
{
    if next_replicas > n_replicas && n_replicas != 1 {
        let q = next_replicas / n_replicas;
        let idx = id % n_replicas;
        proof {
            vstd::arithmetic::div_mod::lemma_fundamental_div_mod(
                next_replicas as int,
                n_replicas as int,
            );
            assert(idx * q < next_replicas) by (nonlinear_arith)
                requires
                    0 <= idx < n_replicas,
                    n_replicas >= 2,
                    next_replicas > n_replicas,
                    next_replicas as int == (n_replicas as int) * (q as int) + (
                    next_replicas as int) % (n_replicas as int),
                    0 <= (next_replicas as int) % (n_replicas as int) < n_replicas as int,
            ;
        }
        idx * q
    } else if next_replicas <= n_replicas {
        id
    } else {
        0
    }
}

/// A replicated transform stage wired between its upstream and the node after
/// it: `R` worker threads, one input channel per replica, the shared ordered
/// splitter, and the ingress reorder buffer used when a single ordered
/// replica follows a multi-replica stage.
#[verifier::reject_recursive_types(TIn)]
#[verifier::reject_recursive_types(TOut)]
#[verifier::reject_recursive_types(TCollected)]
pub struct InOutNode<TIn: Send, TOut: Send, TCollected, TNext> {
    job_infos: Vec<JobInfo>,
    channels: Vec<OutputChannel<Message<TIn>>>,
    next_node: Arc<TNext>,
    ordered: bool,
    producer: bool,
    ordered_splitter: Arc<RwLock<OrderedSplitter, SplitterPred>>,
    ingress: RwLock<IngressState<TIn>, IngressPred>,
    counted: RwLock<usize, AnyValue>,
    phantom: PhantomData<(TOut, TCollected)>,
}

impl<
    TIn: Send + 'static,
    TOut: Send + 'static,
    TCollected,
    TNext: Node<TOut, TCollected> + Send + Sync + 'static,
> InOutNode<TIn, TOut, TCollected, TNext> {
    /// No replica is left unjoined.
    pub closed spec fn jobs_done(&self) -> bool {
        self.job_infos@.len() == 0
    }

    /// The number of unjoined replica jobs this node still holds.
    pub closed spec fn spec_jobs(&self) -> int {
        self.job_infos@.len() as int
    }

    /// The number of replicas of this stage: one input channel each.
    pub closed spec fn spec_replicas(&self) -> int {
        self.channels@.len() as int
    }

    /// Builds the stage around the user's handler and starts its replicas.
    /// Each replica gets a private clone of `handler` and its own input
    /// channel (blocking receive if `blocking`); a handler that asks for zero
    /// replicas gets one.
    pub fn new<H: InOut<TIn, TOut> + Send + Sync + 'static>(
        id: usize,
        handler: H,
        next_node: TNext,
        blocking: bool,
    ) -> (r: InOutNode<TIn, TOut, TCollected, TNext>)
        ensures
            r.spec_replicas() >= 1,
            r.spec_jobs() == r.spec_replicas(),
            !r.jobs_done(),
    {
        let mut job_infos: Vec<JobInfo> = Vec::new();
        let mut channels: Vec<OutputChannel<Message<TIn>>> = Vec::new();
        let next_node = Arc::new(next_node);
        let wanted = handler.number_of_replicas();
        let replicas: usize = if wanted == 0 {
            1
        } else {
            wanted
        };
        let ordered = handler.is_ordered();
        let producer = handler.is_producer();
        let splitter = Arc::new(
            RwLock::<OrderedSplitter, SplitterPred>::new(
                OrderedSplitter::new(),
                Ghost(SplitterPred),
            ),
        );
        let mut handler_slot = Some(handler);
        let mut i: usize = 0;
        while i < replicas
            invariant
                replicas >= 1,
                i <= replicas,
                job_infos@.len() == i,
                channels@.len() == i,
                i < replicas ==> handler_slot is Some,
            decreases replicas - i,
        {
            let (channel_in, channel_out) = Channel::channel(blocking);
            channels.push(channel_out);
            let nn = Arc::clone(&next_node);
            let splitter_copy = Arc::clone(&splitter);
            let copy = if i + 1 == replicas {
                handler_slot.take().unwrap()
            } else {
                let borrowed = handler_slot.as_ref().unwrap();
                borrowed.clone()
            };
            let rid = if i < usize::MAX - id {
                id + i
            } else {
                id
            };
            let func = move ||
                {
                    Self::rts(rid, copy, channel_in, &nn, replicas, &splitter_copy);
                };
            job_infos.push(push_job(func));
            i = i + 1;
        }
        InOutNode {
            job_infos,
            channels,
            next_node,
            ordered,
            producer,
            ordered_splitter: splitter,
            ingress: RwLock::<IngressState<TIn>, IngressPred>::new(
                IngressState::new(),
                Ghost(IngressPred),
            ),
            counted: RwLock::<usize, AnyValue>::new(0, Ghost(AnyValue)),
            phantom: PhantomData,
        }
    }

    /// The replica loop: pick the initial downstream target by the fan-out
    /// rule, then handle one message per turn — run the handler on genuine
    /// items, keep skipped slots alive as dropped messages, run the ordered
    /// splitter protocol for producer batches, and exit on the terminate
    /// sentinel (or when the downstream side is gone).
    fn rts<H: InOut<TIn, TOut>>(
        id: usize,
        handler: H,
        channel_in: InputChannel<Message<TIn>>,
        next_node: &Arc<TNext>,
        n_replicas: usize,
        ordered_splitter_handler: &RwLock<OrderedSplitter, SplitterPred>,
    )
        requires
            n_replicas >= 1,
    {
        let mut node = handler;
        let next_replicas = next_node.get_num_of_replicas();
        let mut counter = initial_counter(id, n_replicas, next_replicas);
        // The loop needs a decreasing measure; one turn handles at most one
        // message, so this budget is beyond any reachable stream length.
        let mut fuel: usize = usize::MAX;
        let mut alive = true;
        loop
            invariant
                n_replicas >= 1,
                next_replicas >= 1,
                next_replicas > n_replicas ==> counter <= next_replicas,
            decreases fuel,
        {
            if fuel == 0 || !alive {
                break ;
            }
            fuel = fuel - 1;
            if next_replicas > n_replicas && counter >= next_replicas {
                counter = 0;
            }
            match channel_in.receive() {
                Ok(Some(msg)) => {
                    let Message { op, order } = msg;
                    match op {
                        Task::NewTask(arg) => {
                            let output = node.run(arg);
                            if !node.is_producer() {
                                let fwd = match output {
                                    Some(v) => Message::new(Task::NewTask(v), order),
                                    None => Message::new(Task::Dropped, order),
                                };
                                if next_node.send(fwd, counter).is_err() {
                                    alive = false;
                                }
                            } else {
                                let mut tmp: Vec<TOut> = Vec::new();
                                loop
                                    decreases usize::MAX - tmp@.len(),
                                {
                                    if tmp.len() == usize::MAX {
                                        break ;
                                    }
                                    match node.produce() {
                                        Some(v) => {
                                            tmp.push(v);
                                        },
                                        None => {
                                            break ;
                                        },
                                    }
                                }
                                if node.is_ordered() {
                                    counter = Self::emit_ordered_batch(
                                        tmp,
                                        order,
                                        counter,
                                        n_replicas,
                                        next_replicas,
                                        next_node,
                                        ordered_splitter_handler,
                                        &mut alive,
                                    );
                                } else {
                                    let mut tmp = tmp;
                                    while tmp.len() > 0
                                        invariant
                                            next_replicas >= 1,
                                            next_replicas > n_replicas ==> counter
                                                <= next_replicas,
                                        decreases tmp@.len(),
                                    {
                                        let v = tmp.remove(0);
                                        if next_node.send(
                                            Message::new(Task::NewTask(v), order),
                                            counter,
                                        ).is_err() {
                                            alive = false;
                                        }
                                    }
                                }
                            }
                        },
                        Task::Dropped => {
                            if next_node.send(Message::new(Task::Dropped, order), counter).is_err()
                            {
                                alive = false;
                            }
                        },
                        Task::Terminate => {
                            break ;
                        },
                    }
                },
                Ok(None) => (),
                Err(_) => {
                    break ;
                },
            }
            if next_replicas > n_replicas && counter < next_replicas {
                counter = counter + 1;
            }
        }
    }

    /// The ordered-splitter protocol for one produced batch: spin until the
    /// turn shows this input's order id, stamp the batch with contiguous
    /// outbound ids from the shared counter, send it, and move the turn to
    /// the next input.  Returns the advanced downstream target index.
    #[verifier::spinoff_prover]
    fn emit_ordered_batch(
        batch: Vec<TOut>,
        order: usize,
        counter: usize,
        n_replicas: usize,
        next_replicas: usize,
        next_node: &Arc<TNext>,
        ordered_splitter_handler: &RwLock<OrderedSplitter, SplitterPred>,
        alive: &mut bool,
    ) -> (r: usize)
        requires
            n_replicas >= 1,
            next_replicas >= 1,
            next_replicas > n_replicas ==> counter <= next_replicas,
        ensures
            next_replicas > n_replicas ==> r <= next_replicas,
    {
        let mut counter = counter;
        let mut batch_slot = Some(batch);
        // A decreasing measure for the spin wait on the protocol's turn.
        let mut spin: usize = usize::MAX;
        loop
            invariant_except_break
                batch_slot is Some,
            invariant
                next_replicas >= 1,
                n_replicas >= 1,
                next_replicas > n_replicas ==> counter <= next_replicas,
            decreases spin,
        {
            if spin == 0 {
                break ;
            }
            spin = spin - 1;
            let (sp, handle) = ordered_splitter_handler.acquire_write();
            let (latest, start) = sp.get();
            if latest == order {
                if order == usize::MAX {
                    // The order-id space is exhausted; no batch can be
                    // stamped past this point.
                    handle.release_write(sp);
                    break ;
                }
                let ghost sizes0 = sp.spec_sizes();
                let msgs = assign_batch(batch_slot.take().unwrap(), start);
                let emitted = msgs.len();
                let mut msgs = msgs;
                while msgs.len() > 0
                    invariant
                        next_replicas >= 1,
                        next_replicas > n_replicas ==> counter <= next_replicas,
                    decreases msgs@.len(),
                {
                    let m = msgs.remove(0);
                    if next_replicas > n_replicas && counter >= next_replicas {
                        counter = 0;
                    }
                    if next_node.send(m, counter).is_err() {
                        *alive = false;
                    }
                    if next_replicas > n_replicas && counter < next_replicas {
                        counter = counter + 1;
                    }
                }
                let mut sp = sp;
                sp.set(order + 1, start + emitted);
                proof {
                    lemma_batch_total_prefix(sp.spec_sizes(), sizes0, order as int);
                }
                handle.release_write(sp);
                break ;
            } else {
                handle.release_write(sp);
            }
        }
        counter
    }

    /// Joins every replica, then forwards the terminate message downstream
    /// with the order id the next stage is owed: the splitter's running total
    /// for an ordered producer, and the ingress count otherwise (which, for
    /// an unordered stage, is the upstream count verbatim).
    pub fn wait(&mut self) -> (r: Result<(), SenderError>)
        ensures
            final(self).jobs_done(),
    {
        while self.job_infos.len() > 0
            decreases self.job_infos@.len(),
        {
            let job = self.job_infos.pop();
            match job {
                Some(mut j) => {
                    j.wait();
                },
                None => (),
            }
        }
        let c: usize;
        if self.ordered && self.producer {
            let read_handle = self.ordered_splitter.acquire_read();
            let pair = read_handle.borrow().get();
            read_handle.release_read();
            c = pair.1;
        } else if self.channels.len() == 1 && self.ordered {
            // The ingress lock's invariant ties this count to the history:
            // it equals the number of messages the ingress let through.
            let read_handle = self.ingress.acquire_read();
            c = read_handle.borrow().reorder.next_val();
            read_handle.release_read();
        } else {
            let read_handle = self.counted.acquire_read();
            c = *read_handle.borrow();
            read_handle.release_read();
        }
        self.next_node.send(Message::new(Task::Terminate, c), 0)
    }
}

impl<
    TIn: Send + 'static,
    TOut: Send + 'static,
    TCollected,
    TNext: Node<TOut, TCollected> + Send + Sync + 'static,
> Node<TIn, TCollected> for InOutNode<TIn, TOut, TCollected, TNext> {
    /// Ingress of the stage: a genuine or dropped message goes to the replica
    /// chosen upstream (serialized through the reorder buffer when a single
    /// ordered replica follows a wider stage); the terminate message is
    /// broadcast to every replica and its count is kept for [`Self::wait`].
    fn send(&self, input: Message<TIn>, rec_id: usize) -> Result<(), SenderError> {
        let n = self.channels.len();
        // A node built by `new` always has a replica (`spec_replicas() >= 1`);
        // the guard only keeps `send` total for the trait.
        if n == 0 {
            return Err(SenderError);
        }
        let rec = if rec_id >= n {
            rec_id % n
        } else {
            rec_id
        };
        let Message { op, order } = input;
        match op {
            Task::Terminate => {
                if n == 1 && self.ordered {
                    ordered_ingress_send(&self.ingress, &self.channels[0], Task::Terminate, order)
                } else {
                    let mut j: usize = 0;
                    let mut ok = true;
                    while j < n
                        invariant
                            n == self.channels@.len(),
                            j <= n,
                        decreases n - j,
                    {
                        if self.channels[j].send(Message::new(Task::Terminate, order)).is_err() {
                            ok = false;
                        }
                        j = j + 1;
                    }
                    let (_count, handle) = self.counted.acquire_write();
                    handle.release_write(order);
                    if ok {
                        Ok(())
                    } else {
                        Err(SenderError)
                    }
                }
            },
            other => {
                if n == 1 && self.ordered {
                    ordered_ingress_send(&self.ingress, &self.channels[0], other, order)
                } else {
                    let r = self.channels[rec].send(Message::new(other, order));
                    if self.ordered {
                        let (count, handle) = self.counted.acquire_write();
                        let bumped = if count < usize::MAX {
                            count + 1
                        } else {
                            count
                        };
                        handle.release_write(bumped);
                    }
                    r
                }
            },
        }
    }

    fn collect(self) -> Option<TCollected> {
        let mut this = self;
        let r = this.wait();
        if r.is_err() {
            return None;
        }
        match arc_try_unwrap(this.next_node) {
            Ok(nn) => nn.collect(),
            Err(_) => None,
        }
    }

    fn get_num_of_replicas(&self) -> (r: usize) {
        // A node built by `new` always has a replica (`spec_replicas() >= 1`);
        // the fallback only keeps the trait's bound total.
        let n = self.channels.len();
        if n == 0 {
            1
        } else {
            n
        }
    }
}

} // verus!
