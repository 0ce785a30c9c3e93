// The ordering machinery on concrete values: the ingress reorder buffer, the
// batch stamper, the fan-out rule, the worker-loop decisions, the splitter
// state, and the message model.

use pspp::mpsc::channel_flume::Channel;
use pspp::mpsc::{ReceiverError, SenderError};
use pspp::node::inout_node::{assign_batch, initial_counter, OrderedSplitter};
use pspp::node::reorder::ReorderState;
use pspp::registry::{worker_step, JobKind, WorkerAction};
use pspp::task::{Message, Task};

fn new_task_value(t: &(Task<i32>, usize)) -> Option<i32> {
    match t.0 {
        Task::NewTask(v) => Some(v),
        _ => None,
    }
}

#[test]
fn reorder_releases_in_order() {
    // Arrivals 2, 0, 1, 3: nothing leaves before the gap closes, and what
    // leaves comes out in ascending order of order id.
    let mut st: ReorderState<i32> = ReorderState::new();
    assert_eq!(st.next_val(), 0);

    let released = st.accept(Task::NewTask(22), 2);
    assert!(released.is_empty());
    assert_eq!(st.next_val(), 0);

    let released = st.accept(Task::NewTask(0), 0);
    assert_eq!(released.len(), 1);
    assert_eq!(released[0].1, 0);
    assert_eq!(new_task_value(&released[0]), Some(0));
    assert_eq!(st.next_val(), 1);

    let released = st.accept(Task::NewTask(11), 1);
    assert_eq!(released.len(), 2);
    assert_eq!(released[0].1, 1);
    assert_eq!(released[1].1, 2);
    assert_eq!(new_task_value(&released[0]), Some(11));
    assert_eq!(new_task_value(&released[1]), Some(22));
    assert_eq!(st.next_val(), 3);

    // A skipped slot consumes an order id exactly like a genuine item.
    let released = st.accept(Task::Dropped, 3);
    assert_eq!(released.len(), 1);
    assert!(matches!(released[0].0, Task::Dropped));
    assert_eq!(st.next_val(), 4);
}

#[test]
fn reorder_remembers_what_it_saw() {
    let mut st: ReorderState<i32> = ReorderState::new();
    let _ = st.accept(Task::NewTask(5), 1);
    assert!(st.seen(1));
    assert!(!st.seen(0));
    let _ = st.accept(Task::NewTask(4), 0);
    assert!(st.seen(0));
    assert!(st.seen(1));
    assert!(!st.seen(2));
}

#[test]
fn batch_ids_are_contiguous() {
    let msgs = assign_batch(vec![5, 6, 7], 10);
    assert_eq!(msgs.len(), 3);
    for (i, m) in msgs.iter().enumerate() {
        assert_eq!(m.order, 10 + i);
    }
    assert!(matches!(msgs[0].op, Task::NewTask(5)));
    assert!(matches!(msgs[2].op, Task::NewTask(7)));
}

#[test]
fn splitter_state_moves_forward() {
    let mut sp = OrderedSplitter::new();
    assert_eq!(sp.get(), (0, 0));
    sp.set(1, 3);
    assert_eq!(sp.get(), (1, 3));
}

#[test]
fn fan_out_spreads_replicas() {
    // A wider next stage: replica offsets are spread by next / n.
    assert_eq!(initial_counter(0, 4, 8), 0);
    assert_eq!(initial_counter(1, 4, 8), 2);
    assert_eq!(initial_counter(3, 4, 8), 6);
    // A narrower or equal next stage: a replica projects onto its own index.
    assert_eq!(initial_counter(2, 4, 2), 2);
    assert_eq!(initial_counter(5, 8, 8), 5);
    // A single replica feeding a wider stage starts at zero.
    assert_eq!(initial_counter(7, 1, 4), 0);
}

#[test]
fn worker_decisions() {
    assert!(matches!(
        worker_step(false, Some(JobKind::NewJob)),
        (WorkerAction::RunJob, false)
    ));
    assert!(matches!(
        worker_step(false, Some(JobKind::Terminate)),
        (WorkerAction::MarkStop, true)
    ));
    // After the sentinel, the queues are still drained.
    assert!(matches!(
        worker_step(true, Some(JobKind::NewJob)),
        (WorkerAction::RunJob, true)
    ));
    // Stopping with nothing left re-posts the sentinel and exits.
    assert!(matches!(
        worker_step(true, None),
        (WorkerAction::RepostAndExit, true)
    ));
    assert!(matches!(worker_step(false, None), (WorkerAction::Yield, false)));

}

#[test]
fn message_model() {
    let m = Message::new(Task::NewTask(7), 3);
    assert_eq!(m.order, 3);
    assert!(!m.is_terminate());
    let t: Message<i32> = Message::new(Task::Terminate, 9);
    assert!(t.is_terminate());
}

#[test]
fn channel_roundtrip() {
    let (rx, tx) = Channel::channel::<i32>(false);
    assert!(rx.is_empty());
    tx.send(41).unwrap();
    tx.send(42).unwrap();
    assert_eq!(rx.receive().unwrap(), Some(41));
    assert_eq!(rx.receive().unwrap(), Some(42));
    assert_eq!(rx.receive().unwrap(), None);

    let (rx, tx) = Channel::channel::<i32>(true);
    tx.send(7).unwrap();
    assert_eq!(rx.receive().unwrap(), Some(7));
}

#[test]
fn channel_errors() {
    // Sending fails once every receiver is gone.
    let (rx, tx) = Channel::channel::<i32>(false);
    drop(rx);
    assert_eq!(tx.send(1), Err(SenderError));

    // Receiving fails once every sender is gone and the queue is drained.
    let (rx, tx) = Channel::channel::<i32>(false);
    tx.send(9).unwrap();
    drop(tx);
    assert_eq!(rx.receive(), Ok(Some(9)));
    assert_eq!(rx.receive(), Err(ReceiverError));
}
