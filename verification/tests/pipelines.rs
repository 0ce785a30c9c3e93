// End-to-end pipeline scenarios: identity ordering, the ordered farm, the
// ordered producer splitter, and early termination of an endless source.

use std::time::Instant;

use pspp::node::in_node::{In, InNode};
use pspp::node::inout_node::{InOut, InOutNode};
use pspp::node::out_node::{Out, OutNode};
use pspp::pspp::Parallel;

struct RangeSource {
    next: i32,
    last: i32,
}

impl Out<i32> for RangeSource {
    fn run(&mut self) -> Option<i32> {
        if self.next <= self.last {
            let v = self.next;
            self.next += 1;
            Some(v)
        } else {
            None
        }
    }
}

struct EndlessSource {
    next: i32,
}

impl Out<i32> for EndlessSource {
    fn run(&mut self) -> Option<i32> {
        self.next = self.next.wrapping_add(1);
        Some(self.next)
    }
}

#[derive(Clone)]
struct Identity {
    replicas: usize,
    ordered: bool,
}

impl InOut<i32, i32> for Identity {
    fn run(&mut self, input: i32) -> Option<i32> {
        Some(input)
    }
    fn number_of_replicas(&self) -> usize {
        self.replicas
    }
    fn is_ordered(&self) -> bool {
        self.ordered
    }
}

fn fib(n: i32) -> u64 {
    match n {
        1 | 2 => 1,
        3 => 2,
        _ => fib(n - 1) + fib(n - 2),
    }
}

#[derive(Clone)]
struct FibWorker {}

impl InOut<i32, u64> for FibWorker {
    fn run(&mut self, input: i32) -> Option<u64> {
        Some(fib(input))
    }
    fn number_of_replicas(&self) -> usize {
        8
    }
    fn is_ordered(&self) -> bool {
        true
    }
}

#[derive(Clone)]
struct Triplicator {
    buffered: Option<i32>,
    left: usize,
}

impl InOut<i32, i32> for Triplicator {
    fn run(&mut self, input: i32) -> Option<i32> {
        self.buffered = Some(input);
        self.left = 3;
        Some(input)
    }
    fn produce(&mut self) -> Option<i32> {
        if self.left > 0 {
            self.left -= 1;
            self.buffered
        } else {
            None
        }
    }
    fn number_of_replicas(&self) -> usize {
        4
    }
    fn is_ordered(&self) -> bool {
        true
    }
    fn is_producer(&self) -> bool {
        true
    }
}

struct VecSink<T> {
    values: Vec<T>,
}

impl<T: Send + 'static> In<T, Vec<T>> for VecSink<T> {
    fn run(&mut self, input: T) {
        self.values.push(input);
    }
    fn finalize(self) -> Option<Vec<T>> {
        Some(self.values)
    }
}

#[test]
fn identity_pipeline() {
    // One ordered single-replica stage: the sink must observe 1..=45 intact.
    let sink = InNode::new(0, VecSink { values: Vec::new() }, true, true);
    let stage = InOutNode::new(
        0,
        Identity {
            replicas: 1,
            ordered: true,
        },
        sink,
        true,
    );
    let source = OutNode::new(0, RangeSource { next: 1, last: 45 }, stage);
    let mut p = Parallel::new(source);
    p.start();
    let res = p.wait_and_collect().unwrap();
    let expected: Vec<i32> = (1..=45).collect();
    assert_eq!(res.len(), 45);
    assert_eq!(res, expected);
}

#[test]
fn ordered_farm() {
    // Eight ordered replicas: the sink observes fib(1), fib(2), ..., fib(45).
    let sink = InNode::new(0, VecSink { values: Vec::new() }, true, true);
    let farm = InOutNode::new(0, FibWorker {}, sink, true);
    let source = OutNode::new(0, RangeSource { next: 1, last: 45 }, farm);
    let mut p = Parallel::new(source);
    p.start();
    let res = p.wait_and_collect().unwrap();
    let expected: Vec<u64> = (1..=45).map(fib).collect();
    assert_eq!(res.len(), 45);
    assert_eq!(res, expected);
}

#[test]
fn producer_splitter() {
    // A producer stage triples each of 0..=2 over four ordered replicas; the
    // sink collects the batches contiguously and in input order.
    let sink = InNode::new(0, VecSink { values: Vec::new() }, true, true);
    let splitter = InOutNode::new(
        0,
        Triplicator {
            buffered: None,
            left: 0,
        },
        sink,
        true,
    );
    let source = OutNode::new(0, RangeSource { next: 0, last: 2 }, splitter);
    let mut p = Parallel::new(source);
    p.start();
    let res = p.wait_and_collect().unwrap();
    assert_eq!(res, vec![0, 0, 0, 1, 1, 1, 2, 2, 2]);
}

#[test]
fn empty_stream() {
    // A source that ends at once: only the termination wave runs, and the
    // sink finalizes over nothing.
    let sink = InNode::new(0, VecSink { values: Vec::new() }, true, true);
    let stage = InOutNode::new(
        0,
        Identity {
            replicas: 2,
            ordered: true,
        },
        sink,
        true,
    );
    let source = OutNode::new(0, RangeSource { next: 1, last: 0 }, stage);
    let mut p = Parallel::new(source);
    p.start();
    let res = p.wait_and_collect().unwrap();
    assert!(res.is_empty());
}

#[test]
fn zero_replicas_clamped() {
    // A handler asking for zero replicas gets one; the pipeline still runs.
    let sink = InNode::new(0, VecSink { values: Vec::new() }, true, true);
    let stage = InOutNode::new(
        0,
        Identity {
            replicas: 0,
            ordered: true,
        },
        sink,
        true,
    );
    let source = OutNode::new(0, RangeSource { next: 1, last: 5 }, stage);
    let mut p = Parallel::new(source);
    p.start();
    let res = p.wait_and_collect().unwrap();
    assert_eq!(res, vec![1, 2, 3, 4, 5]);
}

#[test]
fn termination_under_drop() {
    // An endless source: terminating the handle must stop every replica and
    // join every worker thread within a bounded time.
    let sink = InNode::new(0, VecSink { values: Vec::new() }, true, false);
    let stage = InOutNode::new(
        0,
        Identity {
            replicas: 4,
            ordered: false,
        },
        sink,
        true,
    );
    let source = OutNode::new(0, EndlessSource { next: 0 }, stage);
    let mut p = Parallel::new(source);
    p.start();
    let begin = Instant::now();
    while begin.elapsed().as_millis() < 50 {
        // let the pipeline run for a moment
    }
    p.terminate();
    // The handle is spent: everything was joined, nothing is left to collect.
    assert!(p.wait_and_collect().is_none());
}
