// A pipeline of single-replica stages: a counter source, one Fibonacci
// worker, and a sink — once counting the items, once collecting them.

use pspp::node::in_node::{In, InNode};
use pspp::node::inout_node::{InOut, InOutNode};
use pspp::node::out_node::{Out, OutNode};
use pspp::pspp::Parallel;

struct Source {
    streamlen: usize,
    counter: usize,
}

impl Out<usize> for Source {
    fn run(&mut self) -> Option<usize> {
        if self.counter < self.streamlen {
            self.counter += 1;
            Some(self.counter)
        } else {
            None
        }
    }
}

pub fn fibonacci_recursive(n: usize) -> usize {
    match n {
        0 => panic!("zero is not a right argument to fibonacci_reccursive()!"),
        1 | 2 => 1,
        3 => 2,
        _ => fibonacci_recursive(n - 1) + fibonacci_recursive(n - 2),
    }
}

#[derive(Clone)]
struct Worker {}

impl InOut<usize, usize> for Worker {
    fn run(&mut self, input: usize) -> Option<usize> {
        Some(fibonacci_recursive(input))
    }
}

struct Sink {
    counter: usize,
}

impl In<usize, usize> for Sink {
    fn run(&mut self, input: usize) {
        println!("{}", input);
        self.counter += 1;
    }

    fn finalize(self) -> Option<usize> {
        println!("End");
        Some(self.counter)
    }
}

struct SinkVec {
    values: Vec<usize>,
}

impl In<usize, Vec<usize>> for SinkVec {
    fn run(&mut self, input: usize) {
        self.values.push(input);
    }

    fn finalize(self) -> Option<Vec<usize>> {
        Some(self.values)
    }
}

#[test]
fn test_pipeline() {
    // Count the items that reach the sink.
    let sink = InNode::new(0, Sink { counter: 0 }, true, true);
    let worker = InOutNode::new(0, Worker {}, sink, true);
    let source = OutNode::new(
        0,
        Source {
            streamlen: 20,
            counter: 0,
        },
        worker,
    );
    let mut p = Parallel::new(source);
    p.start();
    let res = p.wait_and_collect();
    assert_eq!(res.unwrap(), 20);

    // The same pipeline, collecting the items instead.
    let sink = InNode::new(0, SinkVec { values: Vec::new() }, true, true);
    let worker = InOutNode::new(0, Worker {}, sink, true);
    let source = OutNode::new(
        0,
        Source {
            streamlen: 20,
            counter: 0,
        },
        worker,
    );
    let mut p = Parallel::new(source);
    p.start();
    let res = p.wait_and_collect().unwrap().len();
    assert_eq!(res, 20);
}
