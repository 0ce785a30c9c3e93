// The pool handle: independent jobs, completion on wait, and the ordered
// parallel map.

use std::sync::{Arc, Mutex};

use pspp::thread_pool::{ThreadPool, ThreadPoolError};

fn fib(n: i32) -> u64 {
    if n < 0 {
        panic!("{} is negative!", n);
    }
    match n {
        0 => panic!("zero is not a right argument to fib()!"),
        1 | 2 => 1,
        3 => 2,
        _ => fib(n - 1) + fib(n - 2),
    }
}

#[test]
fn thread_pool_test_threadpool() {
    let mut tp = ThreadPool::new_with_global_registry(8);
    for i in 1..45 {
        tp.execute(move || {
            fib(i);
        });
    }
    tp.wait();
}

#[test]
fn test_par_map() {
    let mut vec = Vec::new();
    let mut tp = ThreadPool::new_with_global_registry(16);

    for i in 0..1000 {
        vec.push(i);
    }
    let res: Vec<String> = tp
        .par_map(vec, |el: i32| -> String {
            "Hello from: ".to_string() + &el.to_string()
        })
        .unwrap();

    assert_eq!(res.len(), 1000);
    let mut check = true;
    for (i, str) in res.into_iter().enumerate() {
        if str != "Hello from: ".to_string() + &i.to_string() {
            check = false;
        }
    }
    assert!(check)
}

#[test]
fn steal_correctness() {
    // Exactly the submitted jobs run before wait returns: the counter equals
    // the number of submissions once wait comes back.
    let mut tp = ThreadPool::new_with_global_registry(4);
    let counter = Arc::new(Mutex::new(0usize));
    for _ in 0..200 {
        let counter_copy = Arc::clone(&counter);
        tp.execute(move || {
            let mut guard = counter_copy.lock().unwrap();
            *guard += 1;
        });
    }
    tp.wait();
    assert_eq!(*counter.lock().unwrap(), 200);
}

#[test]
fn test_test_threadpool() {
    let mut tp = ThreadPool::new_with_global_registry(8);
    for i in 1..45 {
        tp.execute(move || {
            fib(i);
        });
    }
    tp.wait();
}

#[test]
fn test_test_par_map() {
    let mut vec = Vec::new();
    let mut tp = ThreadPool::new_with_global_registry(8);

    for i in 0..10000 {
        vec.push(i);
    }
    let res: Vec<String> = tp
        .par_map(vec, |el: i32| -> String {
            "Hello from: ".to_string() + &el.to_string()
        })
        .unwrap();

    let mut check = true;
    for (i, str) in res.into_iter().enumerate() {
        if str != "Hello from: ".to_string() + &i.to_string() {
            check = false;
        }
    }
    assert!(check)
}

#[test]
fn test_multiple_threadpool() {
    let mut tp_1 = ThreadPool::new_with_global_registry(4);
    let mut tp_2 = ThreadPool::new_with_global_registry(4);
    tp_1.wait();
    tp_2.wait();
}

fn square(x: f64) -> f64 {
    x * x
}

#[test]
fn test_simple_map() {
    let mut pool = ThreadPool::new_with_global_registry(8);
    let mut counter = 1.0;
    let numbers: Vec<f64> = vec![1.0, 2.0, 3.0, 4.0, 5.0, 6.0, 7.0, 8.0, 9.0, 10.0];

    let res: Vec<f64> = pool.par_map(numbers, square).unwrap();

    for el in res {
        assert_eq!(el.sqrt(), counter);
        counter += 1.0;
    }
}

#[test]
fn par_map_edges() {
    // A pool asked for zero threads still makes progress, one item at a time,
    // and an empty input maps to an empty output.
    let mut tp = ThreadPool::new_with_global_registry(0);
    let empty: Vec<i32> = Vec::new();
    assert_eq!(tp.par_map(empty, |x: i32| x + 1), Some(Vec::new()));
    assert_eq!(tp.par_map(vec![1, 2, 3], |x: i32| x * 2), Some(vec![2, 4, 6]));
}

#[test]
fn pool_error_message() {
    let e = ThreadPoolError::new("queue unavailable");
    assert_eq!(e.message(), "queue unavailable");
}
