[package]
name = "pspp"
version = "0.1.0"
edition = "2021"
publish = false

[dependencies]
flume = "=0.12.0"
crossbeam-deque = "=0.8.8"
core_affinity = "=0.8.3"
jod-thread = "=1.0.0"
