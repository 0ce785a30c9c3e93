//! Structured parallel processing: streaming pipelines of stages and farms of
//! replicated workers, executed on OS threads and connected by typed channels.
//!
//! A pipeline is an `Out` source, any number of `InOut` transform stages, and
//! an `In` sink.  Every item travels as a [`task::Message`]: a task variant
//! paired with a monotone order id assigned by the sender.  A stage may run in
//! several replicas; an ordered stage restores emission order behind a
//! lock-protected reorder buffer whose invariant — released messages are
//! exactly the contiguous prefix of order ids, in order — is checked at every
//! lock release ([`node::reorder`]).  A producer stage turns one input into a
//! batch of outputs and stamps them with contiguous outbound ids under the
//! ordered-splitter protocol ([`node::inout_node`]).
//!
//! [`pspp::Parallel`] and [`pipeline::Pipeline`] are the lifecycle handles;
//! [`thread_pool::ThreadPool`] runs independent jobs and an order-preserving
//! parallel map; [`registry`] holds the scheduling decisions of the
//! work-stealing worker loop.

pub mod mpsc;
pub mod node;
pub mod orchestrator;
pub mod pipeline;
pub mod pspp;
pub mod registry;
pub mod task;
pub mod thread_pool;
