//! Channel backend built on the `flume` crate.  The flume sender and receiver
//! types are declared opaquely; every call into the crate sits in a small
//! trusted wrapper, and nothing is claimed of a receive outcome beyond the
//! shape of the result, since what arrives depends on the other threads.

use vstd::prelude::*;

use super::{InputChannel, OutputChannel, ReceiverError, SenderError};

verus! {

#[verifier::external_type_specification]
#[verifier::external_body]
#[verifier::reject_recursive_types(T)]
pub struct ExSender<T>(flume::Sender<T>);

#[verifier::external_type_specification]
#[verifier::external_body]
#[verifier::reject_recursive_types(T)]
pub struct ExReceiver<T>(flume::Receiver<T>);

/// Non-blocking receiving half of a flume channel.
#[verifier::reject_recursive_types(T)]
pub struct FlumeInputChannel<T> {
    rx: flume::Receiver<T>,
}

/// Sending half of a flume channel.
#[verifier::reject_recursive_types(T)]
pub struct FlumeOutputChannel<T> {
    tx: flume::Sender<T>,
}

/// Relies on flume::unbounded: builds a connected sender/receiver pair over
/// an unbounded FIFO queue.
#[verifier::external_body]
fn unbounded_raw<T: Send>() -> (flume::Sender<T>, flume::Receiver<T>) {
    flume::unbounded()
}

/// Relies on flume::Sender::send: on an unbounded channel it enqueues without
/// blocking and errs only when every receiver has been dropped.
#[verifier::external_body]
fn send_raw<T: Send>(tx: &flume::Sender<T>, msg: T) -> Result<(), SenderError> {
    match tx.send(msg) {
        Ok(()) => Ok(()),
        Err(_) => Err(SenderError),
    }
}

/// Relies on flume::Receiver::try_recv: yields a queued value, or tells an
/// empty queue apart from one whose senders are all gone.
#[verifier::external_body]
fn try_recv_raw<T: Send>(rx: &flume::Receiver<T>) -> Result<Option<T>, ReceiverError> {
    match rx.try_recv() {
        Ok(msg) => Ok(Some(msg)),
        Err(flume::TryRecvError::Empty) => Ok(None),
        Err(flume::TryRecvError::Disconnected) => Err(ReceiverError),
    }
}

/// Relies on flume::Receiver::recv: parks the calling thread until a value
/// arrives, and errs only when every sender has been dropped.
#[verifier::external_body]
fn recv_raw<T: Send>(rx: &flume::Receiver<T>) -> Result<Option<T>, ReceiverError> {
    match rx.recv() {
        Ok(msg) => Ok(Some(msg)),
        Err(flume::RecvError::Disconnected) => Err(ReceiverError),
    }
}

/// Relies on flume::Receiver::is_empty: a momentary emptiness snapshot.
#[verifier::external_body]
fn is_empty_raw<T: Send>(rx: &flume::Receiver<T>) -> bool {
    rx.is_empty()
}

/// Relies on flume's Clone for Sender: the clone feeds the same queue.
#[verifier::external_body]
fn clone_sender<T>(tx: &flume::Sender<T>) -> flume::Sender<T> {
    tx.clone()
}

impl<T: Send> FlumeInputChannel<T> {
    /// Non-blocking receive: `Ok(None)` when the queue is momentarily empty.
    pub fn receive(&self) -> Result<Option<T>, ReceiverError> {
        try_recv_raw(&self.rx)
    }

    /// Blocking receive: parks until a value arrives or the senders are gone.
    pub fn receive_blocking(&self) -> Result<Option<T>, ReceiverError> {
        recv_raw(&self.rx)
    }

    /// Best-effort emptiness snapshot.
    pub fn is_empty(&self) -> bool {
        is_empty_raw(&self.rx)
    }
}

impl<T: Send> FlumeOutputChannel<T> {
    /// Enqueues a value; fails only if every receiver has been destroyed.
    pub fn send(&self, msg: T) -> Result<(), SenderError> {
        send_raw(&self.tx, msg)
    }
}

impl<T> Clone for FlumeOutputChannel<T> {
    fn clone(&self) -> Self {
        FlumeOutputChannel { tx: clone_sender(&self.tx) }
    }
}

/// Factory for typed channels over the flume backend.
pub struct Channel;

impl Channel {
    /// Builds an unbounded channel.  If `blocking` is true the receiving end
    /// parks on an empty queue instead of reporting `Ok(None)`.
    pub fn channel<T: Send + 'static>(blocking: bool) -> (InputChannel<T>, OutputChannel<T>) {
        let (tx, rx) = unbounded_raw();
        (
            InputChannel::new(FlumeInputChannel { rx }, blocking),
            OutputChannel::new(FlumeOutputChannel { tx }),
        )
    }
}

} // verus!
