//! Typed multi-producer single-consumer channels between pipeline nodes,
//! with blocking and non-blocking receive variants.

use vstd::prelude::*;

pub mod channel_flume;

verus! {

/// The receiver has no live sender left and the queue is drained.
#[derive(Clone, Copy, PartialEq, Eq, Structural, Debug)]
pub struct ReceiverError;

/// The send failed because every receiver has been destroyed.
#[derive(Clone, Copy, PartialEq, Eq, Structural, Debug)]
pub struct SenderError;

/// Receiving end of a channel.  Built by [`channel_flume::Channel::channel`];
/// the `blocking` flag chosen there selects the receive discipline.
#[verifier::reject_recursive_types(T)]
pub struct InputChannel<T> {
    rx: channel_flume::FlumeInputChannel<T>,
    blocking: bool,
}

/// Sending end of a channel.  Cloneable: every clone feeds the same receiver.
#[verifier::reject_recursive_types(T)]
pub struct OutputChannel<T> {
    tx: channel_flume::FlumeOutputChannel<T>,
}

impl<T: Send> InputChannel<T> {
    pub(crate) fn new(rx: channel_flume::FlumeInputChannel<T>, blocking: bool) -> InputChannel<T> {
        InputChannel { rx, blocking }
    }

    /// In blocking mode, waits until a value arrives (`Ok(Some(..))`) or every
    /// sender is gone (`Err`).  In non-blocking mode additionally returns
    /// `Ok(None)` when the queue is momentarily empty.
    pub fn receive(&self) -> Result<Option<T>, ReceiverError> {
        if self.blocking {
            self.rx.receive_blocking()
        } else {
            self.rx.receive()
        }
    }

    /// Best-effort emptiness snapshot.
    pub fn is_empty(&self) -> bool {
        self.rx.is_empty()
    }
}

impl<T: Send> OutputChannel<T> {
    pub(crate) fn new(tx: channel_flume::FlumeOutputChannel<T>) -> OutputChannel<T> {
        OutputChannel { tx }
    }

    /// Enqueues a value; fails only if every receiver has been destroyed.
    pub fn send(&self, msg: T) -> Result<(), SenderError> {
        self.tx.send(msg)
    }
}

impl<T> Clone for OutputChannel<T> {
    fn clone(&self) -> Self {
        OutputChannel { tx: self.tx.clone() }
    }
}

} // verus!
