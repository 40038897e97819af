//! A queue between the client and its transport, over `std::sync::mpsc`.

use vstd::prelude::*;

verus! {

/// `std::sync::mpsc::Sender`, as an opaque type.
#[verifier::external_type_specification]
#[verifier::external_body]
#[verifier::reject_recursive_types(T)]
pub struct ExStdSender<T>(std::sync::mpsc::Sender<T>);

/// `std::sync::mpsc::Receiver`, as an opaque type.
#[verifier::external_type_specification]
#[verifier::external_body]
#[verifier::reject_recursive_types(T)]
pub struct ExStdReceiver<T>(std::sync::mpsc::Receiver<T>);

/// Why nothing was received.
#[derive(Debug, Clone, Copy, PartialEq, Eq)]
pub enum TryRecvError {
    /// Nothing is queued now.
    Empty,
    /// Nothing is queued and every sender is gone.
    Disconnected,
}

/// Calls `std::sync::mpsc::channel`. Nothing is claimed of the two halves.
#[verifier::external_body]
pub(crate) fn open_queue<T>() -> (std::sync::mpsc::Sender<T>, std::sync::mpsc::Receiver<T>) {
    std::sync::mpsc::channel()
}

/// Calls `send` on the sending half. Whether the value is queued depends on
/// the receiving half; where it is not, the error of `std` holds the value,
/// and it comes back unchanged.
#[verifier::external_body]
pub(crate) fn queue_send<T>(sender: &std::sync::mpsc::Sender<T>, value: T) -> (r: Result<(), T>)
    ensures
        r matches Err(back) ==> back == value,
{
    sender.send(value).map_err(|e| e.0)
}

/// Calls `try_recv` on the receiving half, which does not wait. What comes
/// back depends on what other threads have sent: nothing is claimed of it.
#[verifier::external_body]
pub(crate) fn queue_try_recv<T>(receiver: &std::sync::mpsc::Receiver<T>) -> Result<T, TryRecvError> {
    match receiver.try_recv() {
        Ok(value) => Ok(value),
        Err(std::sync::mpsc::TryRecvError::Empty) => Err(TryRecvError::Empty),
        Err(std::sync::mpsc::TryRecvError::Disconnected) => Err(TryRecvError::Disconnected),
    }
}

/// The sending half of a queue.
#[verifier::reject_recursive_types(T)]
pub struct Sender<T> {
    inner: std::sync::mpsc::Sender<T>,
}

/// The receiving half of a queue.
#[verifier::reject_recursive_types(T)]
pub struct Receiver<T> {
    inner: std::sync::mpsc::Receiver<T>,
}

impl<T> Sender<T> {
    /// Queues a value. Where the receiver is gone the value comes back.
    pub fn send(&self, t: T) -> (r: Result<(), T>)
        ensures
            r matches Err(back) ==> back == t,
    {
        queue_send(&self.inner, t)
    }
}

impl<T> Receiver<T> {
    /// Takes the next queued value, without waiting for one.
    pub fn try_recv(&mut self) -> Result<T, TryRecvError> {
        queue_try_recv(&self.inner)
    }
}

/// A new queue. Its capacity is not limited: the argument is not used.
pub fn channel<T>(_capacity: usize) -> (Sender<T>, Receiver<T>) {
    let (tx, rx) = open_queue();
    (Sender { inner: tx }, Receiver { inner: rx })
}

} // verus!
