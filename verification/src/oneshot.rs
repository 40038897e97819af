//! A slot for one value: where a waiter is woken with its result.

use crate::mpsc::{open_queue, queue_send, queue_try_recv, TryRecvError};
use vstd::prelude::*;

verus! {

/// The half that wakes the waiter. Sending uses it up.
#[verifier::reject_recursive_types(T)]
pub struct Sender<T> {
    inner: std::sync::mpsc::Sender<T>,
}

/// The waiter's half.
#[verifier::reject_recursive_types(T)]
pub struct Receiver<T> {
    inner: std::sync::mpsc::Receiver<T>,
}

impl<T> Sender<T> {
    /// Hands the value to the waiter. Where the waiter is gone the value
    /// comes back.
    pub fn send(self, t: T) -> (r: Result<(), T>)
        ensures
            r matches Err(back) ==> back == t,
    {
        queue_send(&self.inner, t)
    }
}

impl<T> Receiver<T> {
    /// The value, if it has arrived; without waiting.
    pub fn try_recv(&mut self) -> Result<T, TryRecvError> {
        queue_try_recv(&self.inner)
    }
}

/// A new slot.
pub fn channel<T>() -> (Sender<T>, Receiver<T>) {
    let (tx, rx) = open_queue();
    (Sender { inner: tx }, Receiver { inner: rx })
}

} // verus!
