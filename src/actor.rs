//! The parts of the actor runtime that hold no scheduling: the envelope that
//! travels through a mailbox, and the mailbox's size.
use vstd::prelude::*;

verus! {

/// How many messages an actor's mailbox holds before senders wait.
pub const MAILBOX_CAPACITY: usize = 8;

/// An envelope around a payload sent to an actor; the receiver owns it whole.
#[derive(Debug)]
pub struct Message<T> {
    pub data: T,
}

impl<T> Message<T> {
    /// Wraps `data` for sending.
    pub fn new(data: T) -> (r: Message<T>)
        ensures
            r.data == data,
    {
        Message { data }
    }
}

} // verus!
