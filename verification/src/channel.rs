//! A one-shot rendezvous channel: a single message slot behind a ready flag.
//!
//! In a concurrent setting the slot sits behind an atomic flag so that one
//! thread may fill it while another empties it; the flag's protocol — raised
//! exactly while a message waits, a second send refused, a receive only of a
//! waiting message — is what this module states and proves over plain
//! fields.

use vstd::prelude::*;

verus! {

/// A channel that carries at most one message at a time: `send` fills the
/// slot and raises the ready flag, `receive` takes the message and lowers
/// the flag again.
pub struct Channel<T> {
    ready: bool,
    message: Option<T>,
}

impl<T> Channel<T> {
    /// The ready flag: a message is waiting to be received.
    pub closed spec fn ready(self) -> bool {
        self.ready
    }

    /// The message in the slot, if one is waiting.
    pub closed spec fn msg(self) -> Option<T> {
        self.message
    }

    /// Internal consistency: the flag is raised exactly while a message
    /// sits in the slot.
    pub closed spec fn wf(self) -> bool {
        self.ready <==> self.message is Some
    }

    /// An empty channel with the flag lowered.
    pub fn new() -> (c: Channel<T>)
        ensures
            c.wf(),
            !c.ready(),
    {
        Channel { ready: false, message: None }
    }

    /// Places a message into the channel and raises the flag.  The channel
    /// holds one message at most: a second send would overrun the waiting
    /// message, so a full channel is excluded by precondition rather than
    /// met with a panic.
    pub fn send(&mut self, message: T)
        requires
            old(self).wf(),
            !old(self).ready(),
        ensures
            final(self).wf(),
            final(self).ready(),
            final(self).msg() == Some(message),
    {
        self.ready = true;
        self.message = Some(message);
    }

    /// Takes the waiting message out and lowers the flag.  There is nothing
    /// to take from an empty channel, so that state is excluded by
    /// precondition rather than met with a panic.
    pub fn receive(&mut self) -> (m: T)
        requires
            old(self).wf(),
            old(self).ready(),
        ensures
            final(self).wf(),
            !final(self).ready(),
            old(self).msg() == Some(m),
    {
        self.ready = false;
        self.message.take().unwrap()
    }

    /// Whether a message is waiting.
    pub fn is_ready(&self) -> (r: bool)
        ensures
            r == self.ready(),
    {
        self.ready
    }
}

} // verus!
