//! Handles by which actors name each other's mailboxes.

use vstd::prelude::*;

verus! {

/// A copyable handle on the mailbox of one actor.
#[derive(Clone, Copy, Debug, PartialEq, Eq, Structural)]
pub struct Address {
    /// The number of the mailbox that the handle stands for.
    pub mailbox: usize,
}

/// A message on its way to a mailbox.
#[derive(Debug, PartialEq, Eq)]
pub struct Envelope<M> {
    /// The mailbox the message goes to.
    pub to: Address,
    /// The message itself.
    pub message: M,
}

impl Address {
    /// The handle of mailbox number `mailbox`.
    pub fn new(mailbox: usize) -> (address: Address)
        ensures
            address.mailbox == mailbox,
    {
        Address { mailbox }
    }

    /// Wraps `message` for delivery to this address.
    pub fn notify<M>(&self, message: M) -> (envelope: Envelope<M>)
        ensures
            envelope == (Envelope { to: *self, message }),
    {
        Envelope { to: *self, message }
    }
}

} // verus!
