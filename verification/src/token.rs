//! Resumption tokens and the slot that holds at most one of them.

use core::task::Waker;
use vstd::prelude::*;

verus! {

/// `core::task::Waker`, carried through as an opaque value.
#[verifier::external_type_specification]
#[verifier::external_body]
pub struct ExWaker(Waker);

/// Calls `Waker::wake`, which consumes the token and asks its task to be polled
/// again. Nothing is claimed of the effect.
#[verifier::external_body]
pub(crate) fn wake_token(token: Waker) {
    token.wake()
}

/// Calls `Waker::clone`. Nothing is claimed of the copy.
#[verifier::external_body]
pub(crate) fn clone_token(token: &Waker) -> (copy: Waker) {
    token.clone()
}

/// A place for the token of one suspended computation.
///
/// Registering overwrites what was there; waking takes the token out before it
/// is invoked, so one registration is answered by at most one invocation.
pub struct WakerSlot {
    token: Option<Waker>,
}

/// What can be done to a slot.
pub enum SlotOp {
    Register,
    Wake,
}

/// Whether a slot holds a token after `op`.
pub open spec fn registered_after(op: SlotOp) -> bool {
    op is Register
}

/// Whether `op` invokes a token, given whether the slot held one.
pub open spec fn invokes(registered: bool, op: SlotOp) -> bool {
    op is Wake && registered
}

/// How many tokens `ops`, applied in order, invoke.
pub open spec fn invocations(registered: bool, ops: Seq<SlotOp>) -> nat
    decreases ops.len(),
{
    if ops.len() == 0 {
        0
    } else {
        (if invokes(registered, ops[0]) { 1nat } else { 0nat })
            + invocations(registered_after(ops[0]), ops.drop_first())
    }
}

/// How many of `ops` register a token.
pub open spec fn registrations(ops: Seq<SlotOp>) -> nat
    decreases ops.len(),
{
    if ops.len() == 0 {
        0
    } else {
        (if ops[0] is Register { 1nat } else { 0nat }) + registrations(ops.drop_first())
    }
}

/// No run of operations invokes more tokens than it registered, apart from the
/// one token the slot may have held at the start.
pub proof fn lemma_single_wakeup(registered: bool, ops: Seq<SlotOp>)
    ensures
        invocations(registered, ops) <= registrations(ops) + (if registered { 1nat } else { 0nat }),
    decreases ops.len(),
{
    if ops.len() > 0 {
        lemma_single_wakeup(registered_after(ops[0]), ops.drop_first());
    }
}

/// Two wakes in a row invoke at most one token.
pub proof fn lemma_second_wake_is_idle(registered: bool)
    ensures
        !invokes(registered_after(SlotOp::Wake), SlotOp::Wake),
{
}

impl WakerSlot {
    /// Whether a token is waiting in the slot.
    pub closed spec fn registered(&self) -> bool {
        self.token is Some
    }

    /// The token in the slot, if any.
    pub closed spec fn held(&self) -> Option<Waker> {
        self.token
    }

    /// An empty slot.
    pub fn new() -> (slot: WakerSlot)
        ensures
            !slot.registered(),
            slot.held() is None,
    {
        WakerSlot { token: None }
    }

    /// Puts `token` in the slot, dropping the one that was there.
    pub fn register(&mut self, token: Waker)
        ensures
            final(self).held() == Some(token),
            final(self).registered() == registered_after(SlotOp::Register),
    {
        self.token = Some(token);
    }

    /// Whether a token is waiting in the slot.
    pub fn is_registered(&self) -> (held: bool)
        ensures
            held == self.registered(),
    {
        self.token.is_some()
    }

    /// Takes the token out without invoking it.
    pub fn take(&mut self) -> (token: Option<Waker>)
        ensures
            token == old(self).held(),
            final(self).held() is None,
            !final(self).registered(),
    {
        self.token.take()
    }

    /// Takes the token out and invokes it; tells whether there was one.
    pub fn wake(&mut self) -> (invoked: bool)
        ensures
            invoked == invokes(old(self).registered(), SlotOp::Wake),
            final(self).registered() == registered_after(SlotOp::Wake),
            final(self).held() is None,
    {
        match self.token.take() {
            Some(token) => {
                wake_token(token);
                true
            },
            None => false,
        }
    }
}

} // verus!
