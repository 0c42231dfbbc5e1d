//! What a handler gives back: the actor itself, by value, together with a
//! result that is there at once or with a computation that is still to run.

use vstd::prelude::*;

verus! {

/// How the handling of one message ended, as far as the mailbox is concerned.
#[derive(Clone, Copy, Debug, PartialEq, Eq, Structural)]
pub enum Outcome {
    /// The result is there; the actor is free for its next message.
    Immediate,
    /// A computation holds the actor until it has run to its end.
    Deferred,
    /// The actor is free at once; the caller drives what is left.
    ImmediateWithFollowUp,
}

/// The answer of a request handler. `D` is the computation that a deferred
/// answer runs inside the actor, `F` the one that the requester drives itself.
pub enum Response<A, T, D, F> {
    /// The actor and the value, both there at once.
    Immediate(A, T),
    /// A computation that owns the actor and gives it back with the value.
    Defer(D),
    /// The actor, free again, and a computation that will give the value.
    ImmediateFuture(A, F),
}

impl<A, T, D, F> Response<A, T, D, F> {
    /// Answers at once with `val`.
    pub fn immediate(actor: A, val: T) -> (response: Self)
        ensures
            response == Response::<A, T, D, F>::Immediate(actor, val),
    {
        Response::Immediate(actor, val)
    }

    /// Answers later: `f` runs inside the actor and gives it back with the value.
    pub fn defer(f: D) -> (response: Self)
        ensures
            response == Response::<A, T, D, F>::Defer(f),
    {
        Response::Defer(f)
    }

    /// Frees the actor at once and leaves `f` to the requester.
    pub fn immediate_future(actor: A, f: F) -> (response: Self)
        ensures
            response == Response::<A, T, D, F>::ImmediateFuture(actor, f),
    {
        Response::ImmediateFuture(actor, f)
    }

    /// How this answer ends the handling of its message.
    pub open spec fn outcome_spec(&self) -> Outcome {
        match self {
            Response::Immediate(_, _) => Outcome::Immediate,
            Response::Defer(_) => Outcome::Deferred,
            Response::ImmediateFuture(_, _) => Outcome::ImmediateWithFollowUp,
        }
    }

    /// How this answer ends the handling of its message.
    pub fn outcome(&self) -> (outcome: Outcome)
        ensures
            outcome == self.outcome_spec(),
    {
        match self {
            Response::Immediate(_, _) => Outcome::Immediate,
            Response::Defer(_) => Outcome::Deferred,
            Response::ImmediateFuture(_, _) => Outcome::ImmediateWithFollowUp,
        }
    }
}

/// The answer of a notification handler: like [`Response`], without a value.
pub enum Completion<A, D> {
    /// The notification is dealt with.
    Immediate(A),
    /// A computation that owns the actor and gives it back when done.
    Defer(D),
}

impl<A, D> Completion<A, D> {
    /// The notification has been dealt with at once.
    pub fn immediate(actor: A) -> (completion: Self)
        ensures
            completion == Completion::<A, D>::Immediate(actor),
    {
        Completion::Immediate(actor)
    }

    /// The notification is dealt with by `f`, which runs inside the actor.
    pub fn defer(f: D) -> (completion: Self)
        ensures
            completion == Completion::<A, D>::Defer(f),
    {
        Completion::Defer(f)
    }

    /// How this answer ends the handling of its message.
    pub open spec fn outcome_spec(&self) -> Outcome {
        match self {
            Completion::Immediate(_) => Outcome::Immediate,
            Completion::Defer(_) => Outcome::Deferred,
        }
    }

    /// How this answer ends the handling of its message.
    pub fn outcome(&self) -> (outcome: Outcome)
        ensures
            outcome == self.outcome_spec(),
    {
        match self {
            Completion::Immediate(_) => Outcome::Immediate,
            Completion::Defer(_) => Outcome::Deferred,
        }
    }
}

/// What a handler leaves to be posted when it posts nothing, and what stands
/// for a computation where none is ever made.
pub type Nothing = ();

/// The capability to answer requests of type `M`.
pub trait RequestHandler<M>: Sized {
    /// The value that a request is answered with.
    type Response;

    /// The computation of a deferred answer.
    type Deferred;

    /// The computation that a requester is left to drive.
    type FollowUp;

    /// What the handler leaves to be posted to other actors.
    type Posts;

    /// Whether the actor is in a state in which it can be asked.
    spec fn receptive(&self) -> bool;

    /// Answers `message`.
    fn on_request(self, message: M) -> (handled: (
        Response<Self, Self::Response, Self::Deferred, Self::FollowUp>,
        Self::Posts,
    ))
        requires
            self.receptive(),
    ;

    /// Pairs the actor with `response`, as a deferred computation gives them back.
    fn respond_with(self, response: Self::Response) -> (pair: (Self, Self::Response))
        ensures
            pair == (self, response),
    {
        (self, response)
    }
}

/// The capability to take notifications of type `M`.
pub trait NotifyHandler<M>: Sized {
    /// The computation of a deferred completion.
    type Deferred;

    /// What the handler leaves to be posted to other actors.
    type Posts;

    /// Whether the actor is in a state in which it can be notified.
    spec fn receptive(&self) -> bool;

    /// Deals with `message`.
    fn on_notify(self, message: M) -> (handled: (Completion<Self, Self::Deferred>, Self::Posts))
        requires
            self.receptive(),
    ;
}

/// The capability of a device to take events of type `E` off the event bus.
pub trait EventHandler<E> {
    /// Takes `event`. Unless a device says otherwise, the event is dropped.
    fn on_event(&self, event: E) {
    }
}

} // verus!
