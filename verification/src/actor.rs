//! How an actor takes its messages: one at a time, and none while a deferred
//! computation still holds it.

use core::task::Waker;
use vstd::prelude::*;
use crate::channel::{Channel, ChannelError, Mailbox, Poll, CAPACITY};
use crate::handler::Outcome;

verus! {

/// Where an actor stands in the handling of its messages.
#[derive(Clone, Copy, Debug, PartialEq, Eq, Structural)]
pub enum ActorState {
    /// Free to take the next message.
    Idle,
    /// A handler runs on a message.
    Handling,
    /// A deferred computation holds the actor.
    AwaitingDeferred,
}

/// An actor's state and mailbox as the contracts see them.
pub ghost struct ActorModel {
    pub state: ActorState,
    pub mailbox: Mailbox,
}

/// What can happen to an actor from outside its handlers.
pub enum ActorEvent {
    /// Somebody notifies the actor of a message.
    Notify(u32),
    /// The executor asks for the next message.
    Poll,
}

impl ActorModel {
    /// The actor after the executor asked for the next message.
    pub open spec fn after_next_message(self) -> ActorModel {
        if self.state is Idle {
            ActorModel {
                state: if self.mailbox.items.len() > 0 {
                    ActorState::Handling
                } else {
                    ActorState::Idle
                },
                mailbox: self.mailbox.after_poll_receive(),
            }
        } else {
            self
        }
    }

    /// What the executor is handed when it asks for the next message.
    pub open spec fn next_message(self) -> Poll<u32> {
        if self.state is Idle {
            self.mailbox.poll_receive_result()
        } else {
            Poll::Pending
        }
    }

    /// The state that follows when a handler has ended with `outcome`.
    pub open spec fn after_complete(self, outcome: Outcome) -> ActorModel {
        if self.state is Handling {
            ActorModel {
                state: if outcome is Deferred {
                    ActorState::AwaitingDeferred
                } else {
                    ActorState::Idle
                },
                ..self
            }
        } else {
            self
        }
    }

    /// The state that follows when the deferred computation has run to its end.
    pub open spec fn after_resolve(self) -> ActorModel {
        if self.state is AwaitingDeferred {
            ActorModel { state: ActorState::Idle, ..self }
        } else {
            self
        }
    }

    /// The actor after `event`.
    pub open spec fn after_event(self, event: ActorEvent) -> ActorModel {
        match event {
            ActorEvent::Notify(message) => ActorModel {
                mailbox: self.mailbox.after_try_send(message),
                ..self
            },
            ActorEvent::Poll => self.after_next_message(),
        }
    }

    /// Whether `event` hands a message to the actor's handler.
    pub open spec fn delivers(self, event: ActorEvent) -> bool {
        event is Poll && self.next_message() is Ready
    }

    /// The actor after `events`, in order.
    pub open spec fn after_events(self, events: Seq<ActorEvent>) -> ActorModel
        decreases events.len(),
    {
        if events.len() == 0 {
            self
        } else {
            self.after_event(events[0]).after_events(events.drop_first())
        }
    }

    /// How many of `events` hand a message to the actor's handler.
    pub open spec fn deliveries(self, events: Seq<ActorEvent>) -> nat
        decreases events.len(),
    {
        if events.len() == 0 {
            0
        } else {
            (if self.delivers(events[0]) {
                1nat
            } else {
                0nat
            }) + self.after_event(events[0]).deliveries(events.drop_first())
        }
    }

    /// While a handler runs or a deferred computation is outstanding, nothing
    /// that happens from outside hands the actor another message: the state
    /// stays, and whatever was waiting in the mailbox still waits, in front
    /// of what has come in since.
    pub proof fn lemma_deferred_is_exclusive(self, events: Seq<ActorEvent>)
        requires
            !(self.state is Idle),
        ensures
            self.deliveries(events) == 0,
            self.after_events(events).state == self.state,
            self.mailbox.items.is_prefix_of(self.after_events(events).mailbox.items),
        decreases events.len(),
    {
        if events.len() > 0 {
            self.after_event(events[0]).lemma_deferred_is_exclusive(events.drop_first());
        }
    }

    /// After a deferred outcome only the end of the deferred computation
    /// frees the actor, and the next message is then the oldest that waits.
    pub proof fn lemma_deferred_then_resolved(self)
        requires
            self.state is Handling,
        ensures
            self.after_complete(Outcome::Deferred).state is AwaitingDeferred,
            self.after_complete(Outcome::Deferred).next_message() is Pending,
            self.after_complete(Outcome::Deferred).after_resolve().state is Idle,
            self.after_complete(Outcome::Deferred).after_resolve().next_message()
                == self.mailbox.poll_receive_result(),
            self.after_complete(Outcome::Immediate).state is Idle,
            self.after_complete(Outcome::ImmediateWithFollowUp).state is Idle,
    {
    }
}

/// An actor's mailbox together with the state of its handling.
pub struct ActorContext {
    state: ActorState,
    channel: Channel,
}

impl View for ActorContext {
    type V = ActorModel;

    closed spec fn view(&self) -> ActorModel {
        ActorModel { state: self.state, mailbox: self.channel@ }
    }
}

impl ActorContext {
    /// An idle actor with an empty mailbox of the largest capacity.
    pub fn new() -> (context: ActorContext)
        ensures
            context@ == (ActorModel {
                state: ActorState::Idle,
                mailbox: Mailbox::empty(CAPACITY as nat),
            }),
    {
        ActorContext { state: ActorState::Idle, channel: Channel::new() }
    }

    /// An idle actor with an empty mailbox that holds up to `limit` messages,
    /// or `CAPACITY` if `limit` is more than that.
    pub fn with_capacity(limit: usize) -> (context: ActorContext)
        ensures
            context@ == (ActorModel {
                state: ActorState::Idle,
                mailbox: Mailbox::empty(Mailbox::granted(limit)),
            }),
    {
        ActorContext { state: ActorState::Idle, channel: Channel::with_capacity(limit) }
    }

    /// Where the actor stands.
    pub fn state(&self) -> (state: ActorState)
        ensures
            state == self@.state,
    {
        self.state
    }

    /// Puts `message` into the actor's mailbox without waiting, whatever the
    /// actor is doing; a full mailbox refuses it.
    pub fn notify(&mut self, message: u32) -> (outcome: Result<(), ChannelError>)
        ensures
            outcome == old(self)@.mailbox.try_send_result(),
            final(self)@ == old(self)@.after_event(ActorEvent::Notify(message)),
    {
        self.channel.sender().try_send(message)
    }

    /// Asks for the next message. An idle actor is handed the oldest message
    /// and starts handling it, or leaves `waker` to be woken when one comes
    /// in. An actor that is not idle is handed nothing, and nothing changes.
    pub fn next_message(&mut self, waker: &Waker) -> (poll: Poll<u32>)
        ensures
            poll == old(self)@.next_message(),
            final(self)@ == old(self)@.after_next_message(),
    {
        match self.state {
            ActorState::Idle => {
                let poll = self.channel.receiver().poll_dequeue(waker);
                match poll {
                    Poll::Ready(message) => {
                        self.state = ActorState::Handling;
                        Poll::Ready(message)
                    },
                    Poll::Pending => Poll::Pending,
                }
            },
            _ => Poll::Pending,
        }
    }

    /// Records that the handler has ended with `outcome`: a deferred outcome
    /// keeps the actor taken, any other frees it. Tells the state reached.
    pub fn complete(&mut self, outcome: Outcome) -> (state: ActorState)
        ensures
            final(self)@ == old(self)@.after_complete(outcome),
            state == final(self)@.state,
    {
        match self.state {
            ActorState::Handling => {
                self.state = match outcome {
                    Outcome::Deferred => ActorState::AwaitingDeferred,
                    _ => ActorState::Idle,
                };
            },
            _ => {},
        }
        self.state
    }

    /// Records that the deferred computation has run to its end.
    pub fn resolve(&mut self) -> (state: ActorState)
        ensures
            final(self)@ == old(self)@.after_resolve(),
            state == final(self)@.state,
    {
        match self.state {
            ActorState::AwaitingDeferred => {
                self.state = ActorState::Idle;
            },
            _ => {},
        }
        self.state
    }
}

} // verus!
