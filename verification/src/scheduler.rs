//! Requests to deliver an event to an actor after a delay.

use vstd::prelude::*;
use crate::address::{Address, Envelope};
use crate::handler::{Completion, NotifyHandler, Nothing};
use crate::time::Milliseconds;

verus! {

/// A request to hand `event` to the actor at `address` once `delay` has gone by.
#[derive(Debug, PartialEq, Eq)]
pub struct Schedule<E> {
    pub delay: Milliseconds,
    pub event: Option<E>,
    pub address: Address,
}

impl<E> Schedule<E> {
    /// A request that still holds its event.
    pub fn new(delay: Milliseconds, event: E, address: Address) -> (schedule: Schedule<E>)
        ensures
            schedule == (Schedule { delay, event: Some(event), address }),
    {
        Schedule { delay, event: Some(event), address }
    }
}

/// An event that has come due, and the actor it is for.
#[derive(Debug, PartialEq, Eq)]
pub struct Notification<E> {
    pub target: Address,
    pub event: E,
}

/// An actor that delivers events after a delay.
pub trait Scheduler<E> {
    /// Whether the scheduler's table is in order.
    spec fn ready(&self) -> bool;

    /// Whether `after` is this scheduler once it has been handed `schedule`.
    spec fn took(&self, schedule: Schedule<E>, after: &Self) -> bool;

    /// Takes `schedule` on, or drops it when no slot is free; tells which
    /// slot it took.
    fn schedule(&mut self, schedule: Schedule<E>) -> (slot: Option<usize>)
        requires
            old(self).ready(),
        ensures
            final(self).ready(),
            old(self).took(schedule, final(self)),
    ;
}

impl<S: Scheduler<E>, E> NotifyHandler<Schedule<E>> for S {
    type Deferred = Nothing;

    type Posts = Nothing;

    open spec fn receptive(&self) -> bool {
        self.ready()
    }

    /// Hands `message` to the scheduler and is done at once.
    fn on_notify(self, message: Schedule<E>) -> (handled: (Completion<S, Nothing>, Nothing))
        ensures
            handled.0 matches Completion::Immediate(scheduler) && scheduler.ready() && self.took(
                message,
                &scheduler,
            ),
    {
        let mut scheduler = self;
        let slot = scheduler.schedule(message);
        (Completion::immediate(scheduler), ())
    }
}

impl Address {
    /// The message that asks the scheduler at this address to deliver `event`
    /// to `address` after `delay`.
    pub fn schedule<E>(&self, delay: Milliseconds, event: E, address: Address) -> (envelope:
        Envelope<Schedule<E>>)
        ensures
            envelope == (Envelope {
                to: *self,
                message: Schedule { delay, event: Some(event), address },
            }),
    {
        self.notify(Schedule::new(delay, event, address))
    }
}

} // verus!
