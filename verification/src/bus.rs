//! The event bus: the one actor whose requests end in the device itself.

use vstd::prelude::*;
use crate::address::{Address, Envelope};
use crate::handler::{EventHandler, Nothing, RequestHandler, Response};

verus! {

/// The actor that hands every event it is sent to the device.
pub struct EventBus<D> {
    device: D,
}

/// What the event bus answers with: nothing, and at once.
pub type BusResponse<D> = Response<EventBus<D>, Nothing, Nothing, Nothing>;

impl<D> EventBus<D> {
    /// The device behind the bus.
    pub closed spec fn device_spec(&self) -> D {
        self.device
    }

    /// The bus of `device`.
    pub fn new(device: D) -> (bus: EventBus<D>)
        ensures
            bus.device_spec() == device,
    {
        EventBus { device }
    }

    /// The device behind the bus.
    pub fn device(&self) -> (device: &D)
        ensures
            *device == self.device_spec(),
    {
        &self.device
    }
}

impl<D: EventHandler<M>, M> RequestHandler<M> for EventBus<D> {
    type Response = Nothing;

    type Deferred = Nothing;

    type FollowUp = Nothing;

    type Posts = Nothing;

    open spec fn receptive(&self) -> bool {
        true
    }

    /// Hands `message` to the device and answers at once.
    fn on_request(self, message: M) -> (handled: (BusResponse<D>, Nothing))
        ensures
            handled.0 == BusResponse::<D>::Immediate(self, ()),
    {
        self.device.on_event(message);
        (Response::immediate(self, ()), ())
    }
}

impl Address {
    /// The message that puts `message` on the event bus at this address.
    pub fn publish<E>(&self, message: E) -> (envelope: Envelope<E>)
        ensures
            envelope == (Envelope { to: *self, message }),
    {
        self.notify(message)
    }
}

} // verus!
