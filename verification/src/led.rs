//! A light on one output pin. The actor decides which level the pin is to be
//! driven to; driving it is left to whoever holds the pin.

use vstd::prelude::*;
use crate::blinker::State;
use crate::handler::{Nothing, RequestHandler, Response};

verus! {

/// Which level of its pin makes a light shine.
#[derive(Clone, Copy, Debug, PartialEq, Eq, Structural)]
pub enum Active {
    High,
    Low,
}

/// A level to drive a pin to.
#[derive(Clone, Copy, Debug, PartialEq, Eq, Structural)]
pub enum Level {
    High,
    Low,
}

/// The level that puts a light of the given polarity into `state`.
pub open spec fn level_for(active: Active, state: State) -> Level {
    match (active, state) {
        (Active::High, State::On) => Level::High,
        (Active::High, State::Off) => Level::Low,
        (Active::Low, State::On) => Level::Low,
        (Active::Low, State::Off) => Level::High,
    }
}

/// The light.
#[derive(Debug, PartialEq, Eq)]
pub struct SimpleLED {
    pub active: Active,
}

/// The switching off of a light, which runs with the light in its hands.
#[derive(Debug, PartialEq, Eq)]
pub struct TurnOff {
    pub led: SimpleLED,
}

/// What the light answers with.
pub type LedResponse = Response<SimpleLED, Nothing, TurnOff, Nothing>;

impl SimpleLED {
    /// A light that shines at the given level of its pin.
    pub fn new(active: Active) -> (led: SimpleLED)
        ensures
            led == (SimpleLED { active }),
    {
        SimpleLED { active }
    }

    /// The level that makes the light shine.
    pub fn turn_on(&self) -> (level: Level)
        ensures
            level == level_for(self.active, State::On),
    {
        match self.active {
            Active::High => Level::High,
            Active::Low => Level::Low,
        }
    }

    /// The level that makes the light go dark.
    pub fn turn_off(&self) -> (level: Level)
        ensures
            level == level_for(self.active, State::Off),
    {
        match self.active {
            Active::High => Level::Low,
            Active::Low => Level::High,
        }
    }
}

impl TurnOff {
    /// Runs the switching off to its end: the level to drive the pin to, and
    /// the light given back.
    pub fn run(self) -> (done: (SimpleLED, Level))
        ensures
            done.0 == self.led,
            done.1 == level_for(self.led.active, State::Off),
    {
        let level = self.led.turn_off();
        (self.led, level)
    }
}

impl RequestHandler<State> for SimpleLED {
    type Response = Nothing;

    type Deferred = TurnOff;

    type FollowUp = Nothing;

    type Posts = Option<Level>;

    open spec fn receptive(&self) -> bool {
        true
    }

    /// Switching on is answered at once, with the level to drive the pin to;
    /// switching off is deferred to a computation that holds the light.
    fn on_request(self, message: State) -> (handled: (LedResponse, Option<Level>))
        ensures
            handled == match message {
                State::On => (
                    LedResponse::Immediate(self, ()),
                    Some(level_for(self.active, State::On)),
                ),
                State::Off => (LedResponse::Defer(TurnOff { led: self }), None::<Level>),
            },
    {
        match message {
            State::On => {
                let level = self.turn_on();
                (Response::immediate(self, ()), Some(level))
            },
            State::Off => (Response::defer(TurnOff { led: self }), None),
        }
    }
}

} // verus!
