//! An actor that switches a light on and off in turn, each time asking the
//! scheduler to notify it again after its delay.

use vstd::prelude::*;
use crate::address::{Address, Envelope};
use crate::handler::{Completion, NotifyHandler, Nothing};
use crate::scheduler::Schedule;
use crate::time::Milliseconds;

verus! {

/// What a light is told to do, and what the blinker is told to do next.
#[derive(Clone, Copy, Debug, PartialEq, Eq, Structural)]
pub enum State {
    On,
    Off,
}

impl State {
    /// The other state.
    pub open spec fn toggled(self) -> State {
        match self {
            State::On => State::Off,
            State::Off => State::On,
        }
    }

    /// The other state.
    pub fn toggle(self) -> (other: State)
        ensures
            other == self.toggled(),
    {
        match self {
            State::On => State::Off,
            State::Off => State::On,
        }
    }
}

/// A request to blink with another delay from now on.
pub struct AdjustDelay(pub Milliseconds);

/// The blinker: the light and the scheduler it talks to, once bound, its own
/// address, once mounted, and the delay between two switches.
pub struct Blinker {
    led: Option<Address>,
    timer: Option<Address>,
    delay: Milliseconds,
    address: Option<Address>,
}

/// A blinker's way of ending a handler: it never defers.
pub type BlinkerCompletion = Completion<Blinker, Nothing>;

/// What a blinker's handler leaves to be posted.
pub struct Blink {
    /// The order for the light, if there is one.
    pub switch: Option<Envelope<State>>,
    /// The request to be notified again, for the scheduler.
    pub next: Option<Envelope<Schedule<State>>>,
}

/// What a blinker looks like to its contracts.
pub ghost struct BlinkerView {
    pub led: Option<Address>,
    pub timer: Option<Address>,
    pub delay: Milliseconds,
    pub address: Option<Address>,
}

impl BlinkerView {
    /// The request that asks the scheduler to notify the blinker of `state`
    /// after its delay; none while the scheduler or the blinker's own
    /// address is unknown.
    pub open spec fn request(self, state: State) -> Option<Envelope<Schedule<State>>> {
        match (self.timer, self.address) {
            (Some(timer), Some(address)) => Some(
                Envelope {
                    to: timer,
                    message: Schedule { delay: self.delay, event: Some(state), address },
                },
            ),
            _ => None,
        }
    }

    /// The order that tells the light to go to `state`; none while the light
    /// is unknown.
    pub open spec fn order(self, state: State) -> Option<Envelope<State>> {
        match self.led {
            Some(led) => Some(Envelope { to: led, message: state }),
            None => None,
        }
    }
}

impl View for Blinker {
    type V = BlinkerView;

    closed spec fn view(&self) -> BlinkerView {
        BlinkerView { led: self.led, timer: self.timer, delay: self.delay, address: self.address }
    }
}

impl Blinker {
    /// A blinker with the given delay that knows nobody yet.
    pub fn new(delay: Milliseconds) -> (blinker: Blinker)
        ensures
            blinker@ == (BlinkerView { led: None, timer: None, delay, address: None }),
    {
        Blinker { led: None, timer: None, delay, address: None }
    }

    /// The delay between two switches.
    pub fn delay(&self) -> (delay: Milliseconds)
        ensures
            delay == self@.delay,
    {
        self.delay
    }

    /// Tells the blinker where its light is.
    pub fn on_bind_led(&mut self, address: Address)
        ensures
            final(self)@ == (BlinkerView { led: Some(address), ..old(self)@ }),
    {
        self.led = Some(address);
    }

    /// Tells the blinker where the scheduler is.
    pub fn on_bind_timer(&mut self, address: Address)
        ensures
            final(self)@ == (BlinkerView { timer: Some(address), ..old(self)@ }),
    {
        self.timer = Some(address);
    }

    /// Tells the blinker its own address.
    pub fn on_mount(&mut self, address: Address)
        ensures
            final(self)@ == (BlinkerView { address: Some(address), ..old(self)@ }),
    {
        self.address = Some(address);
    }

    /// The request to be notified of `state` after the delay.
    fn request(&self, state: State) -> (request: Option<Envelope<Schedule<State>>>)
        ensures
            request == self@.request(state),
    {
        match (self.timer, self.address) {
            (Some(timer), Some(address)) => Some(timer.schedule(self.delay, state, address)),
            _ => None,
        }
    }

    /// Starts the blinking: asks to be notified, after the delay, to switch
    /// the light on.
    pub fn on_start(self) -> (started: (BlinkerCompletion, Blink))
        ensures
            started.0 == BlinkerCompletion::Immediate(self),
            started.1 == (Blink { switch: None, next: self@.request(State::On) }),
    {
        let next = self.request(State::On);
        (Completion::immediate(self), Blink { switch: None, next })
    }
}

impl NotifyHandler<State> for Blinker {
    type Deferred = Nothing;

    type Posts = Blink;

    open spec fn receptive(&self) -> bool {
        true
    }

    /// Switches the light to `message` and asks to be notified, after the
    /// delay, to switch it the other way.
    fn on_notify(self, message: State) -> (handled: (BlinkerCompletion, Blink))
        ensures
            handled.0 == BlinkerCompletion::Immediate(self),
            handled.1 == (Blink {
                switch: self@.order(message),
                next: self@.request(message.toggled()),
            }),
    {
        let switch = match self.led {
            Some(led) => Some(led.notify(message)),
            None => None,
        };
        let next = match message {
            State::On => self.request(State::Off),
            State::Off => self.request(State::On),
        };
        (Completion::immediate(self), Blink { switch, next })
    }
}

impl NotifyHandler<AdjustDelay> for Blinker {
    type Deferred = Nothing;

    type Posts = Nothing;

    open spec fn receptive(&self) -> bool {
        true
    }

    /// Takes the new delay; what has been scheduled already is not touched.
    fn on_notify(self, message: AdjustDelay) -> (handled: (BlinkerCompletion, Nothing))
        ensures
            handled.0 matches Completion::Immediate(blinker) && blinker@ == (BlinkerView {
                delay: message.0,
                ..self@
            }),
    {
        let mut blinker = self;
        blinker.delay = message.0;
        (Completion::immediate(blinker), ())
    }
}

impl Address {
    /// The message that tells the blinker at this address to use `delay`
    /// from now on.
    pub fn adjust_delay(&self, delay: Milliseconds) -> (envelope: Envelope<AdjustDelay>)
        ensures
            envelope == (Envelope { to: *self, message: AdjustDelay(delay) }),
    {
        self.notify(AdjustDelay(delay))
    }
}

} // verus!
