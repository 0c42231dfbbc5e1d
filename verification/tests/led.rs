use drogue_device::address::{Address, Envelope};
use drogue_device::blinker::State;
use drogue_device::handler::{Outcome, RequestHandler, Response};
use drogue_device::led::{Active, Level, SimpleLED, TurnOff};
use drogue_device::time::Milliseconds;
use drogue_device::timer::Delay;

#[test]
fn active_high_light_shines_on_high() {
    let led = SimpleLED::new(Active::High);
    assert_eq!(led.turn_on(), Level::High);
    assert_eq!(led.turn_off(), Level::Low);
}

#[test]
fn active_low_light_shines_on_low() {
    let led = SimpleLED::new(Active::Low);
    assert_eq!(led.turn_on(), Level::Low);
    assert_eq!(led.turn_off(), Level::High);
}

#[test]
fn switching_on_is_answered_at_once() {
    let (response, level) = SimpleLED::new(Active::Low).on_request(State::On);
    assert_eq!(level, Some(Level::Low));
    assert_eq!(response.outcome(), Outcome::Immediate);
    match response {
        Response::Immediate(led, ()) => assert_eq!(led, SimpleLED { active: Active::Low }),
        _ => panic!("switching on does not defer"),
    }
}

#[test]
fn switching_off_is_deferred() {
    let (response, level) = SimpleLED::new(Active::High).on_request(State::Off);
    assert_eq!(level, None);
    assert_eq!(response.outcome(), Outcome::Deferred);
    match response {
        Response::Defer(turn_off) => {
            assert_eq!(turn_off, TurnOff { led: SimpleLED { active: Active::High } });
            assert_eq!(turn_off.run(), (SimpleLED { active: Active::High }, Level::Low));
        }
        _ => panic!("switching off defers"),
    }
}

#[test]
fn delay_request_is_addressed_to_the_scheduler() {
    let scheduler = Address::new(11);
    assert_eq!(
        scheduler.delay(Milliseconds(75)),
        Envelope { to: scheduler, message: Delay(Milliseconds(75)) }
    );
}
