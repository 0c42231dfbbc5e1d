use drogue_device::address::Address;
use drogue_device::scheduler::{Schedule, Scheduler};
use drogue_device::testutil::{Asked, TestTimer};
use drogue_device::time::Milliseconds;
use drogue_device::timer::{HalTimer, Timer};

fn start(ms: u32) -> Asked {
    Asked::Start(Milliseconds(ms))
}

#[test]
fn alarm_is_started_only_when_the_deadline_changes() {
    let target = Address::new(0);
    let mut timer: Timer<TestTimer, u8> = Timer::new(TestTimer::new());
    timer.schedule(Schedule::new(Milliseconds(70), 1, target));
    timer.schedule(Schedule::new(Milliseconds(90), 2, target));
    timer.schedule(Schedule::new(Milliseconds(70), 3, target));
    timer.schedule(Schedule::new(Milliseconds(20), 4, target));
    timer.schedule(Schedule::new(Milliseconds(20), 5, target));
    assert_eq!(timer.timer().log(), &vec![start(70), start(20)]);
    timer.on_interrupt();
    timer.on_interrupt();
    timer.on_interrupt();
    timer.on_interrupt();
    assert_eq!(
        timer.timer().log(),
        &vec![
            start(70),
            start(20),
            Asked::Acknowledge,
            start(50),
            Asked::Acknowledge,
            start(20),
            Asked::Acknowledge,
            Asked::Acknowledge,
        ]
    );
}

#[test]
fn test_alarm_tallies_its_log() {
    let mut alarm = TestTimer::new();
    assert_eq!(alarm.duration(), None);
    alarm.start(Milliseconds(5));
    alarm.clear_update_interrupt_flag();
    alarm.start(Milliseconds(8));
    alarm.clear_update_interrupt_flag();
    alarm.clear_update_interrupt_flag();
    assert_eq!(alarm.duration(), Some(Milliseconds(8)));
    assert_eq!(alarm.starts(), 2);
    assert_eq!(alarm.clears(), 3);
    let tally = alarm.tally();
    assert_eq!((tally.duration, tally.starts, tally.clears), (Some(Milliseconds(8)), 2, 3));
}
