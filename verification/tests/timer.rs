use drogue_device::actor::ActorContext;
use drogue_device::address::Address;
use drogue_device::channel::Poll;
use drogue_device::handler::{Completion, NotifyHandler, RequestHandler, Response};
use drogue_device::scheduler::{Notification, Schedule, Scheduler};
use drogue_device::testutil::TestTimer;
use drogue_device::time::Milliseconds;
use drogue_device::timer::{Delay, DelayFuture, Shared, Timer, TimerActor};
use std::sync::atomic::{AtomicUsize, Ordering};
use std::sync::Arc;
use std::task::{Wake, Waker};

struct Bell {
    rings: AtomicUsize,
}

impl Wake for Bell {
    fn wake(self: Arc<Self>) {
        self.rings.fetch_add(1, Ordering::SeqCst);
    }
}

fn bell() -> (Arc<Bell>, Waker) {
    let bell = Arc::new(Bell { rings: AtomicUsize::new(0) });
    (bell.clone(), Waker::from(bell))
}

fn rings(bell: &Arc<Bell>) -> usize {
    bell.rings.load(Ordering::SeqCst)
}

fn ms(n: u32) -> Milliseconds {
    Milliseconds(n)
}

#[test]
fn new_timer_is_disarmed() {
    let timer: Timer<TestTimer, u32> = Timer::new(TestTimer::new());
    assert_eq!(timer.current_deadline(), None);
    assert_eq!(timer.timer().duration(), None);
    assert_eq!(timer.timer().starts(), 0);
}

#[test]
fn shorter_schedule_rearms_and_fires_first() {
    let target = Address::new(7);
    let mut mailbox = ActorContext::new();
    let mut timer: Timer<TestTimer, u32> = Timer::new(TestTimer::new());
    assert_eq!(timer.schedule(Schedule::new(ms(100), 0xA, target)), Some(0));
    assert_eq!(timer.timer().duration(), Some(ms(100)));
    assert_eq!(timer.schedule(Schedule::new(ms(40), 0xB, target)), Some(1));
    assert_eq!(timer.current_deadline(), Some(ms(40)));
    assert_eq!(timer.timer().duration(), Some(ms(40)));
    assert_eq!(timer.timer().starts(), 2);

    for notification in timer.on_interrupt() {
        assert_eq!(notification.target, target);
        assert_eq!(mailbox.notify(notification.event), Ok(()));
    }
    assert_eq!(timer.current_deadline(), Some(ms(60)));
    assert_eq!(timer.timer().duration(), Some(ms(60)));
    for notification in timer.on_interrupt() {
        assert_eq!(mailbox.notify(notification.event), Ok(()));
    }
    assert_eq!(timer.current_deadline(), None);
    assert_eq!(timer.timer().starts(), 3);
    assert_eq!(timer.timer().duration(), Some(ms(60)));
    assert_eq!(timer.timer().clears(), 2);

    let (_bell, waker) = bell();
    assert_eq!(mailbox.next_message(&waker), Poll::Ready(0xB));
    mailbox.complete(drogue_device::handler::Outcome::Immediate);
    assert_eq!(mailbox.next_message(&waker), Poll::Ready(0xA));
}

#[test]
fn longer_schedule_does_not_displace_running_deadline() {
    let target = Address::new(1);
    let mut timer: Timer<TestTimer, u32> = Timer::new(TestTimer::new());
    timer.schedule(Schedule::new(ms(40), 1, target));
    timer.schedule(Schedule::new(ms(100), 2, target));
    timer.schedule(Schedule::new(ms(40), 3, target));
    assert_eq!(timer.current_deadline(), Some(ms(40)));
    assert_eq!(timer.timer().starts(), 1);
    let fired = timer.on_interrupt();
    assert_eq!(
        fired,
        vec![Notification { target, event: 1 }, Notification { target, event: 3 }]
    );
    assert_eq!(timer.current_deadline(), Some(ms(60)));
}

#[test]
fn deadlines_fire_in_order_of_duration() {
    let target = Address::new(3);
    let mut timer: Timer<TestTimer, u32> = Timer::new(TestTimer::new());
    timer.schedule(Schedule::new(ms(50), 50, target));
    timer.schedule(Schedule::new(ms(120), 120, target));
    timer.schedule(Schedule::new(ms(30), 30, target));
    assert_eq!(timer.current_deadline(), Some(ms(30)));

    assert_eq!(timer.on_interrupt(), vec![Notification { target, event: 30 }]);
    assert_eq!(timer.current_deadline(), Some(ms(20)));
    assert_eq!(timer.timer().duration(), Some(ms(20)));

    assert_eq!(timer.on_interrupt(), vec![Notification { target, event: 50 }]);
    assert_eq!(timer.current_deadline(), Some(ms(70)));
    assert_eq!(timer.timer().duration(), Some(ms(70)));

    assert_eq!(timer.timer().starts(), 4);
    assert_eq!(timer.on_interrupt(), vec![Notification { target, event: 120 }]);
    assert_eq!(timer.current_deadline(), None);
    assert_eq!(timer.timer().starts(), 4);
    assert_eq!(timer.timer().duration(), Some(ms(70)));
    assert_eq!(timer.timer().clears(), 3);

    assert_eq!(timer.on_interrupt(), Vec::<Notification<u32>>::new());
    assert_eq!(timer.current_deadline(), None);
    assert_eq!(timer.timer().starts(), 4);
    assert_eq!(timer.timer().clears(), 4);
}

#[test]
fn waits_fire_in_order_of_duration_each_once() {
    let mut timer: Timer<TestTimer, u32> = Timer::new(TestTimer::new());
    let mut a = timer.delay(Delay(ms(50))).unwrap();
    let mut b = timer.delay(Delay(ms(120))).unwrap();
    let mut c = timer.delay(Delay(ms(30))).unwrap();
    let (bell_a, waker_a) = bell();
    let (bell_b, waker_b) = bell();
    let (bell_c, waker_c) = bell();
    assert_eq!(timer.poll_delay(&mut a, &waker_a), Poll::Pending);
    assert_eq!(timer.poll_delay(&mut b, &waker_b), Poll::Pending);
    assert_eq!(timer.poll_delay(&mut c, &waker_c), Poll::Pending);
    assert_eq!(timer.current_deadline(), Some(ms(30)));

    timer.on_interrupt();
    assert_eq!((rings(&bell_a), rings(&bell_b), rings(&bell_c)), (0, 0, 1));
    assert_eq!(timer.poll_delay(&mut c, &waker_c), Poll::Ready(()));
    assert_eq!(timer.poll_delay(&mut a, &waker_a), Poll::Pending);
    assert_eq!(timer.current_deadline(), Some(ms(20)));

    timer.on_interrupt();
    assert_eq!((rings(&bell_a), rings(&bell_b), rings(&bell_c)), (1, 0, 1));
    assert_eq!(timer.poll_delay(&mut a, &waker_a), Poll::Ready(()));
    assert_eq!(timer.current_deadline(), Some(ms(70)));

    assert_eq!(timer.timer().starts(), 4);
    timer.on_interrupt();
    assert_eq!((rings(&bell_a), rings(&bell_b), rings(&bell_c)), (1, 1, 1));
    assert_eq!(timer.poll_delay(&mut b, &waker_b), Poll::Ready(()));
    assert_eq!(timer.current_deadline(), None);
    assert_eq!(timer.timer().starts(), 4);

    timer.on_interrupt();
    assert_eq!((rings(&bell_a), rings(&bell_b), rings(&bell_c)), (1, 1, 1));
    assert_eq!(timer.poll_delay(&mut b, &waker_b), Poll::Ready(()));
}

#[test]
fn zero_delay_resolves_on_first_poll() {
    let mut timer: Timer<TestTimer, u32> = Timer::new(TestTimer::new());
    let mut wait = timer.delay(Delay(ms(0))).unwrap();
    assert_eq!(timer.current_deadline(), Some(ms(0)));
    assert_eq!(timer.timer().duration(), Some(ms(0)));
    assert_eq!(timer.timer().starts(), 1);
    let (bell, waker) = bell();
    assert_eq!(timer.poll_delay(&mut wait, &waker), Poll::Ready(()));
    assert_eq!(timer.poll_delay(&mut wait, &waker), Poll::Ready(()));
    assert_eq!(rings(&bell), 0);
    assert_eq!(timer.delay(Delay(ms(9))).unwrap().index, 0);
    assert_eq!(timer.current_deadline(), Some(ms(0)));
    timer.on_interrupt();
    assert_eq!(timer.current_deadline(), Some(ms(9)));
    assert_eq!(timer.timer().duration(), Some(ms(9)));
}

#[test]
fn zero_delay_leaves_the_alarm_alone_after_its_interrupt() {
    let mut timer: Timer<TestTimer, u32> = Timer::new(TestTimer::new());
    let mut wait = timer.delay(Delay(ms(0))).unwrap();
    timer.on_interrupt();
    assert_eq!(timer.current_deadline(), None);
    assert_eq!(timer.timer().starts(), 1);
    assert_eq!(timer.timer().clears(), 1);
    let (_bell, waker) = bell();
    assert_eq!(timer.poll_delay(&mut wait, &waker), Poll::Ready(()));
}

#[test]
fn zero_delay_resolves_without_a_registered_token() {
    let mut timer: Timer<TestTimer, u32> = Timer::new(TestTimer::new());
    let mut wait = timer.delay(Delay(ms(0))).unwrap();
    timer.on_interrupt();
    let (bell, waker) = bell();
    assert_eq!(timer.poll_delay(&mut wait, &waker), Poll::Ready(()));
    assert_eq!(rings(&bell), 0);
}

#[test]
fn zero_schedule_fires_on_next_interrupt() {
    let target = Address::new(2);
    let mut timer: Timer<TestTimer, u32> = Timer::new(TestTimer::new());
    timer.schedule(Schedule::new(ms(25), 1, target));
    timer.schedule(Schedule::new(ms(0), 2, target));
    assert_eq!(timer.current_deadline(), Some(ms(0)));
    assert_eq!(timer.on_interrupt(), vec![Notification { target, event: 2 }]);
    assert_eq!(timer.current_deadline(), Some(ms(25)));
}

#[test]
fn seventeenth_schedule_is_dropped() {
    let target = Address::new(2);
    let mut timer: Timer<TestTimer, u32> = Timer::new(TestTimer::new());
    for i in 0..16u32 {
        assert_eq!(timer.schedule(Schedule::new(ms(10 + i), i, target)), Some(i as usize));
    }
    assert_eq!(timer.schedule(Schedule::new(ms(1), 99, target)), None);
    assert_eq!(timer.current_deadline(), Some(ms(10)));
    assert_eq!(timer.timer().duration(), Some(ms(10)));
    assert_eq!(timer.on_interrupt(), vec![Notification { target, event: 0 }]);
    assert_eq!(timer.schedule(Schedule::new(ms(1), 99, target)), Some(0));
    assert_eq!(timer.current_deadline(), Some(ms(1)));
}

#[test]
fn seventeenth_delay_answers_at_once() {
    let mut shared: Shared<u32> = Shared::new();
    let mut actor = TimerActor::new(TestTimer::new());
    for i in 0..16usize {
        match actor.delay(&mut shared, Delay(ms(5))) {
            Response::ImmediateFuture(back, pending) => {
                assert_eq!(pending.index, i);
                assert!(!pending.expired);
                actor = back;
            }
            _ => panic!("a free slot gives a pending wait"),
        }
    }
    match actor.delay(&mut shared, Delay(ms(1))) {
        Response::Immediate(back, ()) => {
            assert_eq!(back.timer().duration(), Some(ms(5)));
        }
        _ => panic!("a full table answers at once"),
    }
    assert_eq!(shared.current_deadline(), Some(ms(5)));
}

#[test]
fn waits_and_schedules_share_the_alarm() {
    let target = Address::new(4);
    let mut timer: Timer<TestTimer, u32> = Timer::new(TestTimer::new());
    let mut wait = timer.delay(Delay(ms(80))).unwrap();
    timer.schedule(Schedule::new(ms(30), 1, target));
    assert_eq!(timer.current_deadline(), Some(ms(30)));
    let (bell, waker) = bell();
    assert_eq!(timer.poll_delay(&mut wait, &waker), Poll::Pending);
    assert_eq!(timer.on_interrupt(), vec![Notification { target, event: 1 }]);
    assert_eq!(timer.current_deadline(), Some(ms(50)));
    assert_eq!(rings(&bell), 0);
    assert_eq!(timer.on_interrupt(), vec![]);
    assert_eq!(rings(&bell), 1);
    assert_eq!(timer.current_deadline(), None);
    assert_eq!(timer.poll_delay(&mut wait, &waker), Poll::Ready(()));
}

#[test]
fn abandoned_wait_frees_its_slot_when_it_runs_out() {
    let mut shared: Shared<u32> = Shared::new();
    let mut actor = TimerActor::new(TestTimer::new());
    assert_eq!(actor.wait(&mut shared, ms(10)), Some(0));
    assert_eq!(actor.wait(&mut shared, ms(30)), Some(1));
    assert!(!shared.has_expired(0));
    actor.on_interrupt(&mut shared);
    assert!(shared.has_expired(0));
    assert!(!shared.has_expired(1));
    assert_eq!(actor.wait(&mut shared, ms(10)), Some(0));
    assert!(!shared.has_expired(0));
    assert!(shared.has_expired(5));
    assert!(shared.has_expired(16));
}

#[test]
fn abandoned_waits_do_not_use_up_the_slots() {
    let mut timer: Timer<TestTimer, u32> = Timer::new(TestTimer::new());
    for round in 0..5 {
        for slot in 0..16usize {
            let pending = timer.delay(Delay(ms(7))).unwrap();
            assert_eq!((round, pending.index), (round, slot));
        }
        assert!(timer.delay(Delay(ms(7))).is_none());
        timer.on_interrupt();
        assert_eq!(timer.current_deadline(), None);
    }
}

#[test]
fn registered_token_is_replaced_not_added() {
    let mut shared: Shared<u32> = Shared::new();
    let mut actor = TimerActor::new(TestTimer::new());
    actor.wait(&mut shared, ms(10));
    let pending = DelayFuture::new(0);
    let (first, first_waker) = bell();
    let (second, second_waker) = bell();
    pending.register_waker(&mut shared, &first_waker);
    pending.register_waker(&mut shared, &second_waker);
    actor.on_interrupt(&mut shared);
    assert_eq!((rings(&first), rings(&second)), (0, 1));
    actor.on_interrupt(&mut shared);
    assert_eq!((rings(&first), rings(&second)), (0, 1));
}

#[test]
fn scheduler_takes_schedule_messages_as_notifications() {
    let target = Address::new(9);
    let timer: Timer<TestTimer, u32> = Timer::new(TestTimer::new());
    let (completion, ()) = timer.on_notify(Schedule::new(ms(15), 4, target));
    match completion {
        Completion::Immediate(mut timer) => {
            assert_eq!(timer.current_deadline(), Some(ms(15)));
            assert_eq!(timer.on_interrupt(), vec![Notification { target, event: 4 }]);
        }
        Completion::Defer(()) => panic!("a scheduler is done at once"),
    }
}

#[test]
fn milliseconds_subtract_down_to_zero() {
    assert_eq!(ms(50).saturating_sub(ms(20)), ms(30));
    assert_eq!(ms(20).saturating_sub(ms(20)), ms(0));
    assert_eq!(ms(20).saturating_sub(ms(50)), ms(0));
}

#[test]
fn scheduler_answers_delay_requests_with_the_pending_wait() {
    let timer: Timer<TestTimer, u32> = Timer::new(TestTimer::new());
    let (response, ()) = timer.on_request(Delay(ms(35)));
    let (mut timer, mut pending) = match response {
        Response::ImmediateFuture(timer, pending) => (timer, pending),
        _ => panic!("a free slot gives a pending wait"),
    };
    assert_eq!(pending.index, 0);
    assert_eq!(timer.current_deadline(), Some(ms(35)));
    let (bell, waker) = bell();
    assert_eq!(timer.poll_delay(&mut pending, &waker), Poll::Pending);
    timer.on_interrupt();
    assert_eq!(rings(&bell), 1);
    assert_eq!(timer.poll_delay(&mut pending, &waker), Poll::Ready(()));
    for _ in 0..16 {
        timer.delay(Delay(ms(5)));
    }
    let (response, ()) = timer.on_request(Delay(ms(1)));
    match response {
        Response::Immediate(timer, ()) => assert_eq!(timer.current_deadline(), Some(ms(5))),
        _ => panic!("a full table answers at once"),
    }
}
