//! The deadline scheduler: many countdowns behind one hardware alarm.

use core::task::Waker;
use vstd::prelude::*;
use crate::address::{Address, Envelope};
use crate::channel::Poll;
use crate::critical::masked;
use crate::deadline::{
    due, first_free, lemma_first_free, lemma_soonest_schedule_agrees,
    lemma_soonest_wait_agrees, sooner, soonest_schedule, soonest_wait, tick_schedule, tick_wait,
    woken, Deadlines, DelayDeadline, Schedulable, ScheduleDeadline, SLOTS,
};
use crate::handler::{Nothing, RequestHandler, Response};
use crate::scheduler::{Notification, Schedule, Scheduler};
use crate::time::Milliseconds;
use crate::token::{clone_token, wake_token};

verus! {

/// What has been asked of an alarm so far.
pub ghost struct Alarm {
    /// The countdown that the alarm was last started with.
    pub armed: Option<Milliseconds>,
    /// How often the alarm was started.
    pub starts: nat,
    /// How often its interrupt was acknowledged.
    pub acknowledged: nat,
}

impl Alarm {
    /// An alarm of which nothing was asked yet.
    pub open spec fn untouched() -> Alarm {
        Alarm { armed: None, starts: 0, acknowledged: 0 }
    }

    /// The alarm after it was started with `duration`.
    pub open spec fn started(self, duration: Milliseconds) -> Alarm {
        Alarm { armed: Some(duration), starts: self.starts + 1, ..self }
    }

    /// The alarm after it was started with `duration`, if `rearm` says so,
    /// and left alone otherwise.
    pub open spec fn started_if(self, rearm: bool, duration: Milliseconds) -> Alarm {
        if rearm {
            self.started(duration)
        } else {
            self
        }
    }

    /// The alarm after its interrupt was acknowledged.
    pub open spec fn acknowledge(self) -> Alarm {
        Alarm { acknowledged: self.acknowledged + 1, ..self }
    }

    /// The alarm after its interrupt was handled: acknowledged once, then
    /// started once with the countdown `next`, or left alone if there is
    /// none.
    pub open spec fn after_interrupt(self, next: Option<Milliseconds>) -> Alarm {
        match next {
            Some(duration) => self.acknowledge().started(duration),
            None => self.acknowledge(),
        }
    }
}

/// A one-shot hardware alarm.
pub trait HalTimer {
    /// What has been asked of the alarm so far.
    spec fn alarm(&self) -> Alarm;

    /// Starts a countdown of `duration`, in place of any that was running.
    fn start(&mut self, duration: Milliseconds)
        ensures
            final(self).alarm() == old(self).alarm().started(duration),
    ;

    /// Acknowledges the interrupt that the end of a countdown raised. The
    /// alarm is not started by this.
    fn clear_update_interrupt_flag(&mut self)
        ensures
            final(self).alarm() == old(self).alarm().acknowledge(),
    ;
}

/// A request to be woken once a duration has gone by.
#[derive(Clone, Copy, Debug, PartialEq, Eq, Structural)]
pub struct Delay(pub Milliseconds);

impl Address {
    /// The message that asks the scheduler at this address for a wait of
    /// `duration`.
    pub fn delay(&self, duration: Milliseconds) -> (envelope: Envelope<Delay>)
        ensures
            envelope == (Envelope { to: *self, message: Delay(duration) }),
    {
        self.notify(Delay(duration))
    }
}

/// What an alarm interrupt set free.
pub struct Fired<E> {
    /// The tokens of the waits that ended, in slot order.
    pub woken: Vec<Waker>,
    /// The events that came due, in slot order.
    pub due: Vec<Notification<E>>,
}

/// The table of countdowns that the alarm's interrupt handler and the
/// cooperative side both work on.
pub struct Shared<E> {
    current_deadline: Option<Milliseconds>,
    delay_deadlines: [Option<DelayDeadline>; SLOTS],
    schedule_deadlines: [Option<ScheduleDeadline<E>>; SLOTS],
}

impl<E> View for Shared<E> {
    type V = Deadlines<E>;

    closed spec fn view(&self) -> Deadlines<E> {
        Deadlines {
            marker: self.current_deadline,
            waits: self.delay_deadlines@,
            schedules: self.schedule_deadlines@,
        }
    }
}

/// The first empty slot of `slots`.
fn find_free<T>(slots: &[Option<T>; SLOTS]) -> (found: Option<usize>)
    ensures
        match found {
            Some(index) => first_free(slots@, 0) == Some(index as nat),
            None => first_free(slots@, 0) is None,
        },
{
    let mut i: usize = 0;
    while i < SLOTS
        invariant
            i <= SLOTS,
            slots@.len() == SLOTS,
            first_free(slots@, 0) == first_free(slots@, i as nat),
        decreases SLOTS - i,
    {
        if slots[i].is_none() {
            return Some(i);
        }
        i += 1;
    }
    None
}

/// The shorter of `current` and `candidate`.
fn keep_sooner(current: Option<Milliseconds>, candidate: Milliseconds) -> (kept: Option<
    Milliseconds,
>)
    ensures
        kept == sooner(current, Some(candidate)),
{
    match current {
        Some(soonest) => if soonest.0 > candidate.0 {
            Some(candidate)
        } else {
            current
        },
        None => Some(candidate),
    }
}

impl<E> Shared<E> {
    /// Whether the table is in order; see [`Deadlines::wf`].
    pub open spec fn wf(&self) -> bool {
        self@.wf()
    }

    /// A table with every slot empty and the alarm off.
    pub fn new() -> (shared: Shared<E>)
        ensures
            shared@ == Deadlines::<E>::empty(),
            shared.wf(),
    {
        let shared = Shared {
            current_deadline: None,
            delay_deadlines: [
                None, None, None, None, None, None, None, None, None, None, None, None, None, None,
                None, None,
            ],
            schedule_deadlines: [
                None, None, None, None, None, None, None, None, None, None, None, None, None, None,
                None, None,
            ],
        };
        proof {
            assert(shared@.waits =~= Deadlines::<E>::empty().waits);
            assert(shared@.schedules =~= Deadlines::<E>::empty().schedules);
            Deadlines::<E>::lemma_empty_wf();
        }
        shared
    }

    /// The countdown that the alarm is running, if it is armed.
    pub fn current_deadline(&self) -> (marker: Option<Milliseconds>)
        ensures
            marker == self@.marker,
    {
        self.current_deadline
    }

    /// Whether the wait in slot `index` is over, which it is when no time is
    /// left of it. The first time the answer is yes, the slot is emptied.
    pub fn has_expired(&mut self, index: usize) -> (expired: bool)
        ensures
            expired == old(self)@.has_expired(index),
            final(self)@ == old(self)@.after_has_expired(index),
            old(self).wf() ==> final(self).wf(),
    {
        proof {
            if old(self).wf() {
                old(self)@.lemma_has_expired_keeps_minimum(index);
            }
        }
        if index >= SLOTS {
            return true;
        }
        let expired = match &self.delay_deadlines[index] {
            Some(deadline) => deadline.expiration.0 == 0,
            None => true,
        };
        if expired {
            self.delay_deadlines[index] = None;
        }
        expired
    }

    /// Leaves `waker` with the wait in slot `index`, in place of any token
    /// left before. An empty slot takes none.
    pub fn register_waker(&mut self, index: usize, waker: Waker)
        ensures
            final(self)@ == old(self)@.after_register(index, waker),
            old(self).wf() ==> final(self).wf(),
    {
        proof {
            if old(self).wf() {
                old(self)@.lemma_register_keeps_minimum(index, waker);
            }
        }
        if index < SLOTS {
            match self.delay_deadlines[index].take() {
                Some(deadline) => {
                    self.delay_deadlines[index] = Some(
                        DelayDeadline { waker: Some(waker), ..deadline },
                    );
                },
                None => {},
            }
            assert(self.delay_deadlines@ =~= old(self)@.after_register(index, waker).waits);
        }
    }

    /// Counts down every slot by what the alarm has just counted, lets those
    /// that reach zero fire, and sets the marker to the shortest countdown
    /// that is left.
    pub fn expire(&mut self) -> (fired: Fired<E>)
        ensures
            final(self)@ == old(self)@.after_interrupt(),
            final(self).wf(),
            final(self)@.exact(),
            fired.woken@ == woken(old(self)@.waits, old(self)@.expired(), SLOTS as nat),
            fired.due@ == due(old(self)@.schedules, old(self)@.expired(), SLOTS as nat),
    {
        let ghost before = self@;
        let expired = match self.current_deadline {
            Some(current) => current,
            None => Milliseconds(0),
        };
        let mut next: Option<Milliseconds> = None;
        let mut tokens: Vec<Waker> = Vec::new();
        let mut i: usize = 0;
        while i < SLOTS
            invariant
                i <= SLOTS,
                before.waits.len() == SLOTS,
                self.delay_deadlines@.len() == SLOTS,
                self.schedule_deadlines@ == before.schedules,
                self.current_deadline == before.marker,
                expired == before.expired(),
                forall|j: int|
                    0 <= j < i ==> #[trigger] self.delay_deadlines@[j] == tick_wait(
                        before.waits[j],
                        expired,
                    ),
                forall|j: int| i <= j < SLOTS ==> #[trigger] self.delay_deadlines@[j] == before.waits[j],
                next == soonest_wait(self.delay_deadlines@, i as nat),
                tokens@ == woken(before.waits, expired, i as nat),
            decreases SLOTS - i,
        {
            let ghost scanned = self.delay_deadlines@;
            match self.delay_deadlines[i].take() {
                Some(mut deadline) => {
                    deadline.expiration = deadline.expiration.saturating_sub(expired);
                    if deadline.expiration.0 == 0 {
                        match deadline.waker.take() {
                            Some(token) => tokens.push(token),
                            None => {},
                        }
                    } else {
                        next = keep_sooner(next, deadline.expiration);
                        self.delay_deadlines[i] = Some(deadline);
                    }
                },
                None => {},
            }
            proof {
                lemma_soonest_wait_agrees(scanned, self.delay_deadlines@, i as nat);
            }
            i += 1;
        }
        let ghost waits_done = self.delay_deadlines@;
        let ghost start = next;
        let mut events: Vec<Notification<E>> = Vec::new();
        let mut k: usize = 0;
        while k < SLOTS
            invariant
                k <= SLOTS,
                before.schedules.len() == SLOTS,
                self.schedule_deadlines@.len() == SLOTS,
                self.delay_deadlines@ == waits_done,
                self.current_deadline == before.marker,
                expired == before.expired(),
                forall|j: int|
                    0 <= j < k ==> #[trigger] self.schedule_deadlines@[j] == tick_schedule(
                        before.schedules[j],
                        expired,
                    ),
                forall|j: int|
                    k <= j < SLOTS ==> #[trigger] self.schedule_deadlines@[j]
                        == before.schedules[j],
                next == soonest_schedule(start, self.schedule_deadlines@, k as nat),
                events@ == due(before.schedules, expired, k as nat),
            decreases SLOTS - k,
        {
            let ghost scanned = self.schedule_deadlines@;
            match self.schedule_deadlines[k].take() {
                Some(mut deadline) => {
                    let expiration = deadline.get_expiration();
                    deadline.set_expiration(expiration.saturating_sub(expired));
                    if deadline.get_expiration().0 == 0 {
                        match deadline.run() {
                            Some(notification) => events.push(notification),
                            None => {},
                        }
                    } else {
                        next = keep_sooner(next, deadline.get_expiration());
                        self.schedule_deadlines[k] = Some(deadline);
                    }
                },
                None => {},
            }
            proof {
                lemma_soonest_schedule_agrees(start, scanned, self.schedule_deadlines@, k as nat);
            }
            k += 1;
        }
        self.current_deadline = next;
        proof {
            assert(self.delay_deadlines@ =~= before.ticked().waits);
            assert(self.schedule_deadlines@ =~= before.ticked().schedules);
            before.lemma_interrupt_keeps_minimum();
        }
        Fired { woken: tokens, due: events }
    }
}

/// The actor that owns the alarm and keeps it on the shortest countdown of
/// the table it is handed.
pub struct TimerActor<T: HalTimer> {
    timer: T,
}

impl<T: HalTimer> TimerActor<T> {
    /// What has been asked of the alarm so far.
    pub closed spec fn alarm(&self) -> Alarm {
        self.timer.alarm()
    }

    /// Whether `shared` is in order and, while its marker names a countdown,
    /// that is the countdown the alarm was last started with.
    pub open spec fn coupled<E>(&self, shared: &Shared<E>) -> bool {
        &&& shared.wf()
        &&& shared@.marker is Some ==> self.alarm().armed == shared@.marker
    }

    /// An actor around `timer`.
    pub fn new(timer: T) -> (actor: TimerActor<T>)
        ensures
            actor.alarm() == timer.alarm(),
    {
        TimerActor { timer }
    }

    /// The alarm.
    pub fn timer(&self) -> (timer: &T)
        ensures
            timer.alarm() == self.alarm(),
    {
        &self.timer
    }

    /// Puts `message` into the first empty slot; if its delay is shorter than
    /// the countdown that the alarm runs, or the alarm is off, the alarm is
    /// started over with that delay, once; otherwise it is left alone. With
    /// no slot empty, `message` is dropped and nothing changes. Tells which
    /// slot was taken.
    pub fn schedule<E>(&mut self, shared: &mut Shared<E>, message: Schedule<E>) -> (slot: Option<
        usize,
    >)
        requires
            old(self).coupled(old(shared)),
        ensures
            final(shared)@ == old(shared)@.after_schedule(message),
            final(self).coupled(final(shared)),
            match slot {
                Some(index) => old(shared)@.free_schedule() == Some(index as nat),
                None => old(shared)@.free_schedule() is None,
            },
            final(self).alarm() == old(self).alarm().started_if(
                slot is Some && old(shared)@.rearms(message.delay),
                message.delay,
            ),
            old(shared)@.exact() ==> final(shared)@.exact(),
    {
        proof {
            old(shared)@.lemma_schedule_keeps_minimum(message);
            lemma_first_free(old(shared)@.schedules, 0);
        }
        let ms = message.delay;
        match find_free(&shared.schedule_deadlines) {
            Some(index) => {
                shared.schedule_deadlines[index] = Some(ScheduleDeadline::new(ms, message));
                let rearm = match shared.current_deadline {
                    Some(current) => current.0 > ms.0,
                    None => true,
                };
                if rearm {
                    shared.current_deadline = Some(ms);
                    self.timer.start(ms);
                }
                Some(index)
            },
            None => None,
        }
    }

    /// Puts a wait of `delay` into the first empty slot; if `delay` is
    /// shorter than the countdown that the alarm runs, or the alarm is off,
    /// the alarm is started over with it, once. With no slot empty, nothing
    /// changes. Tells which slot was taken. A wait of no duration is over
    /// at once and counts nothing, though the alarm is started for it.
    pub fn wait<E>(&mut self, shared: &mut Shared<E>, delay: Milliseconds) -> (slot: Option<usize>)
        requires
            old(self).coupled(old(shared)),
        ensures
            final(shared)@ == old(shared)@.after_delay(delay),
            final(self).coupled(final(shared)),
            match slot {
                Some(index) => old(shared)@.free_wait() == Some(index as nat),
                None => old(shared)@.free_wait() is None,
            },
            final(self).alarm() == old(self).alarm().started_if(
                slot is Some && old(shared)@.rearms(delay),
                delay,
            ),
            old(shared)@.exact() && delay.0 > 0 ==> final(shared)@.exact(),
    {
        proof {
            old(shared)@.lemma_delay_keeps_minimum(delay);
            lemma_first_free(old(shared)@.waits, 0);
        }
        match find_free(&shared.delay_deadlines) {
            Some(index) => {
                shared.delay_deadlines[index] = Some(DelayDeadline::new(delay));
                let (new_deadline, should_replace) = match shared.current_deadline {
                    Some(current) => if current.0 > delay.0 {
                        (delay, true)
                    } else {
                        (delay, false)
                    },
                    None => (delay, true),
                };
                if should_replace {
                    shared.current_deadline = Some(new_deadline);
                    self.timer.start(new_deadline);
                }
                Some(index)
            },
            None => None,
        }
    }

    /// Answers a request for a timed wait: with the pending wait, which the
    /// requester polls, or at once when no slot was empty. The table and the
    /// alarm change as [`TimerActor::wait`] says.
    pub fn delay<E>(self, shared: &mut Shared<E>, message: Delay) -> (response: DelayResponse<T>)
        requires
            self.coupled(old(shared)),
        ensures
            final(shared)@ == old(shared)@.after_delay(message.0),
            match old(shared)@.free_wait() {
                Some(index) => {
                    &&& response matches Response::ImmediateFuture(actor, pending)
                    &&& actor.coupled(final(shared))
                    &&& actor.alarm() == self.alarm().started_if(
                        old(shared)@.rearms(message.0),
                        message.0,
                    )
                    &&& pending == (DelayFuture { index: index as usize, expired: false })
                },
                None => {
                    &&& response matches Response::Immediate(actor, _)
                    &&& actor.coupled(final(shared))
                    &&& actor.alarm() == self.alarm()
                },
            },
            old(shared)@.exact() && message.0.0 > 0 ==> final(shared)@.exact(),
    {
        let mut actor = self;
        match actor.wait(shared, message.0) {
            Some(index) => Response::immediate_future(actor, DelayFuture::new(index)),
            None => Response::immediate(actor, ()),
        }
    }

    /// Handles the alarm's interrupt: acknowledges it, counts every slot
    /// down by the countdown that has ended, invokes the tokens of the waits
    /// that are over, and starts the alarm with the shortest countdown that
    /// is left; with none left, the alarm is left alone. Hands back the
    /// events that came due, in slot order.
    pub fn on_interrupt<E>(&mut self, shared: &mut Shared<E>) -> (events: Vec<Notification<E>>)
        ensures
            final(shared)@ == old(shared)@.after_interrupt(),
            final(self).coupled(final(shared)),
            final(shared)@.exact(),
            final(self).alarm() == old(self).alarm().after_interrupt(final(shared)@.marker),
            events@ == due(old(shared)@.schedules, old(shared)@.expired(), SLOTS as nat),
    {
        self.timer.clear_update_interrupt_flag();
        let fired = shared.expire();
        let Fired { woken, due } = fired;
        for token in woken {
            wake_token(token);
        }
        match shared.current_deadline {
            Some(next) => {
                self.timer.start(next);
            },
            None => {},
        }
        due
    }
}

/// What [`TimerActor::delay`] answers with.
pub type DelayResponse<T> = Response<TimerActor<T>, Nothing, Nothing, DelayFuture>;

/// A wait that is pending in one slot of the scheduler's table.
///
/// The wait is known by its slot alone. Once its time has run out the slot
/// is free and may be given to another wait; a pending wait that is polled
/// only after that is answered by what the slot then holds.
pub struct DelayFuture {
    pub index: usize,
    pub expired: bool,
}

impl DelayFuture {
    /// The pending wait of slot `index`.
    pub fn new(index: usize) -> (pending: DelayFuture)
        ensures
            pending == (DelayFuture { index, expired: false }),
    {
        DelayFuture { index, expired: false }
    }

    /// Whether the wait is over. Until it is, the table is asked, with
    /// interrupts masked; once it is, the answer is remembered.
    pub fn has_expired<E>(&mut self, shared: &mut Shared<E>) -> (expired: bool)
        ensures
            expired == (old(self).expired || old(shared)@.has_expired(old(self).index)),
            *final(self) == (DelayFuture { expired, ..*old(self) }),
            final(shared)@ == if old(self).expired {
                old(shared)@
            } else {
                old(shared)@.after_has_expired(old(self).index)
            },
            old(shared).wf() ==> final(shared).wf(),
    {
        proof {
            if old(shared).wf() {
                old(shared)@.lemma_has_expired_keeps_minimum(self.index);
            }
        }
        if !self.expired {
            self.expired = masked(Shared::<E>::has_expired, shared, self.index);
        }
        self.expired
    }

    /// Leaves a copy of `waker` with the wait's slot.
    pub fn register_waker<E>(&self, shared: &mut Shared<E>, waker: &Waker)
        ensures
            exists|token: Waker| final(shared)@ == old(shared)@.after_register(self.index, token),
            old(shared).wf() ==> final(shared).wf(),
    {
        let token = clone_token(waker);
        shared.register_waker(self.index, token);
    }

    /// Polls the wait once: ready if it is over, and otherwise pending with
    /// `waker` left in the slot for one wake-up.
    pub fn poll<E>(&mut self, shared: &mut Shared<E>, waker: &Waker) -> (poll: Poll<()>)
        ensures
            (poll is Ready) == (old(self).expired || old(shared)@.has_expired(old(self).index)),
            *final(self) == (DelayFuture { expired: poll is Ready, ..*old(self) }),
            poll is Ready ==> final(shared)@ == if old(self).expired {
                old(shared)@
            } else {
                old(shared)@.after_has_expired(old(self).index)
            },
            poll is Pending ==> exists|token: Waker|
                final(shared)@ == old(shared)@.after_register(old(self).index, token),
            old(shared).wf() ==> final(shared).wf(),
    {
        if self.has_expired(shared) {
            Poll::Ready(())
        } else {
            self.register_waker(shared, waker);
            Poll::Pending
        }
    }
}

/// The scheduler as one piece: the actor that owns the alarm, and its table.
pub struct Timer<T: HalTimer, E> {
    actor: TimerActor<T>,
    shared: Shared<E>,
}

impl<T: HalTimer, E> View for Timer<T, E> {
    type V = Deadlines<E>;

    closed spec fn view(&self) -> Deadlines<E> {
        self.shared@
    }
}

impl<T: HalTimer, E> Timer<T, E> {
    /// What has been asked of the alarm so far.
    pub closed spec fn alarm(&self) -> Alarm {
        self.actor.alarm()
    }

    /// Whether the table is in order and, while its marker names a
    /// countdown, that is the countdown the alarm was last started with.
    pub closed spec fn wf(&self) -> bool {
        self.actor.coupled(&self.shared)
    }

    /// What `wf` says in terms of the table and the alarm.
    pub proof fn lemma_wf(&self)
        ensures
            self.wf() <==> self@.wf() && (self@.marker is Some ==> self.alarm().armed
                == self@.marker),
    {
    }

    /// A scheduler around `timer`, with an empty table.
    pub fn new(timer: T) -> (package: Timer<T, E>)
        ensures
            package.wf(),
            package@ == Deadlines::<E>::empty(),
            package.alarm() == timer.alarm(),
    {
        Timer { actor: TimerActor::new(timer), shared: Shared::new() }
    }

    /// The countdown that the alarm is running, if any slot counts.
    pub fn current_deadline(&self) -> (marker: Option<Milliseconds>)
        ensures
            marker == self@.marker,
    {
        self.shared.current_deadline()
    }

    /// The alarm.
    pub fn timer(&self) -> (timer: &T)
        ensures
            timer.alarm() == self.alarm(),
    {
        self.actor.timer()
    }

    /// Asks for a wait of the duration in `message`; see [`TimerActor::delay`].
    /// Hands back the pending wait, or nothing when no slot was empty.
    pub fn delay(&mut self, message: Delay) -> (pending: Option<DelayFuture>)
        requires
            old(self).wf(),
        ensures
            final(self).wf(),
            final(self)@ == old(self)@.after_delay(message.0),
            match pending {
                Some(wait) => old(self)@.free_wait() == Some(wait.index as nat) && !wait.expired,
                None => old(self)@.free_wait() is None,
            },
            final(self).alarm() == old(self).alarm().started_if(
                pending is Some && old(self)@.rearms(message.0),
                message.0,
            ),
            old(self)@.exact() && message.0.0 > 0 ==> final(self)@.exact(),
    {
        match self.actor.wait(&mut self.shared, message.0) {
            Some(index) => Some(DelayFuture::new(index)),
            None => None,
        }
    }

    /// Handles the alarm's interrupt; see [`TimerActor::on_interrupt`].
    pub fn on_interrupt(&mut self) -> (events: Vec<Notification<E>>)
        ensures
            final(self).wf(),
            final(self)@ == old(self)@.after_interrupt(),
            final(self)@.exact(),
            final(self).alarm() == old(self).alarm().after_interrupt(final(self)@.marker),
            events@ == due(old(self)@.schedules, old(self)@.expired(), SLOTS as nat),
    {
        self.actor.on_interrupt(&mut self.shared)
    }

    /// Polls `pending` once; see [`DelayFuture::poll`].
    pub fn poll_delay(&mut self, pending: &mut DelayFuture, waker: &Waker) -> (poll: Poll<()>)
        requires
            old(self).wf(),
        ensures
            final(self).wf(),
            (poll is Ready) == (old(pending).expired || old(self)@.has_expired(
                old(pending).index,
            )),
            *final(pending) == (DelayFuture { expired: poll is Ready, ..*old(pending) }),
            poll is Ready ==> final(self)@ == if old(pending).expired {
                old(self)@
            } else {
                old(self)@.after_has_expired(old(pending).index)
            },
            poll is Pending ==> exists|token: Waker|
                final(self)@ == old(self)@.after_register(old(pending).index, token),
            final(self).alarm() == old(self).alarm(),
    {
        let poll = pending.poll(&mut self.shared, waker);
        proof {
            if poll is Pending {
                let token = choose|token: Waker|
                    self.shared@ == old(self)@.after_register(old(pending).index, token);
                assert(self@ == old(self)@.after_register(old(pending).index, token));
            }
        }
        poll
    }
}

/// What the scheduler answers a request for a timed wait with.
pub type TimerResponse<T, E> = Response<Timer<T, E>, Nothing, Nothing, DelayFuture>;

impl<T: HalTimer, E> RequestHandler<Delay> for Timer<T, E> {
    type Response = Nothing;

    type Deferred = Nothing;

    type FollowUp = DelayFuture;

    type Posts = Nothing;

    open spec fn receptive(&self) -> bool {
        self.wf()
    }

    /// Answers a request for a timed wait with the pending wait, which the
    /// requester polls; when no slot is empty, the answer comes at once and
    /// there is nothing to wait for.
    fn on_request(self, message: Delay) -> (handled: (TimerResponse<T, E>, Nothing))
        ensures
            match self@.free_wait() {
                Some(index) => {
                    &&& handled.0 matches Response::ImmediateFuture(timer, pending)
                    &&& timer.wf()
                    &&& timer@ == self@.after_delay(message.0)
                    &&& timer.alarm() == self.alarm().started_if(
                        self@.rearms(message.0),
                        message.0,
                    )
                    &&& pending == (DelayFuture { index: index as usize, expired: false })
                },
                None => {
                    &&& handled.0 matches Response::Immediate(timer, _)
                    &&& timer.wf()
                    &&& timer@ == self@
                    &&& timer.alarm() == self.alarm()
                },
            },
            self@.exact() && message.0.0 > 0 ==> (handled.0 matches Response::ImmediateFuture(
                timer,
                _,
            ) ==> timer@.exact()) && (handled.0 matches Response::Immediate(timer, _)
                ==> timer@.exact()),
    {
        let mut timer = self;
        match timer.delay(message) {
            Some(pending) => (Response::immediate_future(timer, pending), ()),
            None => (Response::immediate(timer, ()), ()),
        }
    }
}

impl<T: HalTimer, E> Scheduler<E> for Timer<T, E> {
    open spec fn ready(&self) -> bool {
        self.wf()
    }

    open spec fn took(&self, schedule: Schedule<E>, after: &Self) -> bool {
        &&& after@ == self@.after_schedule(schedule)
        &&& after.alarm() == self.alarm().started_if(
                self@.free_schedule() is Some && self@.rearms(schedule.delay),
                schedule.delay,
            )
    }

    fn schedule(&mut self, schedule: Schedule<E>) -> (slot: Option<usize>)
        ensures
            final(self)@ == old(self)@.after_schedule(schedule),
            match slot {
                Some(index) => old(self)@.free_schedule() == Some(index as nat),
                None => old(self)@.free_schedule() is None,
            },
            final(self).alarm() == old(self).alarm().started_if(
                slot is Some && old(self)@.rearms(schedule.delay),
                schedule.delay,
            ),
            old(self)@.exact() ==> final(self)@.exact(),
    {
        self.actor.schedule(&mut self.shared, schedule)
    }
}

} // verus!
