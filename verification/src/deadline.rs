//! The table of countdowns behind the one hardware alarm, as a mathematical
//! model: what the slots hold, which countdown is the soonest, and how each
//! step of the scheduler changes them.

use core::task::Waker;
use vstd::prelude::*;
use crate::scheduler::{Notification, Schedule};
use crate::time::Milliseconds;

verus! {

/// The number of slots for timed waits, and again for scheduled events.
pub const SLOTS: usize = 16;

/// A timed wait: the time still to go once the countdown that the alarm is
/// running has ended, and the token of whoever waits. A wait is over when
/// no time is left of it, and its slot is freed by the interrupt that takes
/// its last time off. Only a wait that was asked for with no duration sits
/// in its slot at zero, until that interrupt or until somebody asks for it.
pub struct DelayDeadline {
    pub expiration: Milliseconds,
    pub waker: Option<Waker>,
}

/// A scheduled event and the time still to go before it is delivered, counted
/// like that of a timed wait.
pub struct ScheduleDeadline<E> {
    pub expiration: Milliseconds,
    pub schedule: Schedule<E>,
}

impl DelayDeadline {
    /// A wait of `expiration` that nobody has left a token with yet.
    pub fn new(expiration: Milliseconds) -> (deadline: DelayDeadline)
        ensures
            deadline == (DelayDeadline { expiration, waker: None }),
    {
        DelayDeadline { expiration, waker: None }
    }
}

/// What the scheduler asks of an entry in its table of scheduled events.
pub trait Schedulable<E> {
    /// The time left before the entry is due.
    spec fn expiration(&self) -> Milliseconds;

    /// The notification that the entry still has to give.
    spec fn pending(&self) -> Option<Notification<E>>;

    /// Hands out the entry's notification; a second call hands out nothing.
    fn run(&mut self) -> (notification: Option<Notification<E>>)
        ensures
            notification == old(self).pending(),
            final(self).pending() is None,
            final(self).expiration() == old(self).expiration(),
    ;

    /// The time left before the entry is due.
    fn get_expiration(&self) -> (expiration: Milliseconds)
        ensures
            expiration == self.expiration(),
    ;

    /// Sets the time left before the entry is due.
    fn set_expiration(&mut self, expiration: Milliseconds)
        ensures
            final(self).expiration() == expiration,
            final(self).pending() == old(self).pending(),
    ;
}

impl<E> ScheduleDeadline<E> {
    /// An entry for `schedule` that is due after `expiration`.
    pub fn new(expiration: Milliseconds, schedule: Schedule<E>) -> (deadline: ScheduleDeadline<E>)
        ensures
            deadline == (ScheduleDeadline { expiration, schedule }),
    {
        ScheduleDeadline { expiration, schedule }
    }
}

impl<E> Schedulable<E> for ScheduleDeadline<E> {
    open spec fn expiration(&self) -> Milliseconds {
        self.expiration
    }

    open spec fn pending(&self) -> Option<Notification<E>> {
        match self.schedule.event {
            Some(event) => Some(Notification { target: self.schedule.address, event }),
            None => None,
        }
    }

    fn run(&mut self) -> (notification: Option<Notification<E>>)
        ensures
            *final(self) == (ScheduleDeadline {
                schedule: Schedule { event: None, ..old(self).schedule },
                ..*old(self)
            }),
    {
        match self.schedule.event.take() {
            Some(event) => Some(Notification { target: self.schedule.address, event }),
            None => None,
        }
    }

    fn get_expiration(&self) -> (expiration: Milliseconds) {
        self.expiration
    }

    fn set_expiration(&mut self, expiration: Milliseconds)
        ensures
            *final(self) == (ScheduleDeadline { expiration, ..*old(self) }),
    {
        self.expiration = expiration;
    }
}

/// The time that the wait in `slot` still counts, if it counts at all: a
/// wait that is over counts no more.
pub open spec fn wait_left(slot: Option<DelayDeadline>) -> Option<Milliseconds> {
    match slot {
        Some(deadline) => if deadline.expiration.0 == 0 {
            None
        } else {
            Some(deadline.expiration)
        },
        None => None,
    }
}

/// The time left of the scheduled event in `slot`, if there is one.
pub open spec fn schedule_left<E>(slot: Option<ScheduleDeadline<E>>) -> Option<Milliseconds> {
    match slot {
        Some(deadline) => Some(deadline.expiration),
        None => None,
    }
}

/// The shorter of two optional durations; an absent one never wins.
pub open spec fn sooner(a: Option<Milliseconds>, b: Option<Milliseconds>) -> Option<Milliseconds> {
    match (a, b) {
        (None, _) => b,
        (_, None) => a,
        (Some(x), Some(y)) => if y.0 < x.0 {
            b
        } else {
            a
        },
    }
}

/// The shortest time left among the first `n` wait slots.
pub open spec fn soonest_wait(waits: Seq<Option<DelayDeadline>>, n: nat) -> Option<Milliseconds>
    decreases n,
{
    if n == 0 {
        None
    } else {
        sooner(soonest_wait(waits, (n - 1) as nat), wait_left(waits[n - 1]))
    }
}

/// The shortest of `start` and the times left among the first `n` schedule slots.
pub open spec fn soonest_schedule<E>(
    start: Option<Milliseconds>,
    schedules: Seq<Option<ScheduleDeadline<E>>>,
    n: nat,
) -> Option<Milliseconds>
    decreases n,
{
    if n == 0 {
        start
    } else {
        sooner(soonest_schedule(start, schedules, (n - 1) as nat), schedule_left(schedules[n - 1]))
    }
}

/// The index of the first empty slot at or after `from`.
pub open spec fn first_free<T>(slots: Seq<Option<T>>, from: nat) -> Option<nat>
    decreases slots.len() - from,
{
    if from >= slots.len() {
        None
    } else if slots[from as int] is None {
        Some(from)
    } else {
        first_free(slots, from + 1)
    }
}

/// The wait in `slot` after the alarm has counted `expired` down: a wait with
/// no time left gives up its token and leaves its slot.
pub open spec fn tick_wait(slot: Option<DelayDeadline>, expired: Milliseconds) -> Option<
    DelayDeadline,
> {
    match slot {
        Some(deadline) => if deadline.expiration.minus(expired).0 == 0 {
            None
        } else {
            Some(DelayDeadline { expiration: deadline.expiration.minus(expired), ..deadline })
        },
        None => None,
    }
}

/// The token that the wait in `slot` hands out when the alarm has counted
/// `expired` down.
pub open spec fn woken_by(slot: Option<DelayDeadline>, expired: Milliseconds) -> Option<Waker> {
    match slot {
        Some(deadline) => if deadline.expiration.minus(expired).0 == 0 {
            deadline.waker
        } else {
            None
        },
        None => None,
    }
}

/// The scheduled event in `slot` after the alarm has counted `expired` down:
/// one that reaches zero leaves its slot.
pub open spec fn tick_schedule<E>(slot: Option<ScheduleDeadline<E>>, expired: Milliseconds)
    -> Option<ScheduleDeadline<E>> {
    match slot {
        Some(deadline) => if deadline.expiration.minus(expired).0 == 0 {
            None
        } else {
            Some(ScheduleDeadline { expiration: deadline.expiration.minus(expired), ..deadline })
        },
        None => None,
    }
}

/// The notification that the scheduled event in `slot` gives when the alarm
/// has counted `expired` down.
pub open spec fn due_from<E>(slot: Option<ScheduleDeadline<E>>, expired: Milliseconds) -> Option<
    Notification<E>,
> {
    match slot {
        Some(deadline) => if deadline.expiration.minus(expired).0 == 0 {
            match deadline.schedule.event {
                Some(event) => Some(Notification { target: deadline.schedule.address, event }),
                None => None,
            }
        } else {
            None
        },
        None => None,
    }
}

/// The tokens that the first `n` wait slots hand out, in slot order.
pub open spec fn woken(waits: Seq<Option<DelayDeadline>>, expired: Milliseconds, n: nat) -> Seq<
    Waker,
>
    decreases n,
{
    if n == 0 {
        Seq::empty()
    } else {
        let before = woken(waits, expired, (n - 1) as nat);
        match woken_by(waits[n - 1], expired) {
            Some(token) => before.push(token),
            None => before,
        }
    }
}

/// The notifications that the first `n` schedule slots give, in slot order.
pub open spec fn due<E>(schedules: Seq<Option<ScheduleDeadline<E>>>, expired: Milliseconds, n: nat)
    -> Seq<Notification<E>>
    decreases n,
{
    if n == 0 {
        Seq::empty()
    } else {
        let before = due(schedules, expired, (n - 1) as nat);
        match due_from(schedules[n - 1], expired) {
            Some(notification) => before.push(notification),
            None => before,
        }
    }
}

/// The scheduler's table: the countdown the alarm is running, and the slots.
pub ghost struct Deadlines<E> {
    /// The countdown the alarm was last armed with, if it is armed.
    pub marker: Option<Milliseconds>,
    /// The slots for timed waits.
    pub waits: Seq<Option<DelayDeadline>>,
    /// The slots for scheduled events.
    pub schedules: Seq<Option<ScheduleDeadline<E>>>,
}

impl<E> Deadlines<E> {
    /// A table with every slot empty and the alarm off.
    pub open spec fn empty() -> Deadlines<E> {
        Deadlines {
            marker: None,
            waits: Seq::new(SLOTS as nat, |i: int| None),
            schedules: Seq::new(SLOTS as nat, |i: int| None),
        }
    }

    /// The shortest time left among all slots that count, if any does.
    pub open spec fn minimum(self) -> Option<Milliseconds> {
        soonest_schedule(
            soonest_wait(self.waits, self.waits.len()),
            self.schedules,
            self.schedules.len(),
        )
    }

    /// Whether the alarm's countdown is the shortest that any slot counts,
    /// and the alarm is off when none counts.
    pub open spec fn exact(self) -> bool {
        self.marker == self.minimum()
    }

    /// Whether the table has its slots and the alarm's countdown is the
    /// shortest that any slot counts, or zero. It is zero, with no slot at
    /// zero, from when a wait of no duration was asked for until the
    /// interrupt that answers it.
    pub open spec fn wf(self) -> bool {
        &&& self.waits.len() == SLOTS
        &&& self.schedules.len() == SLOTS
        &&& (self.exact() || self.marker == Some(Milliseconds(0)))
    }

    /// The slot that a new scheduled event would take.
    pub open spec fn free_schedule(self) -> Option<nat> {
        first_free(self.schedules, 0)
    }

    /// The slot that a new timed wait would take.
    pub open spec fn free_wait(self) -> Option<nat> {
        first_free(self.waits, 0)
    }

    /// Whether a new countdown of `delay` makes the alarm start over.
    pub open spec fn rearms(self, delay: Milliseconds) -> bool {
        match self.marker {
            Some(current) => current.0 > delay.0,
            None => true,
        }
    }

    /// The table after `message` was scheduled: it takes the first empty
    /// slot, and the alarm goes to the shorter of its countdown and the new
    /// one. With no slot empty, nothing changes.
    pub open spec fn after_schedule(self, message: Schedule<E>) -> Deadlines<E> {
        match self.free_schedule() {
            Some(index) => Deadlines {
                marker: sooner(self.marker, Some(message.delay)),
                schedules: self.schedules.update(
                    index as int,
                    Some(ScheduleDeadline { expiration: message.delay, schedule: message }),
                ),
                ..self
            },
            None => self,
        }
    }

    /// The table after a timed wait of `delay` was asked for.
    pub open spec fn after_delay(self, delay: Milliseconds) -> Deadlines<E> {
        match self.free_wait() {
            Some(index) => Deadlines {
                marker: sooner(self.marker, Some(delay)),
                waits: self.waits.update(
                    index as int,
                    Some(DelayDeadline { expiration: delay, waker: None }),
                ),
                ..self
            },
            None => self,
        }
    }

    /// The countdown that an alarm interrupt reports as done.
    pub open spec fn expired(self) -> Milliseconds {
        match self.marker {
            Some(current) => current,
            None => Milliseconds(0),
        }
    }

    /// The slots after an alarm interrupt, before the alarm is armed again.
    pub open spec fn ticked(self) -> Deadlines<E> {
        Deadlines {
            marker: None,
            waits: Seq::new(self.waits.len(), |i: int| tick_wait(self.waits[i], self.expired())),
            schedules: Seq::new(
                self.schedules.len(),
                |i: int| tick_schedule(self.schedules[i], self.expired()),
            ),
        }
    }

    /// The table after an alarm interrupt: every countdown is shortened by
    /// what the alarm counted, those that reach zero fire, and the alarm is
    /// armed with the shortest countdown that is left.
    pub open spec fn after_interrupt(self) -> Deadlines<E> {
        Deadlines { marker: self.ticked().minimum(), ..self.ticked() }
    }

    /// Whether the wait in slot `index` is over, which it is when no time
    /// is left of it; a slot that holds no wait has nothing left to wait
    /// for.
    pub open spec fn has_expired(self, index: usize) -> bool {
        index < self.waits.len() ==> match self.waits[index as int] {
            Some(deadline) => deadline.expiration.0 == 0,
            None => true,
        }
    }

    /// The table after slot `index` was asked whether its wait is over: the
    /// first such question that is answered with yes empties the slot.
    pub open spec fn after_has_expired(self, index: usize) -> Deadlines<E> {
        if index < self.waits.len() && self.has_expired(index) {
            Deadlines { waits: self.waits.update(index as int, None), ..self }
        } else {
            self
        }
    }

    /// The table after `waker` was left with the wait in slot `index`.
    pub open spec fn after_register(self, index: usize, waker: Waker) -> Deadlines<E> {
        if index < self.waits.len() && self.waits[index as int] is Some {
            Deadlines {
                waits: self.waits.update(
                    index as int,
                    Some(DelayDeadline { waker: Some(waker), ..self.waits[index as int]->0 }),
                ),
                ..self
            }
        } else {
            self
        }
    }
}

/// What `first_free` finds is empty and has only taken slots before it; when
/// it finds nothing, every slot from `from` on is taken.
pub proof fn lemma_first_free<T>(slots: Seq<Option<T>>, from: nat)
    ensures
        match first_free(slots, from) {
            Some(index) => {
                &&& from <= index < slots.len()
                &&& slots[index as int] is None
                &&& forall|j: int| from <= j < index ==> (#[trigger] slots[j]) is Some
            },
            None => forall|j: int| from <= j < slots.len() ==> (#[trigger] slots[j]) is Some,
        },
    decreases slots.len() - from,
{
    if from < slots.len() && slots[from as int] is Some {
        lemma_first_free(slots, from + 1);
    }
}

/// The shortest time left among wait slots depends only on the times left.
pub proof fn lemma_soonest_wait_agrees(
    a: Seq<Option<DelayDeadline>>,
    b: Seq<Option<DelayDeadline>>,
    n: nat,
)
    requires
        n <= a.len(),
        n <= b.len(),
        forall|i: int| 0 <= i < n ==> wait_left(#[trigger] a[i]) == wait_left(#[trigger] b[i]),
    ensures
        soonest_wait(a, n) == soonest_wait(b, n),
    decreases n,
{
    if n > 0 {
        lemma_soonest_wait_agrees(a, b, (n - 1) as nat);
    }
}

/// The shortest time left among schedule slots depends only on the times left.
pub proof fn lemma_soonest_schedule_agrees<E>(
    start: Option<Milliseconds>,
    a: Seq<Option<ScheduleDeadline<E>>>,
    b: Seq<Option<ScheduleDeadline<E>>>,
    n: nat,
)
    requires
        n <= a.len(),
        n <= b.len(),
        forall|i: int|
            0 <= i < n ==> schedule_left(#[trigger] a[i]) == schedule_left(#[trigger] b[i]),
    ensures
        soonest_schedule(start, a, n) == soonest_schedule(start, b, n),
    decreases n,
{
    if n > 0 {
        lemma_soonest_schedule_agrees(start, a, b, (n - 1) as nat);
    }
}

/// A shorter start can be taken into account before or after the slots.
pub proof fn lemma_soonest_schedule_start<E>(
    start: Option<Milliseconds>,
    other: Option<Milliseconds>,
    schedules: Seq<Option<ScheduleDeadline<E>>>,
    n: nat,
)
    ensures
        soonest_schedule(sooner(start, other), schedules, n) == sooner(
            soonest_schedule(start, schedules, n),
            other,
        ),
    decreases n,
{
    if n > 0 {
        lemma_soonest_schedule_start(start, other, schedules, (n - 1) as nat);
    }
}

/// Filling a wait slot that counted nothing adds its time to the running minimum.
pub proof fn lemma_soonest_wait_filled(
    waits: Seq<Option<DelayDeadline>>,
    index: int,
    slot: Option<DelayDeadline>,
    n: nat,
)
    requires
        0 <= index < n <= waits.len(),
        wait_left(waits[index]) is None,
    ensures
        soonest_wait(waits.update(index, slot), n) == sooner(
            soonest_wait(waits, n),
            wait_left(slot),
        ),
    decreases n,
{
    let filled = waits.update(index, slot);
    if n - 1 == index {
        lemma_soonest_wait_agrees(waits, filled, (n - 1) as nat);
    } else {
        lemma_soonest_wait_filled(waits, index, slot, (n - 1) as nat);
    }
}

/// Filling a schedule slot that was empty adds its time to the running minimum.
pub proof fn lemma_soonest_schedule_filled<E>(
    start: Option<Milliseconds>,
    schedules: Seq<Option<ScheduleDeadline<E>>>,
    index: int,
    slot: Option<ScheduleDeadline<E>>,
    n: nat,
)
    requires
        0 <= index < n <= schedules.len(),
        schedules[index] is None,
    ensures
        soonest_schedule(start, schedules.update(index, slot), n) == sooner(
            soonest_schedule(start, schedules, n),
            schedule_left(slot),
        ),
    decreases n,
{
    let filled = schedules.update(index, slot);
    if n - 1 == index {
        lemma_soonest_schedule_agrees(start, schedules, filled, (n - 1) as nat);
    } else {
        lemma_soonest_schedule_filled(start, schedules, index, slot, (n - 1) as nat);
    }
}

/// What `soonest_wait` gives is the time left of one of the slots and no
/// longer than that of any; it gives nothing only when no slot counts.
pub proof fn lemma_soonest_wait_is_least(waits: Seq<Option<DelayDeadline>>, n: nat)
    requires
        n <= waits.len(),
    ensures
        match soonest_wait(waits, n) {
            Some(least) => {
                &&& exists|i: int| 0 <= i < n && wait_left(#[trigger] waits[i]) == Some(least)
                &&& forall|i: int|
                    0 <= i < n && wait_left(#[trigger] waits[i]) is Some ==> least.0 <= (wait_left(
                        waits[i],
                    )->0).ms()
            },
            None => forall|i: int| 0 <= i < n ==> wait_left(#[trigger] waits[i]) is None,
        },
    decreases n,
{
    if n > 0 {
        lemma_soonest_wait_is_least(waits, (n - 1) as nat);
        let before = soonest_wait(waits, (n - 1) as nat);
        let last = wait_left(waits[n - 1]);
        match sooner(before, last) {
            Some(least) => {
                if before == Some(least) {
                    let i = choose|i: int|
                        0 <= i < n - 1 && wait_left(#[trigger] waits[i]) == Some(least);
                    assert(0 <= i < n && wait_left(waits[i]) == Some(least));
                } else {
                    assert(wait_left(waits[n - 1]) == Some(least));
                }
            },
            None => {},
        }
    }
}

/// What `soonest_schedule` gives is `start` or the time left of one of the
/// slots, and no longer than any of them.
pub proof fn lemma_soonest_schedule_is_least<E>(
    start: Option<Milliseconds>,
    schedules: Seq<Option<ScheduleDeadline<E>>>,
    n: nat,
)
    requires
        n <= schedules.len(),
    ensures
        match soonest_schedule(start, schedules, n) {
            Some(least) => {
                &&& start == Some(least) || exists|i: int|
                    0 <= i < n && schedule_left(#[trigger] schedules[i]) == Some(least)
                &&& start is Some ==> least.0 <= (start->0).ms()
                &&& forall|i: int|
                    0 <= i < n && (#[trigger] schedules[i]) is Some ==> least.0
                        <= (schedules[i]->0).expiration.0
            },
            None => start is None && forall|i: int|
                0 <= i < n ==> (#[trigger] schedules[i]) is None,
        },
    decreases n,
{
    if n > 0 {
        lemma_soonest_schedule_is_least(start, schedules, (n - 1) as nat);
        let before = soonest_schedule(start, schedules, (n - 1) as nat);
        let last = schedule_left(schedules[n - 1]);
        match sooner(before, last) {
            Some(least) => {
                if before == Some(least) {
                    if start != Some(least) {
                        let i = choose|i: int|
                            0 <= i < n - 1 && schedule_left(#[trigger] schedules[i]) == Some(
                                least,
                            );
                        assert(0 <= i < n && schedule_left(schedules[i]) == Some(least));
                    }
                } else {
                    assert(schedule_left(schedules[n - 1]) == Some(least));
                }
            },
            None => {},
        }
    }
}

impl<E> Deadlines<E> {
    /// Whether the wait in slot `i` still counts.
    pub open spec fn wait_counts(self, i: int) -> bool {
        0 <= i < self.waits.len() && wait_left(self.waits[i]) is Some
    }

    /// Whether slot `i` holds a scheduled event.
    pub open spec fn schedule_counts(self, i: int) -> bool {
        0 <= i < self.schedules.len() && self.schedules[i] is Some
    }

    /// The alarm's countdown in an exact table is the time left of some slot
    /// that counts and is no longer than that of any other; the alarm is off
    /// exactly when no slot counts.
    pub proof fn lemma_marker_is_least(self)
        requires
            self.exact(),
        ensures
            match self.marker {
                Some(least) => {
                    &&& (exists|i: int| #[trigger]
                        self.wait_counts(i) && (self.waits[i]->0).expiration == least) || (exists|
                        i: int,
                    | #[trigger]
                        self.schedule_counts(i) && (self.schedules[i]->0).expiration == least)
                    &&& forall|i: int| #[trigger]
                        self.wait_counts(i) ==> least.0 <= (self.waits[i]->0).expiration.0
                    &&& forall|i: int| #[trigger]
                        self.schedule_counts(i) ==> least.0 <= (self.schedules[i]->0).expiration.0
                },
                None => {
                    &&& forall|i: int| !#[trigger] self.wait_counts(i)
                    &&& forall|i: int| !#[trigger] self.schedule_counts(i)
                },
            },
    {
        let start = soonest_wait(self.waits, self.waits.len());
        lemma_soonest_wait_is_least(self.waits, self.waits.len());
        lemma_soonest_schedule_is_least(start, self.schedules, self.schedules.len());
        match self.marker {
            Some(least) => {
                if start == Some(least) {
                    let i = choose|i: int|
                        0 <= i < self.waits.len() && wait_left(#[trigger] self.waits[i]) == Some(
                            least,
                        );
                    assert(self.wait_counts(i) && (self.waits[i]->0).expiration == least);
                } else {
                    let i = choose|i: int|
                        0 <= i < self.schedules.len() && schedule_left(
                            #[trigger] self.schedules[i],
                        ) == Some(least);
                    assert(self.schedule_counts(i) && (self.schedules[i]->0).expiration == least);
                }
                assert forall|i: int| #[trigger] self.wait_counts(i) implies least.0
                    <= (self.waits[i]->0).expiration.0 by {
                    assert(wait_left(self.waits[i]) is Some);
                }
            },
            None => {
                assert forall|i: int| !#[trigger] self.wait_counts(i) by {
                    if 0 <= i < self.waits.len() {
                        assert(wait_left(self.waits[i]) is None);
                    }
                }
            },
        }
    }

    /// In a well-formed table no slot counts less than the alarm does, and
    /// none counts when the alarm is off.
    pub proof fn lemma_marker_is_no_more(self)
        requires
            self.wf(),
        ensures
            match self.marker {
                Some(least) => {
                    &&& forall|i: int| #[trigger]
                        self.wait_counts(i) ==> least.0 <= (self.waits[i]->0).expiration.0
                    &&& forall|i: int| #[trigger]
                        self.schedule_counts(i) ==> least.0 <= (self.schedules[i]->0).expiration.0
                },
                None => {
                    &&& forall|i: int| !#[trigger] self.wait_counts(i)
                    &&& forall|i: int| !#[trigger] self.schedule_counts(i)
                },
            },
    {
        if self.exact() {
            self.lemma_marker_is_least();
        }
    }

    /// An empty table is well-formed, and exact.
    pub proof fn lemma_empty_wf()
        ensures
            Self::empty().wf(),
            Self::empty().exact(),
    {
        let table = Self::empty();
        lemma_soonest_wait_is_least(table.waits, table.waits.len());
        let start = soonest_wait(table.waits, table.waits.len());
        assert(start is None) by {
            if start is Some {
                let i = choose|i: int|
                    0 <= i < table.waits.len() && wait_left(#[trigger] table.waits[i]) == start;
                assert(table.waits[i] is None);
            }
        }
        lemma_soonest_schedule_is_least(start, table.schedules, table.schedules.len());
        let all = table.minimum();
        assert(all is None) by {
            if all is Some {
                let i = choose|i: int|
                    0 <= i < table.schedules.len() && schedule_left(
                        #[trigger] table.schedules[i],
                    ) == all;
                assert(table.schedules[i] is None);
            }
        }
    }

    /// Scheduling an event keeps the alarm on the shortest countdown.
    pub proof fn lemma_schedule_keeps_minimum(self, message: Schedule<E>)
        requires
            self.wf(),
        ensures
            self.after_schedule(message).wf(),
            self.exact() ==> self.after_schedule(message).exact(),
    {
        lemma_first_free(self.schedules, 0);
        match self.free_schedule() {
            Some(index) => {
                let slot = Some(ScheduleDeadline { expiration: message.delay, schedule: message });
                lemma_soonest_schedule_filled(
                    soonest_wait(self.waits, self.waits.len()),
                    self.schedules,
                    index as int,
                    slot,
                    self.schedules.len(),
                );
            },
            None => {},
        }
    }

    /// Asking for a timed wait keeps the alarm on the shortest countdown. A
    /// wait of no duration is over as it is asked for and counts nothing,
    /// but the alarm is still started for it, with zero.
    pub proof fn lemma_delay_keeps_minimum(self, delay: Milliseconds)
        requires
            self.wf(),
        ensures
            self.after_delay(delay).wf(),
            self.exact() && delay.0 > 0 ==> self.after_delay(delay).exact(),
            delay.0 == 0 && self.free_wait() is Some ==> self.after_delay(delay).marker == Some(
                Milliseconds(0),
            ),
    {
        lemma_first_free(self.waits, 0);
        match self.free_wait() {
            Some(index) => {
                let slot = Some(DelayDeadline { expiration: delay, waker: None });
                lemma_soonest_wait_filled(self.waits, index as int, slot, self.waits.len());
                lemma_soonest_schedule_start(
                    soonest_wait(self.waits, self.waits.len()),
                    Some(delay),
                    self.schedules,
                    self.schedules.len(),
                );
            },
            None => {},
        }
    }

    /// An alarm interrupt leaves the alarm on the shortest countdown, or off
    /// when nothing counts any more.
    pub proof fn lemma_interrupt_keeps_minimum(self)
        requires
            self.waits.len() == SLOTS,
            self.schedules.len() == SLOTS,
        ensures
            self.after_interrupt().wf(),
            self.after_interrupt().exact(),
    {
    }

    /// Asking whether a wait is over keeps the alarm on the shortest countdown.
    pub proof fn lemma_has_expired_keeps_minimum(self, index: usize)
        requires
            self.wf(),
        ensures
            self.after_has_expired(index).wf(),
            self.exact() ==> self.after_has_expired(index).exact(),
    {
        let after = self.after_has_expired(index);
        lemma_soonest_wait_agrees(self.waits, after.waits, self.waits.len());
    }

    /// Leaving a token with a wait keeps the alarm on the shortest countdown.
    pub proof fn lemma_register_keeps_minimum(self, index: usize, waker: Waker)
        requires
            self.wf(),
        ensures
            self.after_register(index, waker).wf(),
            self.exact() ==> self.after_register(index, waker).exact(),
    {
        let after = self.after_register(index, waker);
        lemma_soonest_wait_agrees(self.waits, after.waits, self.waits.len());
    }

    /// Countdowns fire in the order of their durations: of two slots that
    /// count, the one with no more time left fires no later than the other,
    /// and while both go on counting it stays the one with no more time left.
    pub proof fn lemma_interrupt_keeps_order(self, i: int, j: int)
        requires
            self.wf(),
            0 <= i < SLOTS,
            0 <= j < SLOTS,
        ensures
            self.schedule_counts(i) && self.schedule_counts(j) && (self.schedules[i]->0).expiration.0
                <= (self.schedules[j]->0).expiration.0 ==> {
                &&& !self.after_interrupt().schedule_counts(j)
                    ==> !self.after_interrupt().schedule_counts(i)
                &&& self.after_interrupt().schedule_counts(i) ==> (
                self.after_interrupt().schedules[i]->0).expiration.0 <= (
                self.after_interrupt().schedules[j]->0).expiration.0
            },
            self.wait_counts(i) && self.wait_counts(j) && (self.waits[i]->0).expiration.0 <= (
            self.waits[j]->0).expiration.0 ==> {
                &&& !self.after_interrupt().wait_counts(j) ==> !self.after_interrupt().wait_counts(i)
                &&& self.after_interrupt().wait_counts(i) ==> (
                self.after_interrupt().waits[i]->0).expiration.0 <= (
                self.after_interrupt().waits[j]->0).expiration.0
            },
            self.wait_counts(i) && self.schedule_counts(j) && (self.waits[i]->0).expiration.0 <= (
            self.schedules[j]->0).expiration.0 ==> (!self.after_interrupt().schedule_counts(j)
                ==> !self.after_interrupt().wait_counts(i)),
            self.schedule_counts(i) && self.wait_counts(j) && (self.schedules[i]->0).expiration.0
                <= (self.waits[j]->0).expiration.0 ==> (!self.after_interrupt().wait_counts(j)
                ==> !self.after_interrupt().schedule_counts(i)),
    {
        self.lemma_marker_is_no_more();
        if self.marker is Some {
            if self.schedule_counts(i) {
                assert((self.marker->0).0 <= (self.schedules[i]->0).expiration.0);
            }
            if self.schedule_counts(j) {
                assert((self.marker->0).0 <= (self.schedules[j]->0).expiration.0);
            }
            if self.wait_counts(i) {
                assert((self.marker->0).0 <= (self.waits[i]->0).expiration.0);
            }
            if self.wait_counts(j) {
                assert((self.marker->0).0 <= (self.waits[j]->0).expiration.0);
            }
        }
    }

    /// The soonest countdown fires with the next interrupt: every slot whose
    /// time left is what the alarm runs leaves the table or counts no more,
    /// and no other slot does.
    pub proof fn lemma_interrupt_fires_the_soonest(self, i: int)
        requires
            self.wf(),
            0 <= i < SLOTS,
        ensures
            self.schedule_counts(i) ==> (!self.after_interrupt().schedule_counts(i) <==> Some(
                (self.schedules[i]->0).expiration,
            ) == self.marker),
            self.wait_counts(i) ==> (!self.after_interrupt().wait_counts(i) <==> Some(
                (self.waits[i]->0).expiration,
            ) == self.marker),
            !self.schedule_counts(i) ==> !self.after_interrupt().schedule_counts(i),
            !self.wait_counts(i) ==> !self.after_interrupt().wait_counts(i),
    {
        self.lemma_marker_is_no_more();
        if self.marker is Some {
            if self.schedule_counts(i) {
                assert((self.marker->0).0 <= (self.schedules[i]->0).expiration.0);
            }
            if self.wait_counts(i) {
                assert((self.marker->0).0 <= (self.waits[i]->0).expiration.0);
            }
        } else {
            assert(!self.schedule_counts(i));
            assert(!self.wait_counts(i));
        }
    }

    /// A token goes out once: the wait whose token an interrupt hands out
    /// leaves its slot with it, so that a later interrupt finds nothing
    /// there to hand out; and a token that a later interrupt does hand out
    /// was not handed out by this one.
    pub proof fn lemma_fired_wait_stays_silent(self, i: int, later: Milliseconds)
        requires
            0 <= i < self.waits.len(),
        ensures
            woken_by(self.waits[i], self.expired()) is Some ==> {
                &&& self.waits[i] is Some
                &&& self.after_interrupt().waits[i] is None
                &&& woken_by(self.after_interrupt().waits[i], later) is None
            },
            woken_by(self.after_interrupt().waits[i], later) is Some ==> {
                &&& woken_by(self.waits[i], self.expired()) is None
                &&& woken_by(self.after_interrupt().waits[i], later) == (self.waits[i]->0).waker
            },
    {
    }

    /// A wait that has run out frees its slot: after an alarm interrupt a
    /// wait slot is taken only by a wait that still counts, whether or not
    /// anybody asks for the waits that ended.
    pub proof fn lemma_interrupt_frees_finished_waits(self, i: int)
        requires
            0 <= i < self.waits.len(),
        ensures
            self.after_interrupt().waits[i] is Some <==> self.after_interrupt().wait_counts(i),
            self.waits[i] is None ==> self.after_interrupt().waits[i] is None,
    {
    }

    /// After an alarm interrupt every countdown that is left is above zero.
    pub proof fn lemma_interrupt_leaves_time(self)
        ensures
            forall|i: int| #[trigger]
                self.after_interrupt().wait_counts(i) ==> (self.after_interrupt().waits[i]->0).expiration.0
                    > 0,
            forall|i: int| #[trigger]
                self.after_interrupt().schedule_counts(i)
                    ==> (self.after_interrupt().schedules[i]->0).expiration.0 > 0,
    {
    }
}

} // verus!
