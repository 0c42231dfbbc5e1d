//! The bounded mailbox between one producer and one consumer.
//!
//! A message is one word: an event's code, or the handle under which a
//! larger value is kept elsewhere.

use core::task::Waker;
use heapless::spsc::Queue;
use vstd::prelude::*;
use crate::critical::masked;
use crate::token::{clone_token, WakerSlot};

verus! {

/// The number of cells in a mailbox's ring. One cell always stays empty.
pub const RING: usize = 16;

/// The largest number of messages a mailbox can be made to hold.
pub const CAPACITY: usize = RING - 1;

/// `heapless::spsc::Queue`, used as the mailbox's ring buffer.
#[verifier::external_type_specification]
#[verifier::external_body]
#[verifier::reject_recursive_types(T)]
pub struct ExQueue<T, const N: usize>(Queue<T, N>);

/// The messages waiting in a ring, oldest first.
pub uninterp spec fn queued(ring: Queue<u32, RING>) -> Seq<u32>;

/// `Queue::new`: a ring with nothing in it.
#[verifier::external_body]
fn ring_new() -> (ring: Queue<u32, RING>)
    ensures
        queued(ring) == Seq::<u32>::empty(),
{
    Queue::new()
}

/// `Queue::enqueue`: with fewer than `RING - 1` messages waiting the message
/// goes to the back and nothing comes back; otherwise the ring is left alone
/// and the message is handed back.
#[verifier::external_body]
fn ring_enqueue(ring: &mut Queue<u32, RING>, message: u32) -> (refused: Option<u32>)
    ensures
        queued(*old(ring)).len() < CAPACITY ==> refused is None && queued(*final(ring)) == queued(
            *old(ring),
        ).push(message),
        queued(*old(ring)).len() >= CAPACITY ==> refused == Some(message) && queued(*final(ring))
            == queued(*old(ring)),
{
    ring.enqueue(message).err()
}

/// `Queue::dequeue`: hands out the oldest message, or nothing from an empty ring.
#[verifier::external_body]
fn ring_dequeue(ring: &mut Queue<u32, RING>) -> (message: Option<u32>)
    ensures
        queued(*old(ring)).len() == 0 ==> message is None && queued(*final(ring)) == queued(
            *old(ring),
        ),
        queued(*old(ring)).len() > 0 ==> message == Some(queued(*old(ring))[0]) && queued(
            *final(ring),
        ) == queued(*old(ring)).drop_first(),
{
    ring.dequeue()
}

/// `Queue::len`: the number of messages waiting.
#[verifier::external_body]
fn ring_len(ring: &Queue<u32, RING>) -> (len: usize)
    ensures
        len == queued(*ring).len(),
{
    ring.len()
}

/// `Queue::is_full`: whether `RING - 1` messages are waiting.
#[verifier::external_body]
fn ring_is_full(ring: &Queue<u32, RING>) -> (full: bool)
    ensures
        full == (queued(*ring).len() >= CAPACITY),
{
    ring.is_full()
}

/// Why a non-suspending mailbox operation did nothing.
#[derive(Clone, Copy, Debug, PartialEq, Eq, Structural)]
pub enum ChannelError {
    ChannelFull,
    ChannelEmpty,
}

/// What one poll of a pending computation gave.
#[derive(Debug, PartialEq, Eq)]
pub enum Poll<T> {
    Ready(T),
    Pending,
}

/// The state of a mailbox as its contracts see it.
pub ghost struct Mailbox {
    /// The number of messages the mailbox was made to hold.
    pub capacity: nat,
    /// The messages waiting, oldest first.
    pub items: Seq<u32>,
    /// Whether a suspended sender has left its token.
    pub sender_waiting: bool,
    /// Whether a suspended receiver has left its token.
    pub receiver_waiting: bool,
}

impl Mailbox {
    /// A mailbox for `capacity` messages with nothing in it and nobody
    /// waiting.
    pub open spec fn empty(capacity: nat) -> Mailbox {
        Mailbox { capacity, items: Seq::empty(), sender_waiting: false, receiver_waiting: false }
    }

    /// The capacity that a mailbox gets when `limit` is asked for: no ring
    /// holds more than `CAPACITY`.
    pub open spec fn granted(limit: usize) -> nat {
        if limit <= CAPACITY {
            limit as nat
        } else {
            CAPACITY as nat
        }
    }

    /// Whether the mailbox holds no more than it was made for, and was made
    /// for no more than a ring can hold.
    pub open spec fn wf(self) -> bool {
        self.items.len() <= self.capacity <= CAPACITY
    }

    /// Whether there is room for one more message.
    pub open spec fn has_room(self) -> bool {
        self.items.len() < self.capacity
    }

    /// The mailbox after `message` went in and the receiver was woken.
    pub open spec fn enqueued(self, message: u32) -> Mailbox {
        Mailbox { items: self.items.push(message), receiver_waiting: false, ..self }
    }

    /// The mailbox after a non-suspending send of `message`.
    pub open spec fn after_try_send(self, message: u32) -> Mailbox {
        if self.has_room() {
            self.enqueued(message)
        } else {
            self
        }
    }

    /// The outcome of a non-suspending send.
    pub open spec fn try_send_result(self) -> Result<(), ChannelError> {
        if self.has_room() {
            Ok(())
        } else {
            Err(ChannelError::ChannelFull)
        }
    }

    /// The mailbox after one poll of a suspending send that still holds
    /// `element`; a send that has handed its message over holds nothing.
    pub open spec fn after_poll_send(self, element: Option<u32>) -> Mailbox {
        match element {
            None => self,
            Some(message) => if self.has_room() {
                self.enqueued(message)
            } else {
                Mailbox { sender_waiting: true, ..self }
            },
        }
    }

    /// What a suspending send still holds after one poll.
    pub open spec fn kept_by_poll_send(self, element: Option<u32>) -> Option<u32> {
        if self.has_room() {
            None
        } else {
            element
        }
    }

    /// Whether one poll of a suspending send completes it.
    pub open spec fn poll_send_ready(self, element: Option<u32>) -> bool {
        element is None || self.has_room()
    }

    /// The mailbox after a receive: the oldest message leaves and the
    /// sender is woken for the place that has come free. With no message
    /// there, a receiver that `waits` leaves its token, and nothing else
    /// changes.
    pub open spec fn after_receive(self, waits: bool) -> Mailbox {
        if self.items.len() > 0 {
            Mailbox { items: self.items.drop_first(), sender_waiting: false, ..self }
        } else {
            Mailbox { receiver_waiting: self.receiver_waiting || waits, ..self }
        }
    }

    /// The mailbox after a non-suspending receive.
    pub open spec fn after_try_receive(self) -> Mailbox {
        self.after_receive(false)
    }

    /// The outcome of a non-suspending receive.
    pub open spec fn try_receive_result(self) -> Result<u32, ChannelError> {
        if self.items.len() > 0 {
            Ok(self.items[0])
        } else {
            Err(ChannelError::ChannelEmpty)
        }
    }

    /// The mailbox after one poll of a suspending receive.
    pub open spec fn after_poll_receive(self) -> Mailbox {
        self.after_receive(true)
    }

    /// The outcome of one poll of a suspending receive.
    pub open spec fn poll_receive_result(self) -> Poll<u32> {
        if self.items.len() > 0 {
            Poll::Ready(self.items[0])
        } else {
            Poll::Pending
        }
    }
}

impl Mailbox {
    /// The mailbox after the non-suspending sends of `messages`, in order.
    pub open spec fn after_sends(self, messages: Seq<u32>) -> Mailbox
        decreases messages.len(),
    {
        if messages.len() == 0 {
            self
        } else {
            self.after_try_send(messages[0]).after_sends(messages.drop_first())
        }
    }

    /// The outcomes of the non-suspending sends of `messages`, in order.
    pub open spec fn send_results(self, messages: Seq<u32>) -> Seq<Result<(), ChannelError>>
        decreases messages.len(),
    {
        if messages.len() == 0 {
            Seq::empty()
        } else {
            seq![self.try_send_result()] + self.after_try_send(messages[0]).send_results(
                messages.drop_first(),
            )
        }
    }

    /// The mailbox after `n` non-suspending receives.
    pub open spec fn after_receives(self, n: nat) -> Mailbox
        decreases n,
    {
        if n == 0 {
            self
        } else {
            self.after_try_receive().after_receives((n - 1) as nat)
        }
    }

    /// The outcomes of `n` non-suspending receives, in order.
    pub open spec fn receive_results(self, n: nat) -> Seq<Result<u32, ChannelError>>
        decreases n,
    {
        if n == 0 {
            Seq::empty()
        } else {
            seq![self.try_receive_result()] + self.after_try_receive().receive_results(
                (n - 1) as nat,
            )
        }
    }

    /// Sends that fit are all accepted and line up behind what was waiting.
    pub proof fn lemma_sends_line_up(self, messages: Seq<u32>)
        requires
            self.items.len() + messages.len() <= self.capacity,
        ensures
            self.after_sends(messages).items == self.items + messages,
            self.after_sends(messages).capacity == self.capacity,
            self.send_results(messages) == Seq::new(
                messages.len(),
                |i: int| Ok::<(), ChannelError>(()),
            ),
        decreases messages.len(),
    {
        if messages.len() > 0 {
            self.after_try_send(messages[0]).lemma_sends_line_up(messages.drop_first());
        }
        assert(self.after_sends(messages).items =~= self.items + messages);
        assert(self.send_results(messages) =~= Seq::new(
            messages.len(),
            |i: int| Ok::<(), ChannelError>(()),
        ));
    }

    /// Receives hand out what is waiting, oldest first.
    pub proof fn lemma_receives_oldest_first(self, n: nat)
        requires
            n <= self.items.len(),
        ensures
            self.receive_results(n) == Seq::new(n, |i: int| Ok::<u32, ChannelError>(self.items[i])),
            self.after_receives(n).items == self.items.skip(n as int),
        decreases n,
    {
        if n > 0 {
            self.after_try_receive().lemma_receives_oldest_first((n - 1) as nat);
        }
        assert(self.receive_results(n) =~= Seq::new(
            n,
            |i: int| Ok::<u32, ChannelError>(self.items[i]),
        ));
        assert(self.after_receives(n).items =~= self.items.skip(n as int));
    }

    /// First in, first out: whatever is sent into an empty mailbox, up to
    /// its capacity, is received in the order in which it was sent.
    pub proof fn lemma_fifo(capacity: nat, messages: Seq<u32>)
        requires
            messages.len() <= capacity,
        ensures
            Mailbox::empty(capacity).after_sends(messages).receive_results(messages.len())
                == Seq::new(messages.len(), |i: int| Ok::<u32, ChannelError>(messages[i])),
            Mailbox::empty(capacity).after_sends(messages).after_receives(
                messages.len(),
            ).items.len() == 0,
    {
        let filled = Mailbox::empty(capacity).after_sends(messages);
        Mailbox::empty(capacity).lemma_sends_line_up(messages);
        assert(filled.items =~= messages);
        filled.lemma_receives_oldest_first(messages.len());
    }

    /// A suspending send and a suspending receive move the same messages as
    /// their non-suspending counterparts.
    pub proof fn lemma_polls_move_the_same(self, message: u32)
        ensures
            self.after_poll_send(Some(message)).items == self.after_try_send(message).items,
            self.after_poll_receive().items == self.after_try_receive().items,
            self.poll_send_ready(Some(message)) == (self.try_send_result() is Ok),
            self.poll_receive_result() is Ready == (self.try_receive_result() is Ok),
    {
    }

    /// Backpressure: a full mailbox refuses a non-suspending send and makes
    /// a suspending one wait with its message and its token left behind. The
    /// next receive, suspending or not, takes the oldest message and wakes
    /// the sender, whose token leaves its slot; the send, polled again,
    /// hands its message over to the back of the queue, and polled once more
    /// does nothing.
    pub proof fn lemma_suspended_sender_completes_once(self, message: u32)
        requires
            self.items.len() == self.capacity,
            self.capacity > 0,
        ensures
            self.try_send_result() == Err::<(), ChannelError>(ChannelError::ChannelFull),
            self.after_try_send(message) == self,
            !self.poll_send_ready(Some(message)),
            self.kept_by_poll_send(Some(message)) == Some(message),
            self.after_poll_send(Some(message)) == (Mailbox { sender_waiting: true, ..self }),
            self.after_poll_send(Some(message)).poll_receive_result() == Poll::Ready(
                self.items[0],
            ),
            !self.after_poll_send(Some(message)).after_poll_receive().sender_waiting,
            self.after_poll_send(Some(message)).try_receive_result() == Ok::<u32, ChannelError>(
                self.items[0],
            ),
            self.after_poll_send(Some(message)).after_try_receive() == self.after_poll_send(
                Some(message),
            ).after_poll_receive(),
            self.after_poll_send(Some(message)).after_poll_receive().poll_send_ready(
                Some(message),
            ),
            self.after_poll_send(Some(message)).after_poll_receive().kept_by_poll_send(
                Some(message),
            ) is None,
            self.after_poll_send(Some(message)).after_poll_receive().after_poll_send(
                Some(message),
            ).items == self.items.drop_first().push(message),
            self.after_poll_send(Some(message)).after_poll_receive().after_poll_send(
                Some(message),
            ).after_poll_send(None) == self.after_poll_send(
                Some(message),
            ).after_poll_receive().after_poll_send(Some(message)),
    {
    }

    /// No operation lets a mailbox hold more than its capacity.
    pub proof fn lemma_stays_bounded(self, message: u32, element: Option<u32>)
        requires
            self.wf(),
        ensures
            self.after_try_send(message).wf(),
            self.after_poll_send(element).wf(),
            self.after_try_receive().wf(),
            self.after_poll_receive().wf(),
    {
    }
}

/// The ring and the two token slots that both ends of a mailbox work on.
pub struct ChannelInner {
    queue: Queue<u32, RING>,
    limit: usize,
    sender_waker: WakerSlot,
    receiver_waker: WakerSlot,
}

impl View for ChannelInner {
    type V = Mailbox;

    closed spec fn view(&self) -> Mailbox {
        Mailbox {
            capacity: Mailbox::granted(self.limit),
            items: queued(self.queue),
            sender_waiting: self.sender_waker.registered(),
            receiver_waiting: self.receiver_waker.registered(),
        }
    }
}

impl ChannelInner {
    /// An empty mailbox of the largest capacity, with nobody waiting.
    pub fn new() -> (inner: ChannelInner)
        ensures
            inner@ == Mailbox::empty(CAPACITY as nat),
    {
        ChannelInner::with_capacity(CAPACITY)
    }

    /// An empty mailbox that holds up to `limit` messages, or `CAPACITY` if
    /// `limit` is more than that, with nobody waiting.
    pub fn with_capacity(limit: usize) -> (inner: ChannelInner)
        ensures
            inner@ == Mailbox::empty(Mailbox::granted(limit)),
    {
        ChannelInner {
            queue: ring_new(),
            limit: if limit <= CAPACITY {
                limit
            } else {
                CAPACITY
            },
            sender_waker: WakerSlot::new(),
            receiver_waker: WakerSlot::new(),
        }
    }

    /// The number of messages the mailbox was made to hold.
    pub fn capacity(&self) -> (capacity: usize)
        ensures
            capacity == self@.capacity,
    {
        if self.limit <= CAPACITY {
            self.limit
        } else {
            CAPACITY
        }
    }

    /// Leaves a copy of `waker` for the suspended receiver.
    pub fn register_receiver(&mut self, waker: &Waker)
        ensures
            final(self)@ == (Mailbox { receiver_waiting: true, ..old(self)@ }),
    {
        self.receiver_waker.register(clone_token(waker));
    }

    /// Leaves a copy of `waker` for the suspended sender.
    pub fn register_sender(&mut self, waker: &Waker)
        ensures
            final(self)@ == (Mailbox { sender_waiting: true, ..old(self)@ }),
    {
        self.sender_waker.register(clone_token(waker));
    }

    /// Invokes the sender's token, if one is waiting, and clears its slot.
    pub fn wake_sender(&mut self) -> (invoked: bool)
        ensures
            invoked == old(self)@.sender_waiting,
            final(self)@ == (Mailbox { sender_waiting: false, ..old(self)@ }),
    {
        self.sender_waker.wake()
    }

    /// Invokes the receiver's token, if one is waiting, and clears its slot.
    pub fn wake_receiver(&mut self) -> (invoked: bool)
        ensures
            invoked == old(self)@.receiver_waiting,
            final(self)@ == (Mailbox { receiver_waiting: false, ..old(self)@ }),
    {
        self.receiver_waker.wake()
    }

    /// Puts `message` at the back and wakes the receiver, or refuses it when
    /// the mailbox holds as many messages as it was made for.
    pub fn enqueue(&mut self, message: u32) -> (outcome: Result<(), ChannelError>)
        ensures
            outcome == old(self)@.try_send_result(),
            final(self)@ == old(self)@.after_try_send(message),
    {
        if ring_len(&self.queue) >= self.limit {
            return Err(ChannelError::ChannelFull);
        }
        match ring_enqueue(&mut self.queue, message) {
            None => {
                self.receiver_waker.wake();
                Ok(())
            },
            Some(_) => Err(ChannelError::ChannelFull),
        }
    }

    /// Takes the oldest message and wakes the sender for the place that
    /// has come free. With no message there, a copy of `waiting`, if one is
    /// given, is left for the receiver, and the lack is reported.
    pub fn dequeue(&mut self, waiting: Option<&Waker>) -> (outcome: Result<u32, ChannelError>)
        ensures
            outcome == old(self)@.try_receive_result(),
            final(self)@ == old(self)@.after_receive(waiting is Some),
    {
        match ring_dequeue(&mut self.queue) {
            Some(message) => {
                self.sender_waker.wake();
                Ok(message)
            },
            None => {
                match waiting {
                    Some(waker) => self.register_receiver(waker),
                    None => {},
                }
                Err(ChannelError::ChannelEmpty)
            },
        }
    }

    /// Whether the mailbox has room for one more message.
    pub fn ready(&self) -> (room: bool)
        ensures
            room == self@.has_room(),
    {
        ring_len(&self.queue) < self.limit && !ring_is_full(&self.queue)
    }

    /// One step of a suspending send: hands `element` over if there is room,
    /// and otherwise leaves the sender's token and keeps `element`.
    pub fn poll_enqueue(&mut self, waker: &Waker, element: &mut Option<u32>) -> (poll: Poll<()>)
        ensures
            (poll is Ready) == old(self)@.poll_send_ready(*old(element)),
            final(self)@ == old(self)@.after_poll_send(*old(element)),
            *final(element) == old(self)@.kept_by_poll_send(*old(element)),
    {
        match *element {
            None => Poll::Ready(()),
            Some(message) => {
                if self.ready() {
                    *element = None;
                    let outcome = self.enqueue(message);
                    Poll::Ready(())
                } else {
                    self.register_sender(waker);
                    Poll::Pending
                }
            },
        }
    }

    /// One step of a suspending receive: takes the oldest message and wakes
    /// the sender, or leaves the receiver's token when there is none.
    pub fn poll_dequeue(&mut self, waker: &Waker) -> (poll: Poll<u32>)
        ensures
            poll == old(self)@.poll_receive_result(),
            final(self)@ == old(self)@.after_poll_receive(),
    {
        match self.dequeue(Some(waker)) {
            Ok(message) => Poll::Ready(message),
            Err(_) => Poll::Pending,
        }
    }
}

/// A mailbox: a bounded first-in, first-out queue of messages with one
/// sending end and one receiving end.
pub struct Channel {
    inner: ChannelInner,
}

impl View for Channel {
    type V = Mailbox;

    closed spec fn view(&self) -> Mailbox {
        self.inner@
    }
}

impl Channel {
    /// An empty mailbox of the largest capacity.
    pub fn new() -> (channel: Channel)
        ensures
            channel@ == Mailbox::empty(CAPACITY as nat),
    {
        Channel { inner: ChannelInner::new() }
    }

    /// An empty mailbox that holds up to `limit` messages, or `CAPACITY` if
    /// `limit` is more than that. The capacity stays what it is made here.
    pub fn with_capacity(limit: usize) -> (channel: Channel)
        ensures
            channel@ == Mailbox::empty(Mailbox::granted(limit)),
    {
        Channel { inner: ChannelInner::with_capacity(limit) }
    }

    /// The number of messages the mailbox was made to hold.
    pub fn capacity(&self) -> (capacity: usize)
        ensures
            capacity == self@.capacity,
    {
        self.inner.capacity()
    }

    /// The sending end. The mailbox is the handle's for as long as it lives.
    pub fn sender(&mut self) -> (sender: ChannelSender<'_>)
        ensures
            sender@ == old(self)@,
            final(self)@ == final(sender.inner)@,
    {
        ChannelSender { inner: &mut self.inner }
    }

    /// The receiving end. The mailbox is the handle's for as long as it lives.
    pub fn receiver(&mut self) -> (receiver: ChannelReceiver<'_>)
        ensures
            receiver@ == old(self)@,
            final(self)@ == final(receiver.inner)@,
    {
        ChannelReceiver { inner: &mut self.inner }
    }
}

/// The sending end of a mailbox.
pub struct ChannelSender<'a> {
    pub inner: &'a mut ChannelInner,
}

impl<'a> View for ChannelSender<'a> {
    type V = Mailbox;

    open spec fn view(&self) -> Mailbox {
        (*self.inner)@
    }
}

impl<'a> ChannelSender<'a> {
    /// One step of a suspending send; see [`ChannelInner::poll_enqueue`].
    pub fn poll_enqueue(&mut self, waker: &Waker, element: &mut Option<u32>) -> (poll: Poll<()>)
        ensures
            (poll is Ready) == old(self)@.poll_send_ready(*old(element)),
            final(self)@ == old(self)@.after_poll_send(*old(element)),
            *final(element) == old(self)@.kept_by_poll_send(*old(element)),
            *final(final(self).inner) == *final(old(self).inner),
    {
        self.inner.poll_enqueue(waker, element)
    }

    /// Sends without suspending, with interrupts masked: the message goes to
    /// the back and the receiver is woken, or a full mailbox refuses it.
    pub fn try_send(&mut self, value: u32) -> (outcome: Result<(), ChannelError>)
        ensures
            outcome == old(self)@.try_send_result(),
            final(self)@ == old(self)@.after_try_send(value),
            *final(final(self).inner) == *final(old(self).inner),
    {
        masked(ChannelInner::enqueue, self.inner, value)
    }

    /// A pending send of `value`, to be polled until it is ready.
    pub fn send(&mut self, value: u32) -> (pending: ChannelSend<'_>)
        ensures
            pending@ == old(self)@,
            pending.element == Some(value),
            final(self)@ == final(pending.inner)@,
            *final(final(self).inner) == *final(old(self).inner),
    {
        ChannelSend { inner: &mut *self.inner, element: Some(value) }
    }
}

/// A send that waits for room.
pub struct ChannelSend<'m> {
    pub inner: &'m mut ChannelInner,
    pub element: Option<u32>,
}

impl<'m> View for ChannelSend<'m> {
    type V = Mailbox;

    open spec fn view(&self) -> Mailbox {
        (*self.inner)@
    }
}

impl<'m> ChannelSend<'m> {
    /// Polls the send once. It is ready once the message has been handed
    /// over; polled again after that, it is ready and does nothing.
    pub fn poll(&mut self, waker: &Waker) -> (poll: Poll<()>)
        ensures
            (poll is Ready) == old(self)@.poll_send_ready(old(self).element),
            final(self)@ == old(self)@.after_poll_send(old(self).element),
            final(self).element == old(self)@.kept_by_poll_send(old(self).element),
            *final(final(self).inner) == *final(old(self).inner),
    {
        self.inner.poll_enqueue(waker, &mut self.element)
    }
}

/// The receiving end of a mailbox.
pub struct ChannelReceiver<'a> {
    pub inner: &'a mut ChannelInner,
}

impl<'a> View for ChannelReceiver<'a> {
    type V = Mailbox;

    open spec fn view(&self) -> Mailbox {
        (*self.inner)@
    }
}

impl<'a> ChannelReceiver<'a> {
    /// One step of a suspending receive; see [`ChannelInner::poll_dequeue`].
    pub fn poll_dequeue(&mut self, waker: &Waker) -> (poll: Poll<u32>)
        ensures
            poll == old(self)@.poll_receive_result(),
            final(self)@ == old(self)@.after_poll_receive(),
            *final(final(self).inner) == *final(old(self).inner),
    {
        self.inner.poll_dequeue(waker)
    }

    /// A pending receive, to be polled until it is ready.
    pub fn receive(&mut self) -> (pending: ChannelReceive<'_>)
        ensures
            pending@ == old(self)@,
            final(self)@ == final(pending.inner)@,
            *final(final(self).inner) == *final(old(self).inner),
    {
        ChannelReceive { inner: &mut *self.inner }
    }

    /// Receives without suspending, with interrupts masked: the oldest
    /// message, with the sender woken for the place that has come free, or
    /// `ChannelEmpty` when nothing waits.
    pub fn try_receive(&mut self) -> (outcome: Result<u32, ChannelError>)
        ensures
            outcome == old(self)@.try_receive_result(),
            final(self)@ == old(self)@.after_try_receive(),
            *final(final(self).inner) == *final(old(self).inner),
    {
        masked(ChannelInner::dequeue, self.inner, None)
    }
}

/// A receive that waits for a message.
pub struct ChannelReceive<'m> {
    pub inner: &'m mut ChannelInner,
}

impl<'m> View for ChannelReceive<'m> {
    type V = Mailbox;

    open spec fn view(&self) -> Mailbox {
        (*self.inner)@
    }
}

impl<'m> ChannelReceive<'m> {
    /// Polls the receive once.
    pub fn poll(&mut self, waker: &Waker) -> (poll: Poll<u32>)
        ensures
            poll == old(self)@.poll_receive_result(),
            final(self)@ == old(self)@.after_poll_receive(),
            *final(final(self).inner) == *final(old(self).inner),
    {
        self.inner.poll_dequeue(waker)
    }
}

} // verus!
