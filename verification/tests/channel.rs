use drogue_device::channel::{Channel, ChannelError, Poll, CAPACITY};
use std::sync::atomic::{AtomicUsize, Ordering};
use std::sync::Arc;
use std::task::{Wake, Waker};

struct Counter {
    wakes: AtomicUsize,
}

impl Wake for Counter {
    fn wake(self: Arc<Self>) {
        self.wakes.fetch_add(1, Ordering::SeqCst);
    }
}

fn counting_waker() -> (Arc<Counter>, Waker) {
    let counter = Arc::new(Counter { wakes: AtomicUsize::new(0) });
    (counter.clone(), Waker::from(counter))
}

#[test]
fn receives_in_send_order() {
    let mut channel = Channel::new();
    for i in 0..CAPACITY as u32 {
        assert_eq!(channel.sender().try_send(i * 3), Ok(()));
    }
    for i in 0..CAPACITY as u32 {
        assert_eq!(channel.receiver().try_receive(), Ok(i * 3));
    }
    assert_eq!(channel.receiver().try_receive(), Err(ChannelError::ChannelEmpty));
}

#[test]
fn full_mailbox_refuses_try_send() {
    let mut channel = Channel::new();
    for i in 0..CAPACITY as u32 {
        assert_eq!(channel.sender().try_send(i), Ok(()));
    }
    assert_eq!(channel.sender().try_send(99), Err(ChannelError::ChannelFull));
    assert_eq!(channel.receiver().try_receive(), Ok(0));
    assert_eq!(channel.sender().try_send(99), Ok(()));
}

#[test]
fn suspended_sender_completes_once_a_slot_frees() {
    let mut channel = Channel::new();
    for i in 0..CAPACITY as u32 {
        assert_eq!(channel.sender().try_send(i), Ok(()));
    }
    let (sender_wakes, sender_waker) = counting_waker();
    let (_receiver_wakes, receiver_waker) = counting_waker();
    let mut element = Some(77u32);
    assert_eq!(channel.sender().poll_enqueue(&sender_waker, &mut element), Poll::Pending);
    assert_eq!(element, Some(77));
    assert_eq!(sender_wakes.wakes.load(Ordering::SeqCst), 0);
    assert_eq!(channel.receiver().receive().poll(&receiver_waker), Poll::Ready(0));
    assert_eq!(sender_wakes.wakes.load(Ordering::SeqCst), 1);
    assert_eq!(channel.sender().poll_enqueue(&sender_waker, &mut element), Poll::Ready(()));
    assert_eq!(element, None);
    assert_eq!(channel.sender().poll_enqueue(&sender_waker, &mut element), Poll::Ready(()));
    assert_eq!(channel.receiver().receive().poll(&receiver_waker), Poll::Ready(1));
    assert_eq!(sender_wakes.wakes.load(Ordering::SeqCst), 1);
}

#[test]
fn pending_send_is_polled_to_its_end() {
    let mut channel = Channel::new();
    for i in 0..CAPACITY as u32 {
        assert_eq!(channel.sender().try_send(i), Ok(()));
    }
    let (sender_wakes, sender_waker) = counting_waker();
    let (receiver_wakes, receiver_waker) = counting_waker();
    {
        let mut sender = channel.sender();
        let mut pending = sender.send(500);
        assert_eq!(pending.poll(&sender_waker), Poll::Pending);
        assert_eq!(pending.poll(&sender_waker), Poll::Pending);
        assert_eq!(pending.element, Some(500));
    }
    assert_eq!(channel.receiver().try_receive(), Ok(0));
    assert_eq!(sender_wakes.wakes.load(Ordering::SeqCst), 1);
    {
        let mut sender = channel.sender();
        let mut pending = sender.send(500);
        assert_eq!(pending.poll(&sender_waker), Poll::Ready(()));
        assert_eq!(pending.element, None);
        assert_eq!(pending.poll(&sender_waker), Poll::Ready(()));
    }
    for i in 1..CAPACITY as u32 {
        assert_eq!(channel.receiver().poll_dequeue(&receiver_waker), Poll::Ready(i));
    }
    assert_eq!(channel.receiver().poll_dequeue(&receiver_waker), Poll::Ready(500));
    assert_eq!(channel.receiver().poll_dequeue(&receiver_waker), Poll::Pending);
    assert_eq!(receiver_wakes.wakes.load(Ordering::SeqCst), 0);
    assert_eq!(channel.sender().try_send(1), Ok(()));
    assert_eq!(channel.sender().try_send(2), Ok(()));
    assert_eq!(receiver_wakes.wakes.load(Ordering::SeqCst), 1);
    assert_eq!(sender_wakes.wakes.load(Ordering::SeqCst), 1);
}

#[test]
fn empty_mailbox_makes_receiver_wait() {
    let mut channel = Channel::new();
    let (wakes, waker) = counting_waker();
    assert_eq!(channel.receiver().try_receive(), Err(ChannelError::ChannelEmpty));
    assert_eq!(channel.receiver().receive().poll(&waker), Poll::Pending);
    assert_eq!(wakes.wakes.load(Ordering::SeqCst), 0);
    let mut element = Some(9u32);
    assert_eq!(channel.sender().poll_enqueue(&waker, &mut element), Poll::Ready(()));
    assert_eq!(wakes.wakes.load(Ordering::SeqCst), 1);
    assert_eq!(channel.receiver().receive().poll(&waker), Poll::Ready(9));
}

#[test]
fn queue_wraps_around_its_ring() {
    let mut channel = Channel::new();
    let mut next_in = 0u32;
    let mut next_out = 0u32;
    for round in 0..10 {
        for _ in 0..(round % 7 + 1) {
            if channel.sender().try_send(next_in).is_ok() {
                next_in += 1;
            }
        }
        for _ in 0..(round % 5 + 1) {
            if let Ok(message) = channel.receiver().try_receive() {
                assert_eq!(message, next_out);
                next_out += 1;
            }
        }
    }
    while let Ok(message) = channel.receiver().try_receive() {
        assert_eq!(message, next_out);
        next_out += 1;
    }
    assert_eq!(next_in, next_out);
    assert!(next_in > CAPACITY as u32);
}

#[test]
fn try_receive_wakes_a_suspended_sender_once() {
    let mut channel = Channel::new();
    for i in 0..CAPACITY as u32 {
        assert_eq!(channel.sender().try_send(i), Ok(()));
    }
    let (wakes, waker) = counting_waker();
    let mut element = Some(40u32);
    assert_eq!(channel.sender().poll_enqueue(&waker, &mut element), Poll::Pending);
    assert_eq!(channel.receiver().try_receive(), Ok(0));
    assert_eq!(wakes.wakes.load(Ordering::SeqCst), 1);
    assert_eq!(channel.receiver().try_receive(), Ok(1));
    assert_eq!(wakes.wakes.load(Ordering::SeqCst), 1);
    assert_eq!(channel.sender().poll_enqueue(&waker, &mut element), Poll::Ready(()));
    assert_eq!(element, None);
}

#[test]
fn try_receive_on_an_empty_mailbox_leaves_no_token() {
    let mut channel = Channel::new();
    let (wakes, waker) = counting_waker();
    assert_eq!(channel.receiver().try_receive(), Err(ChannelError::ChannelEmpty));
    assert_eq!(channel.sender().try_send(3), Ok(()));
    assert_eq!(wakes.wakes.load(Ordering::SeqCst), 0);
    drop(waker);
}

#[test]
fn mailbox_of_two_refuses_the_third_message() {
    let mut channel = Channel::with_capacity(2);
    assert_eq!(channel.capacity(), 2);
    assert_eq!(channel.sender().try_send(1), Ok(()));
    assert_eq!(channel.sender().try_send(2), Ok(()));
    assert_eq!(channel.sender().try_send(3), Err(ChannelError::ChannelFull));
    assert_eq!(channel.receiver().try_receive(), Ok(1));
    assert_eq!(channel.receiver().try_receive(), Ok(2));
    assert_eq!(channel.receiver().try_receive(), Err(ChannelError::ChannelEmpty));
}

#[test]
fn mailbox_of_two_makes_a_third_sender_wait() {
    let mut channel = Channel::with_capacity(2);
    let (wakes, waker) = counting_waker();
    let mut first = Some(1u32);
    let mut second = Some(2u32);
    let mut third = Some(3u32);
    assert_eq!(channel.sender().poll_enqueue(&waker, &mut first), Poll::Ready(()));
    assert_eq!(channel.sender().poll_enqueue(&waker, &mut second), Poll::Ready(()));
    assert_eq!(channel.sender().poll_enqueue(&waker, &mut third), Poll::Pending);
    assert_eq!(third, Some(3));
    assert_eq!(channel.receiver().try_receive(), Ok(1));
    assert_eq!(wakes.wakes.load(Ordering::SeqCst), 1);
    assert_eq!(channel.sender().poll_enqueue(&waker, &mut third), Poll::Ready(()));
    assert_eq!(channel.receiver().try_receive(), Ok(2));
    assert_eq!(channel.receiver().try_receive(), Ok(3));
}

#[test]
fn capacity_is_what_the_ring_can_hold_at_most() {
    assert_eq!(Channel::new().capacity(), CAPACITY);
    assert_eq!(Channel::with_capacity(100).capacity(), CAPACITY);
    assert_eq!(Channel::with_capacity(CAPACITY).capacity(), CAPACITY);
    let mut none = Channel::with_capacity(0);
    assert_eq!(none.capacity(), 0);
    assert_eq!(none.sender().try_send(1), Err(ChannelError::ChannelFull));
    assert_eq!(none.receiver().try_receive(), Err(ChannelError::ChannelEmpty));
    let mut full = Channel::with_capacity(100);
    for i in 0..CAPACITY as u32 {
        assert_eq!(full.sender().try_send(i), Ok(()));
    }
    assert_eq!(full.sender().try_send(99), Err(ChannelError::ChannelFull));
}
