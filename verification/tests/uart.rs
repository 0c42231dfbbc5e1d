use drogue_device::address::{Address, Envelope};
use drogue_device::handler::{RequestHandler, Response};
use drogue_device::scheduler::Schedule;
use drogue_device::time::Milliseconds;
use drogue_device::uart::{
    ActorState, CancelRead, DmaInterrupt, DmaRequest, DmaUart, Error, Prepared, QueueError,
    ReadStep, RxTimeout, Settled, UartActor, UartController, UartInterrupt, UartRequest,
    WriteStep, READ_SIZE, READ_TIMEOUT,
};

const ME: Address = Address { mailbox: 1 };
const CONTROLLER: Address = Address { mailbox: 2 };
const SCHEDULER: Address = Address { mailbox: 3 };

fn mounted() -> UartInterrupt {
    let mut actor = UartInterrupt::new();
    actor.on_mount(ME, CONTROLLER, SCHEDULER);
    actor
}

fn retry(ms: u32, request: DmaRequest) -> Envelope<Schedule<DmaRequest>> {
    Envelope {
        to: SCHEDULER,
        message: Schedule { delay: Milliseconds(ms), event: Some(request), address: ME },
    }
}

#[test]
fn write_backs_off_by_cause() {
    let mut actor = mounted();
    assert_eq!(actor.start_write(Prepared::Ready(12)), WriteStep::Start);
    assert_eq!(
        actor.start_write(Prepared::Queue(QueueError::BufferEmpty)),
        WriteStep::Retry(retry(10, DmaRequest::TxStart))
    );
    assert_eq!(
        actor.start_write(Prepared::Queue(QueueError::BufferFull)),
        WriteStep::Retry(retry(1000, DmaRequest::TxStart))
    );
    assert_eq!(
        actor.start_write(Prepared::Queue(QueueError::Other)),
        WriteStep::Retry(retry(1000, DmaRequest::TxStart))
    );
    assert_eq!(
        actor.start_write(Prepared::Refused),
        WriteStep::Retry(retry(1000, DmaRequest::TxStart))
    );
}

#[test]
fn read_backs_off_by_cause() {
    let mut actor = mounted();
    let timeout = Milliseconds(READ_TIMEOUT);
    assert_eq!(
        actor.start_read(Prepared::Ready(READ_SIZE), timeout),
        ReadStep::Start(Some(Envelope {
            to: SCHEDULER,
            message: Schedule {
                delay: Milliseconds(100),
                event: Some(RxTimeout),
                address: CONTROLLER
            },
        }))
    );
    assert_eq!(
        actor.start_read(Prepared::Ready(READ_SIZE), Milliseconds(0)),
        ReadStep::Start(None)
    );
    assert_eq!(
        actor.start_read(Prepared::Refused, timeout),
        ReadStep::Retry(retry(10, DmaRequest::RxStart))
    );
    assert_eq!(
        actor.start_read(Prepared::Queue(QueueError::BufferFull), timeout),
        ReadStep::Retry(retry(10, DmaRequest::RxStart))
    );
    assert_eq!(
        actor.start_read(Prepared::Queue(QueueError::BufferEmpty), timeout),
        ReadStep::Retry(retry(1000, DmaRequest::RxStart))
    );
    assert_eq!(
        actor.start_read(Prepared::Queue(QueueError::Other), timeout),
        ReadStep::Retry(retry(1000, DmaRequest::RxStart))
    );
}

#[test]
fn unmounted_interrupt_actor_stalls() {
    let mut actor = UartInterrupt::new();
    assert_eq!(actor.start_write(Prepared::Refused), WriteStep::Stalled);
    assert_eq!(actor.start_read(Prepared::Refused, Milliseconds(5)), ReadStep::Stalled);
    assert_eq!(actor.start_read(Prepared::Ready(4), Milliseconds(5)), ReadStep::Start(None));
    assert_eq!(actor.start_write(Prepared::Ready(4)), WriteStep::Start);
}

#[test]
fn interrupt_settles_buffers() {
    let mut actor = mounted();
    let quiet = DmaInterrupt { tx_done: false, rx_done: false, write_ok: true, read_len: 9 };
    assert_eq!(
        actor.on_interrupt(quiet),
        Settled { release: None, commit: None, restart_write: false, restart_read: false }
    );
    actor.start_write(Prepared::Ready(12));
    actor.start_read(Prepared::Ready(255), Milliseconds(100));
    assert_eq!(
        actor.on_interrupt(DmaInterrupt { tx_done: true, rx_done: false, write_ok: true, read_len: 0 }),
        Settled { release: Some(12), commit: None, restart_write: true, restart_read: false }
    );
    assert_eq!(
        actor.on_interrupt(DmaInterrupt { tx_done: true, rx_done: true, write_ok: true, read_len: 7 }),
        Settled { release: None, commit: Some(7), restart_write: true, restart_read: true }
    );
    actor.start_write(Prepared::Ready(3));
    actor.start_read(Prepared::Ready(255), Milliseconds(100));
    assert_eq!(
        actor.on_interrupt(DmaInterrupt { tx_done: true, rx_done: true, write_ok: false, read_len: 0 }),
        Settled { release: Some(0), commit: None, restart_write: true, restart_read: true }
    );
    assert_eq!(
        actor.on_interrupt(DmaInterrupt { tx_done: false, rx_done: true, write_ok: false, read_len: 5 }),
        Settled { release: None, commit: None, restart_write: false, restart_read: true }
    );
}

#[test]
fn busy_direction_is_refused() {
    let mut shared = ActorState::new();
    let actor = UartActor::new();
    let actor = match actor.on_request(&mut shared, UartRequest::Read) {
        Response::ImmediateFuture(actor, UartRequest::Read) => actor,
        _ => panic!("a free direction is granted"),
    };
    let actor = match actor.on_request(&mut shared, UartRequest::Read) {
        Response::Immediate(actor, Err(Error::RxInProgress)) => actor,
        _ => panic!("a busy direction is refused"),
    };
    let actor = match actor.on_request(&mut shared, UartRequest::Write) {
        Response::ImmediateFuture(actor, UartRequest::Write) => actor,
        _ => panic!("a free direction is granted"),
    };
    let actor = match actor.on_request(&mut shared, UartRequest::Write) {
        Response::Immediate(actor, Err(Error::TxInProgress)) => actor,
        _ => panic!("a busy direction is refused"),
    };
    shared.reset_rx_busy();
    assert!(shared.try_rx_busy());
    assert!(!shared.try_tx_busy());
    shared.reset_tx_busy();
    match actor.on_request(&mut shared, UartRequest::Write) {
        Response::ImmediateFuture(_, UartRequest::Write) => {}
        _ => panic!("a freed direction is granted"),
    }
}

#[test]
fn controller_cancels_read_on_timeout() {
    let controller = UartController::new();
    let (response, order) = controller.on_request(RxTimeout);
    assert_eq!(order, None);
    let mut controller = match response {
        Response::Immediate(controller, ()) => controller,
        _ => panic!("the controller answers at once"),
    };
    controller.on_mount();
    let (_, order) = controller.on_request(RxTimeout);
    assert_eq!(order, Some(CancelRead));
}

#[test]
fn interrupt_actor_names_the_transfer_to_prepare() {
    let (response, next) = mounted().on_request(DmaRequest::RxStart);
    assert_eq!(next, DmaRequest::RxStart);
    match response {
        Response::Immediate(actor, ()) => {
            let (_, next) = actor.on_request(DmaRequest::TxStart);
            assert_eq!(next, DmaRequest::TxStart);
        }
        _ => panic!("the interrupt actor answers at once"),
    }
}

#[test]
fn uart_mounts_its_actors() {
    let mut uart = DmaUart::new();
    assert_eq!(uart.interrupt.start_write(Prepared::Refused), WriteStep::Stalled);
    assert_eq!(uart.mount(Address::new(0), CONTROLLER, ME, SCHEDULER), Address::new(0));
    assert_eq!(
        uart.interrupt.start_write(Prepared::Refused),
        WriteStep::Retry(retry(1000, DmaRequest::TxStart))
    );
    let DmaUart { controller, .. } = uart;
    assert_eq!(controller.on_request(RxTimeout).1, Some(CancelRead));
}
