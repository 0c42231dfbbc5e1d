//! The rules of a UART that moves its bytes by DMA: when a transfer may
//! start, when it is tried again, and what becomes of a buffer once the
//! peripheral is done with it. The peripheral and the byte queues are worked
//! by whoever runs these actors; here is what they are told to do.

use vstd::prelude::*;
use crate::address::{Address, Envelope};
use crate::handler::{Completion, Nothing, RequestHandler, Response};
use crate::scheduler::Schedule;
use crate::time::Milliseconds;

verus! {

/// How long a read may take before it is cancelled, in milliseconds.
pub const READ_TIMEOUT: u32 = 100;

/// How many bytes a read asks for.
pub const READ_SIZE: usize = 255;

/// How long to wait before trying again when a queue had nothing to give, or
/// when the peripheral refused a read, in milliseconds.
pub const RETRY_SOON: u32 = 10;

/// How long to wait before trying again after an error, in milliseconds.
pub const RETRY_LATER: u32 = 1000;

/// What the interrupt actor is asked to start.
#[derive(Clone, Copy, Debug, PartialEq, Eq, Structural)]
pub enum DmaRequest {
    TxStart,
    RxStart,
}

/// The notice that a read has taken too long.
#[derive(Clone, Copy, Debug, PartialEq, Eq, Structural)]
pub struct RxTimeout;

/// The order to cancel the read that is under way.
#[derive(Clone, Copy, Debug, PartialEq, Eq, Structural)]
pub struct CancelRead;

/// Why a request to the UART was turned down.
#[derive(Clone, Copy, Debug, PartialEq, Eq, Structural)]
pub enum Error {
    TxInProgress,
    RxInProgress,
}

/// A transfer that a client of the UART asks for.
#[derive(Clone, Copy, Debug, PartialEq, Eq, Structural)]
pub enum UartRequest {
    Read,
    Write,
}

/// Why a byte queue gave no buffer.
#[derive(Clone, Copy, Debug, PartialEq, Eq, Structural)]
pub enum QueueError {
    BufferEmpty,
    BufferFull,
    Other,
}

/// What came of getting a buffer from a queue and handing it to the peripheral.
#[derive(Clone, Copy, Debug, PartialEq, Eq, Structural)]
pub enum Prepared {
    /// The peripheral has taken a buffer of this many bytes.
    Ready(usize),
    /// The queue gave a buffer and the peripheral refused it.
    Refused,
    /// The queue gave no buffer.
    Queue(QueueError),
}

/// Which directions of the UART a client is using.
pub struct ActorState {
    tx_busy: bool,
    rx_busy: bool,
}

impl ActorState {
    /// Whether a write is under way.
    pub closed spec fn tx_busy(&self) -> bool {
        self.tx_busy
    }

    /// Whether a read is under way.
    pub closed spec fn rx_busy(&self) -> bool {
        self.rx_busy
    }

    /// Neither direction is in use.
    pub fn new() -> (state: ActorState)
        ensures
            !state.tx_busy(),
            !state.rx_busy(),
    {
        ActorState { tx_busy: false, rx_busy: false }
    }

    /// Claims the sending direction; tells whether it was free.
    pub fn try_tx_busy(&mut self) -> (claimed: bool)
        ensures
            claimed == !old(self).tx_busy(),
            final(self).tx_busy(),
            final(self).rx_busy() == old(self).rx_busy(),
    {
        let claimed = !self.tx_busy;
        self.tx_busy = true;
        claimed
    }

    /// Claims the receiving direction; tells whether it was free.
    pub fn try_rx_busy(&mut self) -> (claimed: bool)
        ensures
            claimed == !old(self).rx_busy(),
            final(self).rx_busy(),
            final(self).tx_busy() == old(self).tx_busy(),
    {
        let claimed = !self.rx_busy;
        self.rx_busy = true;
        claimed
    }

    /// Gives the sending direction back.
    pub fn reset_tx_busy(&mut self)
        ensures
            !final(self).tx_busy(),
            final(self).rx_busy() == old(self).rx_busy(),
    {
        self.tx_busy = false;
    }

    /// Gives the receiving direction back.
    pub fn reset_rx_busy(&mut self)
        ensures
            !final(self).rx_busy(),
            final(self).tx_busy() == old(self).tx_busy(),
    {
        self.rx_busy = false;
    }
}

/// The actor that clients of the UART talk to.
pub struct UartActor {
    me: Option<Address>,
    scheduler: Option<Address>,
}

/// What the client actor answers with: the transfer that the client is to
/// drive, or the reason why there is none.
pub type UartResponse = Response<UartActor, Result<usize, Error>, Nothing, UartRequest>;

impl UartActor {
    /// The actor's own address, once mounted.
    pub closed spec fn me(&self) -> Option<Address> {
        self.me
    }

    /// The scheduler's address, once mounted.
    pub closed spec fn scheduler(&self) -> Option<Address> {
        self.scheduler
    }

    /// An actor that is not mounted yet.
    pub fn new() -> (actor: UartActor)
        ensures
            actor.me() is None,
            actor.scheduler() is None,
    {
        UartActor { me: None, scheduler: None }
    }

    /// Tells the actor its own address and the scheduler's.
    pub fn on_mount(&mut self, me: Address, scheduler: Address)
        ensures
            final(self).me() == Some(me),
            final(self).scheduler() == Some(scheduler),
    {
        self.me = Some(me);
        self.scheduler = Some(scheduler);
    }

    /// Answers a client: a direction that is free is claimed and the client
    /// is left to drive the transfer; one that is in use is refused.
    pub fn on_request(self, shared: &mut ActorState, request: UartRequest) -> (response:
        UartResponse)
        ensures
            match request {
                UartRequest::Read => {
                    &&& final(shared).rx_busy()
                    &&& final(shared).tx_busy() == old(shared).tx_busy()
                    &&& response == if old(shared).rx_busy() {
                        UartResponse::Immediate(self, Err(Error::RxInProgress))
                    } else {
                        UartResponse::ImmediateFuture(self, UartRequest::Read)
                    }
                },
                UartRequest::Write => {
                    &&& final(shared).tx_busy()
                    &&& final(shared).rx_busy() == old(shared).rx_busy()
                    &&& response == if old(shared).tx_busy() {
                        UartResponse::Immediate(self, Err(Error::TxInProgress))
                    } else {
                        UartResponse::ImmediateFuture(self, UartRequest::Write)
                    }
                },
            },
    {
        match request {
            UartRequest::Read => {
                if shared.try_rx_busy() {
                    Response::immediate_future(self, UartRequest::Read)
                } else {
                    Response::immediate(self, Err(Error::RxInProgress))
                }
            },
            UartRequest::Write => {
                if shared.try_tx_busy() {
                    Response::immediate_future(self, UartRequest::Write)
                } else {
                    Response::immediate(self, Err(Error::TxInProgress))
                }
            },
        }
    }
}

/// The actor that cancels a read when its time is up.
pub struct UartController {
    mounted: bool,
}

/// What the controller answers with: nothing, and at once.
pub type ControllerResponse = Response<UartController, Nothing, Nothing, Nothing>;

impl UartController {
    /// Whether the controller has been given its peripheral.
    pub closed spec fn mounted(&self) -> bool {
        self.mounted
    }

    /// A controller that is not mounted yet.
    pub fn new() -> (controller: UartController)
        ensures
            !controller.mounted(),
    {
        UartController { mounted: false }
    }

    /// Records that the controller has been given its peripheral.
    pub fn on_mount(&mut self)
        ensures
            final(self).mounted(),
    {
        self.mounted = true;
    }
}

impl RequestHandler<RxTimeout> for UartController {
    type Response = Nothing;

    type Deferred = Nothing;

    type FollowUp = Nothing;

    type Posts = Option<CancelRead>;

    open spec fn receptive(&self) -> bool {
        true
    }

    /// Answers at once and, if mounted, orders the read to be cancelled.
    fn on_request(self, message: RxTimeout) -> (handled: (ControllerResponse, Option<CancelRead>))
        ensures
            handled.0 == ControllerResponse::Immediate(self, ()),
            handled.1 == if self.mounted() {
                Some(CancelRead)
            } else {
                None
            },
    {
        let order = if self.mounted {
            Some(CancelRead)
        } else {
            None
        };
        (Response::immediate(self, ()), order)
    }
}

/// What is to be done once a write was prepared.
#[derive(Debug, PartialEq, Eq)]
pub enum WriteStep {
    /// The peripheral holds the buffer: start the write.
    Start,
    /// Post this to the scheduler, to be asked again later.
    Retry(Envelope<Schedule<DmaRequest>>),
    /// Nothing can be done: the actor is not mounted.
    Stalled,
}

/// What is to be done once a read was prepared.
#[derive(Debug, PartialEq, Eq)]
pub enum ReadStep {
    /// The peripheral holds the buffer: start the read and, if there is a
    /// time limit, post this to the scheduler.
    Start(Option<Envelope<Schedule<RxTimeout>>>),
    /// Post this to the scheduler, to be asked again later.
    Retry(Envelope<Schedule<DmaRequest>>),
    /// Nothing can be done: the actor is not mounted.
    Stalled,
}

/// What the peripheral reports in its interrupt.
#[derive(Clone, Copy, Debug, PartialEq, Eq, Structural)]
pub struct DmaInterrupt {
    /// A write has ended.
    pub tx_done: bool,
    /// A read has ended.
    pub rx_done: bool,
    /// The write that ended has sent its bytes.
    pub write_ok: bool,
    /// The number of bytes that the read that ended has brought.
    pub read_len: usize,
}

/// What is to be done with the buffers after an interrupt, and what to start next.
#[derive(Clone, Copy, Debug, PartialEq, Eq, Structural)]
pub struct Settled {
    /// The number of bytes of the sent buffer to give back to its queue.
    pub release: Option<usize>,
    /// The number of bytes of the filled buffer to hand to its queue.
    pub commit: Option<usize>,
    /// Whether to prepare the next write.
    pub restart_write: bool,
    /// Whether to prepare the next read.
    pub restart_read: bool,
}

/// The actor behind the peripheral's interrupt.
pub struct UartInterrupt {
    scheduler: Option<Address>,
    me: Option<Address>,
    controller: Option<Address>,
    tx_consumer_grant: Option<usize>,
    rx_producer_grant: Option<usize>,
}

/// The interrupt actor as its contracts see it.
pub ghost struct Dma {
    pub scheduler: Option<Address>,
    pub me: Option<Address>,
    pub controller: Option<Address>,
    /// The length of the buffer that a write holds, while one is under way.
    pub tx_grant: Option<usize>,
    /// The length of the buffer that a read holds, while one is under way.
    pub rx_grant: Option<usize>,
}

/// How long to wait before a write is tried again.
pub open spec fn write_backoff(prepared: Prepared) -> Milliseconds {
    match prepared {
        Prepared::Queue(QueueError::BufferEmpty) => Milliseconds(RETRY_SOON),
        _ => Milliseconds(RETRY_LATER),
    }
}

/// How long to wait before a read is tried again.
pub open spec fn read_backoff(prepared: Prepared) -> Milliseconds {
    match prepared {
        Prepared::Queue(QueueError::BufferEmpty) => Milliseconds(RETRY_LATER),
        Prepared::Queue(QueueError::Other) => Milliseconds(RETRY_LATER),
        _ => Milliseconds(RETRY_SOON),
    }
}

impl Dma {
    /// The request to be asked for `request` again after `delay`.
    pub open spec fn retry(self, delay: Milliseconds, request: DmaRequest) -> Option<
        Envelope<Schedule<DmaRequest>>,
    > {
        match (self.scheduler, self.me) {
            (Some(scheduler), Some(me)) => Some(
                Envelope {
                    to: scheduler,
                    message: Schedule { delay, event: Some(request), address: me },
                },
            ),
            _ => None,
        }
    }

    /// The request to have the read cancelled after `timeout`.
    pub open spec fn watchdog(self, timeout: Milliseconds) -> Option<
        Envelope<Schedule<RxTimeout>>,
    > {
        match (self.scheduler, self.controller) {
            (Some(scheduler), Some(controller)) => if timeout.0 > 0 {
                Some(
                    Envelope {
                        to: scheduler,
                        message: Schedule {
                            delay: timeout,
                            event: Some(RxTimeout),
                            address: controller,
                        },
                    },
                )
            } else {
                None
            },
            _ => None,
        }
    }

    /// What follows a prepared write.
    pub open spec fn write_step(self, prepared: Prepared) -> WriteStep {
        match prepared {
            Prepared::Ready(_) => WriteStep::Start,
            _ => match self.retry(write_backoff(prepared), DmaRequest::TxStart) {
                Some(envelope) => WriteStep::Retry(envelope),
                None => WriteStep::Stalled,
            },
        }
    }

    /// The actor after a prepared write.
    pub open spec fn after_write(self, prepared: Prepared) -> Dma {
        match prepared {
            Prepared::Ready(len) => Dma { tx_grant: Some(len), ..self },
            _ => self,
        }
    }

    /// What follows a prepared read with the given time limit.
    pub open spec fn read_step(self, prepared: Prepared, timeout: Milliseconds) -> ReadStep {
        match prepared {
            Prepared::Ready(_) => ReadStep::Start(self.watchdog(timeout)),
            _ => match self.retry(read_backoff(prepared), DmaRequest::RxStart) {
                Some(envelope) => ReadStep::Retry(envelope),
                None => ReadStep::Stalled,
            },
        }
    }

    /// The actor after a prepared read.
    pub open spec fn after_read(self, prepared: Prepared) -> Dma {
        match prepared {
            Prepared::Ready(len) => Dma { rx_grant: Some(len), ..self },
            _ => self,
        }
    }

    /// What an interrupt settles.
    pub open spec fn settled(self, interrupt: DmaInterrupt) -> Settled {
        Settled {
            release: if interrupt.tx_done {
                match self.tx_grant {
                    Some(len) => Some(
                        if interrupt.write_ok {
                            len
                        } else {
                            0
                        },
                    ),
                    None => None,
                }
            } else {
                None
            },
            commit: if interrupt.rx_done && self.rx_grant is Some && interrupt.read_len > 0 {
                Some(interrupt.read_len)
            } else {
                None
            },
            restart_write: interrupt.tx_done,
            restart_read: interrupt.rx_done,
        }
    }

    /// The actor after an interrupt: a transfer that has ended holds no buffer.
    pub open spec fn after_interrupt(self, interrupt: DmaInterrupt) -> Dma {
        Dma {
            tx_grant: if interrupt.tx_done {
                None
            } else {
                self.tx_grant
            },
            rx_grant: if interrupt.rx_done {
                None
            } else {
                self.rx_grant
            },
            ..self
        }
    }
}

impl View for UartInterrupt {
    type V = Dma;

    closed spec fn view(&self) -> Dma {
        Dma {
            scheduler: self.scheduler,
            me: self.me,
            controller: self.controller,
            tx_grant: self.tx_consumer_grant,
            rx_grant: self.rx_producer_grant,
        }
    }
}

/// What the interrupt actor answers with: nothing, and at once.
pub type InterruptResponse = Response<UartInterrupt, Nothing, Nothing, Nothing>;

/// How the interrupt actor ends its start: at once.
pub type InterruptCompletion = Completion<UartInterrupt, Nothing>;

/// What is to be done when the interrupt actor starts.
#[derive(Clone, Copy, Debug, PartialEq, Eq, Structural)]
pub struct Startup {
    /// The peripheral's interrupt is to be enabled.
    pub enable_interrupt: bool,
    /// The transfer to prepare first.
    pub first: DmaRequest,
    /// The transfer to prepare after it.
    pub second: DmaRequest,
}

impl UartInterrupt {
    /// An actor that is not mounted and holds no buffer.
    pub fn new() -> (actor: UartInterrupt)
        ensures
            actor@ == (Dma {
                scheduler: None,
                me: None,
                controller: None,
                tx_grant: None,
                rx_grant: None,
            }),
    {
        UartInterrupt {
            scheduler: None,
            me: None,
            controller: None,
            tx_consumer_grant: None,
            rx_producer_grant: None,
        }
    }

    /// Tells the actor its own address, the controller's and the scheduler's.
    pub fn on_mount(&mut self, me: Address, controller: Address, scheduler: Address)
        ensures
            final(self)@ == (Dma {
                scheduler: Some(scheduler),
                me: Some(me),
                controller: Some(controller),
                ..old(self)@
            }),
    {
        self.controller = Some(controller);
        self.scheduler = Some(scheduler);
        self.me = Some(me);
    }

    /// Starts the actor: the peripheral's interrupt is to be enabled, then a
    /// read prepared, then a write.
    pub fn on_start(self) -> (started: (InterruptCompletion, Startup))
        ensures
            started.0 == InterruptCompletion::Immediate(self),
            started.1 == (Startup {
                enable_interrupt: true,
                first: DmaRequest::RxStart,
                second: DmaRequest::TxStart,
            }),
    {
        (
            Completion::immediate(self),
            Startup {
                enable_interrupt: true,
                first: DmaRequest::RxStart,
                second: DmaRequest::TxStart,
            },
        )
    }

    /// The request to be asked for `request` again after `delay`.
    fn retry(&self, delay: Milliseconds, request: DmaRequest) -> (envelope: Option<
        Envelope<Schedule<DmaRequest>>,
    >)
        ensures
            envelope == self@.retry(delay, request),
    {
        match (self.scheduler, self.me) {
            (Some(scheduler), Some(me)) => Some(scheduler.schedule(delay, request, me)),
            _ => None,
        }
    }

    /// Decides what follows a prepared write: with the buffer in the
    /// peripheral's hands the write starts; with an empty queue it is tried
    /// again soon, and after an error later.
    pub fn start_write(&mut self, prepared: Prepared) -> (step: WriteStep)
        ensures
            step == old(self)@.write_step(prepared),
            final(self)@ == old(self)@.after_write(prepared),
    {
        match prepared {
            Prepared::Ready(len) => {
                self.tx_consumer_grant = Some(len);
                WriteStep::Start
            },
            Prepared::Refused => self.retry_write(Milliseconds(RETRY_LATER)),
            Prepared::Queue(QueueError::BufferEmpty) => self.retry_write(Milliseconds(RETRY_SOON)),
            Prepared::Queue(_) => self.retry_write(Milliseconds(RETRY_LATER)),
        }
    }

    /// The step that asks for the write again after `delay`.
    fn retry_write(&self, delay: Milliseconds) -> (step: WriteStep)
        ensures
            step == match self@.retry(delay, DmaRequest::TxStart) {
                Some(envelope) => WriteStep::Retry(envelope),
                None => WriteStep::Stalled,
            },
    {
        match self.retry(delay, DmaRequest::TxStart) {
            Some(envelope) => WriteStep::Retry(envelope),
            None => WriteStep::Stalled,
        }
    }

    /// The step that asks for the read again after `delay`.
    fn retry_read(&self, delay: Milliseconds) -> (step: ReadStep)
        ensures
            step == match self@.retry(delay, DmaRequest::RxStart) {
                Some(envelope) => ReadStep::Retry(envelope),
                None => ReadStep::Stalled,
            },
    {
        match self.retry(delay, DmaRequest::RxStart) {
            Some(envelope) => ReadStep::Retry(envelope),
            None => ReadStep::Stalled,
        }
    }

    /// Decides what follows a prepared read: with the buffer in the
    /// peripheral's hands the read starts, watched by the controller if
    /// `timeout` is above zero; when the peripheral refused or the queue was
    /// full it is tried again soon, and after another error later.
    pub fn start_read(&mut self, prepared: Prepared, timeout: Milliseconds) -> (step: ReadStep)
        ensures
            step == old(self)@.read_step(prepared, timeout),
            final(self)@ == old(self)@.after_read(prepared),
    {
        match prepared {
            Prepared::Ready(len) => {
                self.rx_producer_grant = Some(len);
                let watchdog = match (self.scheduler, self.controller) {
                    (Some(scheduler), Some(controller)) => if timeout.0 > 0 {
                        Some(scheduler.schedule(timeout, RxTimeout, controller))
                    } else {
                        None
                    },
                    _ => None,
                };
                ReadStep::Start(watchdog)
            },
            Prepared::Refused => self.retry_read(Milliseconds(RETRY_SOON)),
            Prepared::Queue(QueueError::BufferFull) => self.retry_read(Milliseconds(RETRY_SOON)),
            Prepared::Queue(_) => self.retry_read(Milliseconds(RETRY_LATER)),
        }
    }

    /// Settles an interrupt: the buffer of a write that has ended goes back
    /// to its queue, whole if the write went well and untouched if not; the
    /// buffer of a read that has ended is handed on with the bytes it
    /// brought, if it brought any; and each direction that has ended is to
    /// be prepared again.
    pub fn on_interrupt(&mut self, interrupt: DmaInterrupt) -> (settled: Settled)
        ensures
            settled == old(self)@.settled(interrupt),
            final(self)@ == old(self)@.after_interrupt(interrupt),
    {
        let mut release: Option<usize> = None;
        let mut commit: Option<usize> = None;
        if interrupt.tx_done {
            match self.tx_consumer_grant.take() {
                Some(len) => {
                    if interrupt.write_ok {
                        release = Some(len);
                    } else {
                        release = Some(0);
                    }
                },
                None => {},
            }
        }
        if interrupt.rx_done {
            match self.rx_producer_grant.take() {
                Some(_) => {
                    if interrupt.read_len > 0 {
                        commit = Some(interrupt.read_len);
                    }
                },
                None => {},
            }
        }
        Settled {
            release,
            commit,
            restart_write: interrupt.tx_done,
            restart_read: interrupt.rx_done,
        }
    }
}

impl RequestHandler<DmaRequest> for UartInterrupt {
    type Response = Nothing;

    type Deferred = Nothing;

    type FollowUp = Nothing;

    type Posts = DmaRequest;

    open spec fn receptive(&self) -> bool {
        true
    }

    /// Answers at once and names the transfer that is to be prepared.
    fn on_request(self, message: DmaRequest) -> (handled: (InterruptResponse, DmaRequest))
        ensures
            handled.0 == InterruptResponse::Immediate(self, ()),
            handled.1 == message,
    {
        (Response::immediate(self, ()), message)
    }
}

/// The UART as one piece: its three actors and the state they share.
pub struct DmaUart {
    pub actor: UartActor,
    pub controller: UartController,
    pub interrupt: UartInterrupt,
    pub shared: ActorState,
}

impl DmaUart {
    /// A UART none of whose actors is mounted.
    pub fn new() -> (uart: DmaUart)
        ensures
            uart.actor.me() is None,
            uart.actor.scheduler() is None,
            !uart.controller.mounted(),
            uart.interrupt@ == (Dma {
                scheduler: None,
                me: None,
                controller: None,
                tx_grant: None,
                rx_grant: None,
            }),
            !uart.shared.tx_busy(),
            !uart.shared.rx_busy(),
    {
        DmaUart {
            actor: UartActor::new(),
            controller: UartController::new(),
            interrupt: UartInterrupt::new(),
            shared: ActorState::new(),
        }
    }

    /// Mounts the three actors at the addresses given and hands back the
    /// address at which clients reach the UART.
    pub fn mount(&mut self, actor: Address, controller: Address, interrupt: Address, scheduler: Address)
        -> (primary: Address)
        ensures
            primary == actor,
            final(self).actor.me() == Some(actor),
            final(self).actor.scheduler() == Some(scheduler),
            final(self).controller.mounted(),
            final(self).interrupt@ == (Dma {
                scheduler: Some(scheduler),
                me: Some(interrupt),
                controller: Some(controller),
                ..old(self).interrupt@
            }),
            final(self).shared == old(self).shared,
    {
        self.controller.on_mount();
        self.actor.on_mount(actor, scheduler);
        self.interrupt.on_mount(interrupt, controller, scheduler);
        actor
    }
}

} // verus!
