//! A small actor kernel for interrupt-driven devices.
//!
//! * [`channel`]: the bounded mailbox between one producer and one consumer.
//! * [`token`]: resumption tokens, and the slot that holds one of them.
//! * [`handler`]: what a handler gives back, at once or deferred.
//! * [`actor`]: how an actor takes its messages, one at a time.
//! * [`deadline`] and [`timer`]: many countdowns behind one hardware alarm.
//! * [`scheduler`] and [`address`]: the messages by which actors ask for
//!   each other's services.
//! * [`blinker`], [`led`], [`uart`], [`bus`], [`memory`]: actors built on
//!   the kernel.
//! * [`testutil`]: stand-ins for trying all of this out on a host.

pub mod time;
mod critical;
pub mod token;
pub mod address;
pub mod channel;
pub mod scheduler;
pub mod deadline;
pub mod handler;
pub mod actor;
pub mod timer;
pub mod testutil;
pub mod blinker;
pub mod led;
pub mod bus;
pub mod memory;
pub mod uart;
