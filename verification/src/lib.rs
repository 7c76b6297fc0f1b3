//! Command orchestration for the in-system-programming protocol of the LPC55
//! family of microcontrollers.
//!
//! The crate decides which frames go over the link, in which order, and what
//! each answer of the device means. It performs no I/O itself: a driver
//! carries out each [`exchange::Action`] on the serial link and hands the
//! outcome back as an [`exchange::Event`].
//!
//! - [`isp`] names the commands, the responses and the keys of the protocol.
//! - [`command`] is a command as a value: tag, arguments, the
//!   acknowledgement that is due, and the data phase.
//! - [`cmd`] builds the command of each operation of the device.
//! - [`exchange`] takes a command through its exchanges, one event at a
//!   time.
//! - [`run`] states what holds of every exchange from its first frame to
//!   its result.
//! - [`error`] lists what can go wrong.

pub mod cmd;
pub mod command;
pub mod error;
pub mod exchange;
pub mod isp;
pub mod run;
