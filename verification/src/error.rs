//! What can end a command exchange before its result is in.

use vstd::prelude::*;
use crate::isp::ResponseCode;

verus! {

/// The four transport exchanges of a command, in the order in which they
/// take place. A command without a data phase ends after the second.
#[derive(Clone, Copy, Debug, PartialEq, Eq, Structural)]
pub enum Stage {
    /// The command frame is on its way to the device.
    Command,
    /// The device is due to acknowledge the command.
    CommandAck,
    /// The payload of the data phase is on its way, to or from the device.
    Data,
    /// The device is due to acknowledge the data phase.
    DataAck,
}

impl Stage {
    /// The place of the stage in the order of exchanges, from zero.
    pub open spec fn index(self) -> nat {
        match self {
            Stage::Command => 0,
            Stage::CommandAck => 1,
            Stage::Data => 2,
            Stage::DataAck => 3,
        }
    }

    /// The stage at place `index` in the order of exchanges; the last stage
    /// for every place from three on.
    pub open spec fn at(index: nat) -> Stage {
        if index == 0 {
            Stage::Command
        } else if index == 1 {
            Stage::CommandAck
        } else if index == 2 {
            Stage::Data
        } else {
            Stage::DataAck
        }
    }

    /// The stage that follows this one; the last stage follows itself.
    pub open spec fn next(self) -> Stage {
        match self {
            Stage::Command => Stage::CommandAck,
            Stage::CommandAck => Stage::Data,
            Stage::Data => Stage::DataAck,
            Stage::DataAck => Stage::DataAck,
        }
    }
}

/// Whose fault a failure is.
#[derive(Clone, Copy, Debug, PartialEq, Eq, Structural)]
pub enum ErrorKind {
    /// The link failed: a write, a read or a timeout.
    Transport,
    /// The device answered, but not as the protocol demands.
    Protocol,
    /// The caller asked for something that no command frame can express.
    Argument,
    /// The driver of the exchange broke its side of the interface.
    Internal,
}

/// A failed command. Every failure ends the exchange at once: nothing is
/// retried and nothing that was already sent is undone.
#[derive(Clone, Copy, Debug, PartialEq, Eq, Structural)]
pub enum Error {
    /// The link failed during `stage`.
    Transport { stage: Stage },
    /// The response frame read at `stage` carried `observed` where `expected`
    /// was due.
    UnexpectedResponse { stage: Stage, expected: ResponseCode, observed: ResponseCode },
    /// The receive phase was declared with `declared` bytes and the link
    /// delivered `received`.
    PayloadLength { declared: u32, received: usize },
    /// A buffer of `len` bytes is longer than a 32-bit length argument can say.
    ArgumentRange { len: usize },
    /// The driver answered the action of `stage` with an event that this
    /// action cannot produce.
    UnexpectedEvent { stage: Stage },
    /// A command with a receive phase was reported as done without a payload.
    MissingPayload,
}

impl Error {
    /// The class of the failure.
    pub open spec fn spec_kind(&self) -> ErrorKind {
        match *self {
            Error::Transport { .. } => ErrorKind::Transport,
            Error::UnexpectedResponse { .. } => ErrorKind::Protocol,
            Error::PayloadLength { .. } => ErrorKind::Protocol,
            Error::ArgumentRange { .. } => ErrorKind::Argument,
            Error::UnexpectedEvent { .. } => ErrorKind::Internal,
            Error::MissingPayload => ErrorKind::Internal,
        }
    }

    /// Classifies the failure.
    #[verifier::when_used_as_spec(spec_kind)]
    pub fn kind(&self) -> (k: ErrorKind)
        ensures
            k == self.spec_kind(),
    {
        match self {
            Error::Transport { .. } => ErrorKind::Transport,
            Error::UnexpectedResponse { .. } => ErrorKind::Protocol,
            Error::PayloadLength { .. } => ErrorKind::Protocol,
            Error::ArgumentRange { .. } => ErrorKind::Argument,
            Error::UnexpectedEvent { .. } => ErrorKind::Internal,
            Error::MissingPayload => ErrorKind::Internal,
        }
    }
}

} // verus!
