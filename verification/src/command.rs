//! A command as the caller states it: what to send, which acknowledgement to
//! expect, and what payload follows.

use vstd::prelude::*;
use crate::isp::{CommandTag, ResponseCode};

verus! {

/// The data phase that follows the acknowledgement of a command.
#[derive(Clone, Debug, PartialEq, Eq)]
pub enum DataProc {
    /// Nothing follows.
    NoData,
    /// `data` goes to the device, which then acknowledges with `code`.
    SendData { code: ResponseCode, data: Vec<u8> },
    /// The device sends `cnt` bytes and then acknowledges with `code`.
    RecvData { code: ResponseCode, cnt: u32 },
}

/// The mathematical value of a [`DataProc`].
pub enum DataProcView {
    NoData,
    SendData { code: ResponseCode, data: Seq<u8> },
    RecvData { code: ResponseCode, cnt: u32 },
}

impl View for DataProc {
    type V = DataProcView;

    open spec fn view(&self) -> DataProcView {
        match *self {
            DataProc::NoData => DataProcView::NoData,
            DataProc::SendData { code, data } => DataProcView::SendData { code, data: data@ },
            DataProc::RecvData { code, cnt } => DataProcView::RecvData { code, cnt },
        }
    }
}

/// One command for the device.
#[derive(Clone, Debug, PartialEq, Eq)]
pub struct Command {
    /// The operation asked for.
    pub tag: CommandTag,
    /// The response that acknowledges the command frame.
    pub command_resp: ResponseCode,
    /// The arguments, in the order that the operation fixes.
    pub args: Vec<u32>,
    /// What follows the acknowledgement.
    pub data: DataProc,
}

/// The mathematical value of a [`Command`].
pub struct CommandView {
    pub tag: CommandTag,
    pub command_resp: ResponseCode,
    pub args: Seq<u32>,
    pub data: DataProcView,
}

impl View for Command {
    type V = CommandView;

    open spec fn view(&self) -> CommandView {
        CommandView {
            tag: self.tag,
            command_resp: self.command_resp,
            args: self.args@,
            data: self.data@,
        }
    }
}

} // verus!
