//! The operations of the device, each as the command that asks for it.
//!
//! Every function here builds one [`Command`]: the tag, the arguments in
//! the order that the device expects, the acknowledgement that is due, and
//! the data phase. Nothing is sent: the command goes to
//! [`Exchange::begin`](crate::exchange::Exchange::begin). An operation
//! whose arguments hold the length of a buffer fails here, before anything
//! could be sent, when the length does not fit the 32-bit argument.

use vstd::prelude::*;
use crate::command::{Command, CommandView, DataProc, DataProcView};
use crate::error::Error;
use crate::exchange::{ActionView, EventView};
use crate::run::{lemma_receive_phase, run};
use crate::isp::{CommandTag, KeyProvisionCmds, KeyType, ResponseCode};

verus! {

/// The size in bytes of the unique device secret.
pub const UDS_SIZE: u32 = 32;

/// The memory that the key store is saved to: the internal flash.
pub const INTERNAL_FLASH: u32 = 0;

/// The command that saves the key store to non-volatile memory.
pub open spec fn save_keystore() -> CommandView {
    CommandView {
        tag: CommandTag::KeyProvision,
        command_resp: ResponseCode::GenericResponse,
        args: seq![KeyProvisionCmds::WriteNonVolatile.word(), INTERNAL_FLASH],
        data: DataProcView::NoData,
    }
}

/// The command that enrolls the device's physically unclonable function.
pub open spec fn enroll() -> CommandView {
    CommandView {
        tag: CommandTag::KeyProvision,
        command_resp: ResponseCode::GenericResponse,
        args: seq![KeyProvisionCmds::Enroll.word()],
        data: DataProcView::NoData,
    }
}

/// The command that has the device generate its unique device secret.
pub open spec fn generate_uds() -> CommandView {
    CommandView {
        tag: CommandTag::KeyProvision,
        command_resp: ResponseCode::GenericResponse,
        args: seq![KeyProvisionCmds::SetIntrinsicKey.word(), KeyType::UDS.word(), UDS_SIZE],
        data: DataProcView::NoData,
    }
}

/// The command that loads `data` as the key store.
pub open spec fn isp_write_keystore(data: Seq<u8>) -> CommandView {
    CommandView {
        tag: CommandTag::KeyProvision,
        command_resp: ResponseCode::KeyProvisionResponse,
        args: seq![KeyProvisionCmds::WriteKeyStore.word()],
        data: DataProcView::SendData { code: ResponseCode::GenericResponse, data },
    }
}

/// The command that hands the secure-boot file `data` to the device.
pub open spec fn recv_sb_file(data: Seq<u8>) -> CommandView
    recommends
        data.len() <= u32::MAX,
{
    CommandView {
        tag: CommandTag::ReceiveSbFile,
        command_resp: ResponseCode::GenericResponse,
        args: seq![data.len() as u32],
        data: DataProcView::SendData { code: ResponseCode::GenericResponse, data },
    }
}

/// The command that sets the key of type `key_type` to `data`.
pub open spec fn isp_set_userkey(key_type: KeyType, data: Seq<u8>) -> CommandView
    recommends
        data.len() <= u32::MAX,
{
    CommandView {
        tag: CommandTag::KeyProvision,
        command_resp: ResponseCode::KeyProvisionResponse,
        args: seq![KeyProvisionCmds::SetUserKey.word(), key_type.word(), data.len() as u32],
        data: DataProcView::SendData { code: ResponseCode::GenericResponse, data },
    }
}

/// The command that reads `cnt` bytes of memory from `address` on.
pub open spec fn isp_read_memory(address: u32, cnt: u32) -> CommandView {
    CommandView {
        tag: CommandTag::ReadMemory,
        command_resp: ResponseCode::ReadMemoryResponse,
        args: seq![address, cnt, 0u32],
        data: DataProcView::RecvData { code: ResponseCode::GenericResponse, cnt },
    }
}

/// The command that writes `data` to memory from `address` on.
pub open spec fn isp_write_memory(address: u32, data: Seq<u8>) -> CommandView
    recommends
        data.len() <= u32::MAX,
{
    CommandView {
        tag: CommandTag::WriteMemory,
        command_resp: ResponseCode::GenericResponse,
        args: seq![address, data.len() as u32, 0u32],
        data: DataProcView::SendData { code: ResponseCode::GenericResponse, data },
    }
}

/// The command that erases the whole internal flash.
pub open spec fn isp_flash_erase_all() -> CommandView {
    CommandView {
        tag: CommandTag::FlashEraseAll,
        command_resp: ResponseCode::GenericResponse,
        args: seq![0u32],
        data: DataProcView::NoData,
    }
}

/// The length `len` of a buffer as a 32-bit argument. Fails with
/// `Error::ArgumentRange` exactly when `len` is more than `u32::MAX`.
pub fn length_arg(len: usize) -> (r: Result<u32, Error>)
    ensures
        r == if len <= u32::MAX {
            Ok::<u32, Error>(len as u32)
        } else {
            Err(Error::ArgumentRange { len })
        },
{
    if len > 0xFFFF_FFFF {
        Err(Error::ArgumentRange { len })
    } else {
        Ok(len as u32)
    }
}

/// Saves the key store to the internal flash.
pub fn do_save_keystore() -> (command: Command)
    ensures
        command@ == save_keystore(),
{
    let mut args: Vec<u32> = Vec::new();
    args.push(KeyProvisionCmds::WriteNonVolatile.to_u32());
    args.push(INTERNAL_FLASH);
    assert(args@ =~= save_keystore().args);
    Command {
        tag: CommandTag::KeyProvision,
        command_resp: ResponseCode::GenericResponse,
        args,
        data: DataProc::NoData,
    }
}

/// Enrolls the physically unclonable function.
pub fn do_enroll() -> (command: Command)
    ensures
        command@ == enroll(),
{
    let mut args: Vec<u32> = Vec::new();
    args.push(KeyProvisionCmds::Enroll.to_u32());
    Command {
        tag: CommandTag::KeyProvision,
        command_resp: ResponseCode::GenericResponse,
        args,
        data: DataProc::NoData,
    }
}

/// Generates the unique device secret.
pub fn do_generate_uds() -> (command: Command)
    ensures
        command@ == generate_uds(),
{
    let mut args: Vec<u32> = Vec::new();
    args.push(KeyProvisionCmds::SetIntrinsicKey.to_u32());
    args.push(KeyType::UDS.to_u32());
    args.push(UDS_SIZE);
    assert(args@ =~= generate_uds().args);
    Command {
        tag: CommandTag::KeyProvision,
        command_resp: ResponseCode::GenericResponse,
        args,
        data: DataProc::NoData,
    }
}

/// Loads `data` as the key store.
pub fn do_isp_write_keystore(data: Vec<u8>) -> (command: Command)
    ensures
        command@ == isp_write_keystore(data@),
{
    let mut args: Vec<u32> = Vec::new();
    args.push(KeyProvisionCmds::WriteKeyStore.to_u32());
    Command {
        tag: CommandTag::KeyProvision,
        command_resp: ResponseCode::KeyProvisionResponse,
        args,
        data: DataProc::SendData { code: ResponseCode::GenericResponse, data },
    }
}

/// Hands the secure-boot file `data` to the device. Fails with
/// `Error::ArgumentRange` exactly when the file is longer than `u32::MAX`
/// bytes.
pub fn do_recv_sb_file(data: Vec<u8>) -> (r: Result<Command, Error>)
    ensures
        match r {
            Ok(command) => data@.len() <= u32::MAX && command@ == recv_sb_file(data@),
            Err(e) => data@.len() > u32::MAX && e == (Error::ArgumentRange {
                len: data.len(),
            }),
        },
{
    match length_arg(data.len()) {
        Err(e) => Err(e),
        Ok(len) => {
            let mut args: Vec<u32> = Vec::new();
            args.push(len);
            Ok(
                Command {
                    tag: CommandTag::ReceiveSbFile,
                    command_resp: ResponseCode::GenericResponse,
                    args,
                    data: DataProc::SendData { code: ResponseCode::GenericResponse, data },
                },
            )
        },
    }
}

/// Sets the key of type `key_type` to `data`. Fails with
/// `Error::ArgumentRange` exactly when the key is longer than `u32::MAX`
/// bytes.
pub fn do_isp_set_userkey(key_type: KeyType, data: Vec<u8>) -> (r: Result<Command, Error>)
    ensures
        match r {
            Ok(command) => data@.len() <= u32::MAX && command@ == isp_set_userkey(key_type, data@),
            Err(e) => data@.len() > u32::MAX && e == (Error::ArgumentRange {
                len: data.len(),
            }),
        },
{
    match length_arg(data.len()) {
        Err(e) => Err(e),
        Ok(len) => {
            let mut args: Vec<u32> = Vec::new();
            args.push(KeyProvisionCmds::SetUserKey.to_u32());
            args.push(key_type.to_u32());
            args.push(len);
            assert(args@ =~= isp_set_userkey(key_type, data@).args);
            Ok(
                Command {
                    tag: CommandTag::KeyProvision,
                    command_resp: ResponseCode::KeyProvisionResponse,
                    args,
                    data: DataProc::SendData { code: ResponseCode::GenericResponse, data },
                },
            )
        },
    }
}

/// Reads `cnt` bytes of memory from `address` on. The bytes are the payload
/// with which the exchange ends: see [`read_memory_payload`].
pub fn do_isp_read_memory(address: u32, cnt: u32) -> (command: Command)
    ensures
        command@ == isp_read_memory(address, cnt),
{
    let mut args: Vec<u32> = Vec::new();
    args.push(address);
    args.push(cnt);
    args.push(0);
    assert(args@ =~= isp_read_memory(address, cnt).args);
    Command {
        tag: CommandTag::ReadMemory,
        command_resp: ResponseCode::ReadMemoryResponse,
        args,
        data: DataProc::RecvData { code: ResponseCode::GenericResponse, cnt },
    }
}

/// The memory read, from the payload with which the exchange of a
/// [`do_isp_read_memory`] command ended. Such an exchange always ends with
/// a payload; handed none, this fails with `Error::MissingPayload`.
pub fn read_memory_payload(payload: Option<Vec<u8>>) -> (r: Result<Vec<u8>, Error>)
    ensures
        r == match payload {
            Some(bytes) => Ok::<Vec<u8>, Error>(bytes),
            None => Err(Error::MissingPayload),
        },
{
    match payload {
        Some(bytes) => Ok(bytes),
        None => Err(Error::MissingPayload),
    }
}

/// Writes `data` to memory from `address` on. Fails with
/// `Error::ArgumentRange` exactly when `data` is longer than `u32::MAX`
/// bytes.
pub fn do_isp_write_memory(address: u32, data: Vec<u8>) -> (r: Result<Command, Error>)
    ensures
        match r {
            Ok(command) => data@.len() <= u32::MAX && command@ == isp_write_memory(address, data@),
            Err(e) => data@.len() > u32::MAX && e == (Error::ArgumentRange {
                len: data.len(),
            }),
        },
{
    match length_arg(data.len()) {
        Err(e) => Err(e),
        Ok(len) => {
            let mut args: Vec<u32> = Vec::new();
            args.push(address);
            args.push(len);
            args.push(0);
            assert(args@ =~= isp_write_memory(address, data@).args);
            Ok(
                Command {
                    tag: CommandTag::WriteMemory,
                    command_resp: ResponseCode::GenericResponse,
                    args,
                    data: DataProc::SendData { code: ResponseCode::GenericResponse, data },
                },
            )
        },
    }
}

/// Erases the whole internal flash.
pub fn do_isp_flash_erase_all() -> (command: Command)
    ensures
        command@ == isp_flash_erase_all(),
{
    let mut args: Vec<u32> = Vec::new();
    args.push(0);
    Command {
        tag: CommandTag::FlashEraseAll,
        command_resp: ResponseCode::GenericResponse,
        args,
        data: DataProc::NoData,
    }
}

/// Erasing the flash twice sends the same command frame twice: the frame
/// has the one argument zero, whatever the link did during the first
/// exchange or does during the second.
pub proof fn lemma_flash_erase_all_repeats(first: Seq<EventView>, second: Seq<EventView>)
    ensures
        run(isp_flash_erase_all(), first).actions[0] == run(isp_flash_erase_all(), second).actions[0],
        run(isp_flash_erase_all(), second).actions[0] == (ActionView::SendCommand {
            tag: CommandTag::FlashEraseAll,
            args: seq![0u32],
        }),
{
}

/// A memory read that succeeds returns a payload, and the payload has as
/// many bytes as were asked for.
pub proof fn lemma_read_memory_length(address: u32, cnt: u32, events: Seq<EventView>)
    ensures
        run(isp_read_memory(address, cnt), events).result matches Some(Ok(payload)) ==> {
            &&& payload matches Some(bytes)
            &&& bytes.len() == cnt
        },
{
    lemma_receive_phase(isp_read_memory(address, cnt), events);
}

} // verus!
