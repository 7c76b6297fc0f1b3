//! The vocabulary of the protocol: command tags, response codes, and the
//! sub-commands and key types of key provisioning.

use vstd::prelude::*;

verus! {

/// The operation that a command frame asks of the device.
#[derive(Clone, Copy, Debug, PartialEq, Eq, Structural)]
pub enum CommandTag {
    FlashEraseAll,
    FlashEraseRegion,
    ReadMemory,
    WriteMemory,
    FillMemory,
    GetProperty,
    ReceiveSbFile,
    Execute,
    Call,
    Reset,
    SetProperty,
    ConfigureMemory,
    KeyProvision,
}

/// The kind of response frame with which the device acknowledges a command
/// or a data phase.
#[derive(Clone, Copy, Debug, PartialEq, Eq, Structural)]
pub enum ResponseCode {
    GenericResponse,
    ReadMemoryResponse,
    GetPropertyResponse,
    FlashReadOnceResponse,
    KeyProvisionResponse,
}

/// The sub-commands of `CommandTag::KeyProvision`. One of them is always the
/// first argument of a key-provisioning command.
#[derive(Clone, Copy, Debug, PartialEq, Eq, Structural)]
pub enum KeyProvisionCmds {
    Enroll,
    SetUserKey,
    SetIntrinsicKey,
    WriteNonVolatile,
    ReadNonVolatile,
    WriteKeyStore,
    ReadKeyStore,
}

impl KeyProvisionCmds {
    /// The 32-bit word that stands for this sub-command in an argument vector.
    pub open spec fn word(self) -> u32 {
        match self {
            KeyProvisionCmds::Enroll => 0,
            KeyProvisionCmds::SetUserKey => 1,
            KeyProvisionCmds::SetIntrinsicKey => 2,
            KeyProvisionCmds::WriteNonVolatile => 3,
            KeyProvisionCmds::ReadNonVolatile => 4,
            KeyProvisionCmds::WriteKeyStore => 5,
            KeyProvisionCmds::ReadKeyStore => 6,
        }
    }

    /// Encodes the sub-command as an argument word.
    pub fn to_u32(self) -> (w: u32)
        ensures
            w == self.word(),
    {
        match self {
            KeyProvisionCmds::Enroll => 0,
            KeyProvisionCmds::SetUserKey => 1,
            KeyProvisionCmds::SetIntrinsicKey => 2,
            KeyProvisionCmds::WriteNonVolatile => 3,
            KeyProvisionCmds::ReadNonVolatile => 4,
            KeyProvisionCmds::WriteKeyStore => 5,
            KeyProvisionCmds::ReadKeyStore => 6,
        }
    }
}

/// The keys that the device's key store can hold.
#[derive(Clone, Copy, Debug, PartialEq, Eq, Structural)]
pub enum KeyType {
    /// Key-encryption key of secure-boot images.
    SBKEK,
    /// Key of the first region of on-the-fly flash encryption.
    PrinceRegion0,
    /// Key of the second region of on-the-fly flash encryption.
    PrinceRegion1,
    /// Key of the third region of on-the-fly flash encryption.
    PrinceRegion2,
    /// Key-encryption key of user keys.
    USERKEK,
    /// Unique device secret.
    UDS,
}

impl KeyType {
    /// The 32-bit word that stands for this key type in an argument vector.
    pub open spec fn word(self) -> u32 {
        match self {
            KeyType::SBKEK => 3,
            KeyType::PrinceRegion0 => 7,
            KeyType::PrinceRegion1 => 8,
            KeyType::PrinceRegion2 => 9,
            KeyType::USERKEK => 11,
            KeyType::UDS => 12,
        }
    }

    /// Encodes the key type as an argument word.
    pub fn to_u32(self) -> (w: u32)
        ensures
            w == self.word(),
    {
        match self {
            KeyType::SBKEK => 3,
            KeyType::PrinceRegion0 => 7,
            KeyType::PrinceRegion1 => 8,
            KeyType::PrinceRegion2 => 9,
            KeyType::USERKEK => 11,
            KeyType::UDS => 12,
        }
    }
}

} // verus!
