//! Failure kinds reported to the caller.

use vstd::prelude::*;

verus! {

/// Domain failures of the registry, each with a stable numeric code.
#[derive(Debug, Clone, Copy, PartialEq, Eq, Structural)]
pub enum IoTError {
    /// Reserved for a check of funds; no command makes one.
    InsufficientBalance,
    /// The type of a device to register is longer than allowed.
    InvalidDeviceType,
    /// The content of a message to send is longer than allowed.
    InvalidMessageLength,
    /// The actor of the command has not signed, or the command names
    /// another device, message or recipient than the stored record.
    UnauthorizedOperation,
}

impl IoTError {
    /// The numeric code of this failure kind: its position in the declaration.
    pub open spec fn spec_code(self) -> u32 {
        match self {
            IoTError::InsufficientBalance => 0,
            IoTError::InvalidDeviceType => 1,
            IoTError::InvalidMessageLength => 2,
            IoTError::UnauthorizedOperation => 3,
        }
    }

    /// The numeric code under which this failure is surfaced at the boundary.
    pub fn code(self) -> (c: u32)
        ensures
            c == self.spec_code(),
    {
        match self {
            IoTError::InsufficientBalance => 0,
            IoTError::InvalidDeviceType => 1,
            IoTError::InvalidMessageLength => 2,
            IoTError::UnauthorizedOperation => 3,
        }
    }

    /// The text that describes this failure kind.
    pub open spec fn spec_message(self) -> Seq<char> {
        match self {
            IoTError::InsufficientBalance => "Insufficient balance"@,
            IoTError::InvalidDeviceType => "Invalid device type"@,
            IoTError::InvalidMessageLength => "Invalid message length"@,
            IoTError::UnauthorizedOperation => "Unauthorized operation"@,
        }
    }

    /// A text that describes this failure kind to a reader.
    pub fn message(self) -> (s: String)
        ensures
            s@ == self.spec_message(),
    {
        match self {
            IoTError::InsufficientBalance => "Insufficient balance".to_owned(),
            IoTError::InvalidDeviceType => "Invalid device type".to_owned(),
            IoTError::InvalidMessageLength => "Invalid message length".to_owned(),
            IoTError::UnauthorizedOperation => "Unauthorized operation".to_owned(),
        }
    }
}

/// Why a call was rejected.
///
/// A rejected call has written nothing: every check comes before the one
/// write that a call makes.
#[derive(Debug, Clone, Copy, PartialEq, Eq, Structural)]
pub enum ProcessError {
    /// A rule of the registry refused the call.
    Custom(IoTError),
    /// The instruction buffer is not exactly one well-formed command.
    MalformedInstruction,
    /// The target buffer does not start with a well-formed record.
    MalformedRecord,
    /// The record could not be written: the target buffer is too small for
    /// it, or one of its strings is too long to be length-prefixed.
    Serialization,
    /// The call names fewer accounts than the command takes.
    NotEnoughAccountKeys,
}

impl From<IoTError> for ProcessError {
    /// A domain failure as the reason of a rejection.
    fn from(e: IoTError) -> (r: ProcessError) {
        ProcessError::Custom(e)
    }
}

impl vstd::std_specs::convert::FromSpecImpl<IoTError> for ProcessError {
    open spec fn obeys_from_spec() -> bool {
        true
    }

    open spec fn from_spec(e: IoTError) -> ProcessError {
        ProcessError::Custom(e)
    }
}

} // verus!
