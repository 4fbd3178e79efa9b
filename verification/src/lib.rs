//! Instruction decoding, validation and state transitions for a small
//! device registry and messaging program on an account-based ledger.
//!
//! The program keeps two kinds of record, devices and messages, each in the
//! buffer of an account that the host supplies. A call brings an instruction
//! buffer and a list of accounts; `process_instruction` decodes the first,
//! checks the call against the second, and either writes one record or
//! rejects the call and writes nothing.

pub mod error;
pub mod instruction;
pub mod processor;
pub mod pubkey;
pub mod state;
pub mod theorems;
pub mod wire;

pub use error::{IoTError, ProcessError};
pub use instruction::IoTInstruction;
pub use processor::{
    delete_device, execute, process_instruction, receive_message, register_device, send_message,
    update_device, Account, MAX_DEVICE_TYPE_LEN, MAX_MESSAGE_LEN,
};
pub use pubkey::Pubkey;
pub use state::{DeviceInfo, Message};
