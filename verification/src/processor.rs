//! Authorization, validation and the state transitions of the five commands.
//!
//! A call is given the accounts it may touch, in the order that its command
//! fixes, the instruction buffer and the current time. It checks who signed,
//! checks the command's fields, and then makes at most one write: the new
//! byte form of one record, over the front of that record's buffer. Every
//! check comes before the write, so a rejected call leaves all buffers as
//! they were.
//!
//! What each command does is given by a spec function from the accounts
//! before the call to the accounts after it, or to the reason for the
//! rejection. The executable functions are proved against these.

use crate::error::{IoTError, ProcessError};
use crate::instruction::{InstructionView, IoTInstruction};
use crate::pubkey::Pubkey;
use crate::state::{DeviceInfo, DeviceInfoView, Message, MessageView};
use crate::wire::byte_len;
use vstd::prelude::*;

verus! {

/// The longest message content that is accepted, in bytes.
pub const MAX_MESSAGE_LEN: usize = 1000;

/// The longest device type that is accepted at registration, in bytes.
pub const MAX_DEVICE_TYPE_LEN: usize = 50;

/// An account as a call sees it.
#[derive(Debug, Clone, PartialEq, Eq)]
pub struct Account {
    /// The identity of the account.
    pub key: Pubkey,
    /// Whether the holder of `key` signed the call.
    pub is_signer: bool,
    /// The buffer of the account, which holds at most one record.
    pub data: Vec<u8>,
}

/// What an `Account` holds, as mathematical values.
#[verifier::ext_equal]
pub struct AccountView {
    pub key: Seq<u8>,
    pub is_signer: bool,
    pub data: Seq<u8>,
}

impl View for Account {
    type V = AccountView;

    open spec fn view(&self) -> AccountView {
        AccountView { key: self.key@, is_signer: self.is_signer, data: self.data@ }
    }
}

/// The accounts of a call, as mathematical values.
pub open spec fn views(accounts: Seq<Account>) -> Seq<AccountView> {
    Seq::new(accounts.len(), |i: int| accounts[i]@)
}

/// What a call comes to: the accounts after it, or why it was rejected.
pub type Outcome = Result<Seq<AccountView>, ProcessError>;

/// What the caller is told of an outcome.
pub open spec fn verdict(outcome: Outcome) -> Result<(), ProcessError> {
    match outcome {
        Ok(_) => Ok(()),
        Err(e) => Err(e),
    }
}

/// The accounts after a call on `before` with the given outcome: a
/// rejected call changes nothing.
pub open spec fn settled(before: Seq<AccountView>, outcome: Outcome) -> Seq<AccountView> {
    match outcome {
        Ok(after) => after,
        Err(_) => before,
    }
}

/// A buffer after `record` was written over its front.
pub open spec fn overwritten(buffer: Seq<u8>, record: Seq<u8>) -> Seq<u8> {
    record + buffer.skip(record.len() as int)
}

/// Writes `record` over the front of the buffer of account `index`. Fails
/// where the record has no byte form or is longer than the buffer.
pub open spec fn spec_store(
    accounts: Seq<AccountView>,
    index: int,
    encodable: bool,
    record: Seq<u8>,
) -> Outcome {
    if !encodable || record.len() > accounts[index].data.len() {
        Err(ProcessError::Serialization)
    } else {
        Ok(
            accounts.update(
                index,
                AccountView {
                    key: accounts[index].key,
                    is_signer: accounts[index].is_signer,
                    data: overwritten(accounts[index].data, record),
                },
            ),
        )
    }
}

/// The message that a sender's call creates.
pub open spec fn sent_message(
    sender: Seq<u8>,
    message: Seq<char>,
    recipient: Seq<u8>,
    message_id: u64,
    now: i64,
) -> MessageView {
    MessageView { message_id, sender, recipient, content: message, timestamp: now, read: false }
}

/// A message after its recipient has received it.
pub open spec fn received_message(message: MessageView) -> MessageView {
    MessageView {
        message_id: message.message_id,
        sender: message.sender,
        recipient: message.recipient,
        content: message.content,
        timestamp: message.timestamp,
        read: true,
    }
}

/// A device after its type was replaced at time `now`.
pub open spec fn updated_device(device: DeviceInfoView, new_device_type: Seq<char>, now: i64)
    -> DeviceInfoView {
    DeviceInfoView {
        initialized: device.initialized,
        device_type: new_device_type,
        device_id: device.device_id,
        owner: device.owner,
        last_activity: now,
        total_messages: device.total_messages,
        active: device.active,
    }
}

/// A device after it was deleted at time `now`.
pub open spec fn deleted_device(device: DeviceInfoView, now: i64) -> DeviceInfoView {
    DeviceInfoView {
        initialized: device.initialized,
        device_type: device.device_type,
        device_id: device.device_id,
        owner: device.owner,
        last_activity: now,
        total_messages: device.total_messages,
        active: false,
    }
}

/// SendMessage on accounts (sender, recipient, message buffer): the sender
/// must have signed and the content must be at most `MAX_MESSAGE_LEN` bytes.
/// The message stored names the signing account as its sender.
pub open spec fn spec_send_message(
    accounts: Seq<AccountView>,
    message: Seq<char>,
    recipient: Seq<u8>,
    message_id: u64,
    now: i64,
) -> Outcome {
    if accounts.len() < 3 {
        Err(ProcessError::NotEnoughAccountKeys)
    } else if !accounts[0].is_signer {
        Err(ProcessError::Custom(IoTError::UnauthorizedOperation))
    } else if byte_len(message) > MAX_MESSAGE_LEN {
        Err(ProcessError::Custom(IoTError::InvalidMessageLength))
    } else {
        let record = sent_message(accounts[0].key, message, recipient, message_id, now);
        spec_store(accounts, 2, record.encodable(), record.bytes())
    }
}

/// ReceiveMessage on accounts (recipient, message buffer): the recipient
/// must have signed, and the stored message must have the given id and name
/// the signing account as its recipient. The message is marked as read.
pub open spec fn spec_receive_message(accounts: Seq<AccountView>, message_id: u64) -> Outcome {
    if accounts.len() < 2 {
        Err(ProcessError::NotEnoughAccountKeys)
    } else if !accounts[0].is_signer {
        Err(ProcessError::Custom(IoTError::UnauthorizedOperation))
    } else {
        match MessageView::stored(accounts[1].data) {
            None => Err(ProcessError::MalformedRecord),
            Some(message) => if message.message_id != message_id || message.recipient
                != accounts[0].key {
                Err(ProcessError::Custom(IoTError::UnauthorizedOperation))
            } else {
                let record = received_message(message);
                spec_store(accounts, 1, record.encodable(), record.bytes())
            },
        }
    }
}

/// RegisterDevice on accounts (admin, device buffer): the admin must have
/// signed and the type must be at most `MAX_DEVICE_TYPE_LEN` bytes. What the
/// buffer held before plays no part.
pub open spec fn spec_register_device(
    accounts: Seq<AccountView>,
    device_type: Seq<char>,
    device_id: Seq<char>,
    owner: Seq<u8>,
    now: i64,
) -> Outcome {
    if accounts.len() < 2 {
        Err(ProcessError::NotEnoughAccountKeys)
    } else if !accounts[0].is_signer {
        Err(ProcessError::Custom(IoTError::UnauthorizedOperation))
    } else if byte_len(device_type) > MAX_DEVICE_TYPE_LEN {
        Err(ProcessError::Custom(IoTError::InvalidDeviceType))
    } else {
        let record = DeviceInfoView::fresh(device_type, device_id, owner, now);
        spec_store(accounts, 1, record.encodable(), record.bytes())
    }
}

/// UpdateDevice on accounts (admin, device buffer): the admin must have
/// signed and the stored device must have the given id. Whether the device
/// is still active plays no part.
pub open spec fn spec_update_device(
    accounts: Seq<AccountView>,
    new_device_type: Seq<char>,
    device_id: Seq<char>,
    now: i64,
) -> Outcome {
    if accounts.len() < 2 {
        Err(ProcessError::NotEnoughAccountKeys)
    } else if !accounts[0].is_signer {
        Err(ProcessError::Custom(IoTError::UnauthorizedOperation))
    } else {
        match DeviceInfoView::stored(accounts[1].data) {
            None => Err(ProcessError::MalformedRecord),
            Some(device) => if device.device_id != device_id {
                Err(ProcessError::Custom(IoTError::UnauthorizedOperation))
            } else {
                let record = updated_device(device, new_device_type, now);
                spec_store(accounts, 1, record.encodable(), record.bytes())
            },
        }
    }
}

/// DeleteDevice on accounts (admin, device buffer): the admin must have
/// signed and the stored device must have the given id.
pub open spec fn spec_delete_device(accounts: Seq<AccountView>, device_id: Seq<char>, now: i64)
    -> Outcome {
    if accounts.len() < 2 {
        Err(ProcessError::NotEnoughAccountKeys)
    } else if !accounts[0].is_signer {
        Err(ProcessError::Custom(IoTError::UnauthorizedOperation))
    } else {
        match DeviceInfoView::stored(accounts[1].data) {
            None => Err(ProcessError::MalformedRecord),
            Some(device) => if device.device_id != device_id {
                Err(ProcessError::Custom(IoTError::UnauthorizedOperation))
            } else {
                let record = deleted_device(device, now);
                spec_store(accounts, 1, record.encodable(), record.bytes())
            },
        }
    }
}

/// What a decoded command does to the accounts.
pub open spec fn spec_execute(accounts: Seq<AccountView>, instruction: InstructionView, now: i64)
    -> Outcome {
    match instruction {
        InstructionView::SendMessage { message, recipient, message_id } => {
            spec_send_message(accounts, message, recipient, message_id, now)
        },
        InstructionView::ReceiveMessage { sender, message_id } => {
            spec_receive_message(accounts, message_id)
        },
        InstructionView::RegisterDevice { device_type, device_id, owner } => {
            spec_register_device(accounts, device_type, device_id, owner, now)
        },
        InstructionView::UpdateDevice { new_device_type, device_id } => {
            spec_update_device(accounts, new_device_type, device_id, now)
        },
        InstructionView::DeleteDevice { device_id } => {
            spec_delete_device(accounts, device_id, now)
        },
    }
}

/// What an instruction buffer does to the accounts.
pub open spec fn spec_process(accounts: Seq<AccountView>, instruction_data: Seq<u8>, now: i64)
    -> Outcome {
    match InstructionView::decode(instruction_data) {
        None => Err(ProcessError::MalformedInstruction),
        Some(instruction) => spec_execute(accounts, instruction, now),
    }
}

/// The length of `s` in bytes.
fn text_len(s: &String) -> (n: usize)
    ensures
        n == byte_len(s@),
{
    s.as_str().as_bytes().len()
}

/// Writes `record` over the front of the buffer of account `index`, if the
/// record has a byte form and the buffer has room for it.
fn store(accounts: &mut Vec<Account>, index: usize, record: Option<Vec<u8>>) -> (r: Result<
    (),
    ProcessError,
>)
    requires
        index < old(accounts)@.len(),
    ensures
        ({
            let outcome = spec_store(
                views(old(accounts)@),
                index as int,
                record is Some,
                record->0@,
            );
            r == verdict(outcome) && views(final(accounts)@) == settled(
                views(old(accounts)@),
                outcome,
            )
        }),
{
    let bytes = match record {
        Some(bytes) => bytes,
        None => return Err(ProcessError::Serialization),
    };
    if bytes.len() > accounts[index].data.len() {
        return Err(ProcessError::Serialization);
    }
    let ghost before = accounts@;
    overwrite(&mut accounts[index].data, &bytes);
    assert(views(accounts@) =~= spec_store(views(before), index as int, true, bytes@)->Ok_0);
    Ok(())
}

/// Copies `record` over the front of `buffer`.
fn overwrite(buffer: &mut Vec<u8>, record: &Vec<u8>)
    requires
        record@.len() <= old(buffer)@.len(),
    ensures
        final(buffer)@ == overwritten(old(buffer)@, record@),
{
    let mut i: usize = 0;
    while i < record.len()
        invariant
            i <= record@.len() <= buffer@.len(),
            buffer@.len() == old(buffer)@.len(),
            forall|j: int| 0 <= j < i ==> buffer@[j] == record@[j],
            forall|j: int| i <= j < buffer@.len() ==> buffer@[j] == old(buffer)@[j],
        decreases record@.len() - i,
    {
        buffer[i] = record[i];
        i += 1;
    }
    assert(buffer@ =~= overwritten(old(buffer)@, record@));
}

/// Stores a message from the signing sender to `recipient`.
pub fn send_message(
    accounts: &mut Vec<Account>,
    message: String,
    recipient: Pubkey,
    message_id: u64,
    now: i64,
) -> (r: Result<(), ProcessError>)
    ensures
        ({
            let outcome = spec_send_message(
                views(old(accounts)@),
                message@,
                recipient@,
                message_id,
                now,
            );
            r == verdict(outcome) && views(final(accounts)@) == settled(
                views(old(accounts)@),
                outcome,
            )
        }),
{
    if accounts.len() < 3 {
        return Err(ProcessError::NotEnoughAccountKeys);
    }
    if !accounts[0].is_signer {
        return Err(ProcessError::Custom(IoTError::UnauthorizedOperation));
    }
    if text_len(&message) > MAX_MESSAGE_LEN {
        return Err(ProcessError::Custom(IoTError::InvalidMessageLength));
    }
    let record = Message {
        message_id,
        sender: accounts[0].key,
        recipient,
        content: message,
        timestamp: now,
        read: false,
    };
    store(accounts, 2, record.pack())
}

/// Marks the stored message `message_id` as read by its signing recipient.
pub fn receive_message(accounts: &mut Vec<Account>, message_id: u64) -> (r: Result<
    (),
    ProcessError,
>)
    ensures
        ({
            let outcome = spec_receive_message(views(old(accounts)@), message_id);
            r == verdict(outcome) && views(final(accounts)@) == settled(
                views(old(accounts)@),
                outcome,
            )
        }),
{
    if accounts.len() < 2 {
        return Err(ProcessError::NotEnoughAccountKeys);
    }
    if !accounts[0].is_signer {
        return Err(ProcessError::Custom(IoTError::UnauthorizedOperation));
    }
    let mut record = match Message::unpack(accounts[1].data.as_slice()) {
        Some(record) => record,
        None => return Err(ProcessError::MalformedRecord),
    };
    if record.message_id != message_id || record.recipient != accounts[0].key {
        return Err(ProcessError::Custom(IoTError::UnauthorizedOperation));
    }
    record.read = true;
    store(accounts, 1, record.pack())
}

/// Creates the record of a device.
pub fn register_device(
    accounts: &mut Vec<Account>,
    device_type: String,
    device_id: String,
    owner: Pubkey,
    now: i64,
) -> (r: Result<(), ProcessError>)
    ensures
        ({
            let outcome = spec_register_device(
                views(old(accounts)@),
                device_type@,
                device_id@,
                owner@,
                now,
            );
            r == verdict(outcome) && views(final(accounts)@) == settled(
                views(old(accounts)@),
                outcome,
            )
        }),
{
    if accounts.len() < 2 {
        return Err(ProcessError::NotEnoughAccountKeys);
    }
    if !accounts[0].is_signer {
        return Err(ProcessError::Custom(IoTError::UnauthorizedOperation));
    }
    if text_len(&device_type) > MAX_DEVICE_TYPE_LEN {
        return Err(ProcessError::Custom(IoTError::InvalidDeviceType));
    }
    let record = DeviceInfo::new(device_type, device_id, owner, now);
    store(accounts, 1, record.pack())
}

/// Replaces the type of the device `device_id`.
pub fn update_device(
    accounts: &mut Vec<Account>,
    new_device_type: String,
    device_id: String,
    now: i64,
) -> (r: Result<(), ProcessError>)
    ensures
        ({
            let outcome = spec_update_device(
                views(old(accounts)@),
                new_device_type@,
                device_id@,
                now,
            );
            r == verdict(outcome) && views(final(accounts)@) == settled(
                views(old(accounts)@),
                outcome,
            )
        }),
{
    if accounts.len() < 2 {
        return Err(ProcessError::NotEnoughAccountKeys);
    }
    if !accounts[0].is_signer {
        return Err(ProcessError::Custom(IoTError::UnauthorizedOperation));
    }
    let mut record = match DeviceInfo::unpack(accounts[1].data.as_slice()) {
        Some(record) => record,
        None => return Err(ProcessError::MalformedRecord),
    };
    if record.device_id != device_id {
        return Err(ProcessError::Custom(IoTError::UnauthorizedOperation));
    }
    record.device_type = new_device_type;
    record.last_activity = now;
    store(accounts, 1, record.pack())
}

/// Deactivates the device `device_id`.
pub fn delete_device(accounts: &mut Vec<Account>, device_id: String, now: i64) -> (r: Result<
    (),
    ProcessError,
>)
    ensures
        ({
            let outcome = spec_delete_device(views(old(accounts)@), device_id@, now);
            r == verdict(outcome) && views(final(accounts)@) == settled(
                views(old(accounts)@),
                outcome,
            )
        }),
{
    if accounts.len() < 2 {
        return Err(ProcessError::NotEnoughAccountKeys);
    }
    if !accounts[0].is_signer {
        return Err(ProcessError::Custom(IoTError::UnauthorizedOperation));
    }
    let mut record = match DeviceInfo::unpack(accounts[1].data.as_slice()) {
        Some(record) => record,
        None => return Err(ProcessError::MalformedRecord),
    };
    if record.device_id != device_id {
        return Err(ProcessError::Custom(IoTError::UnauthorizedOperation));
    }
    record.active = false;
    record.last_activity = now;
    store(accounts, 1, record.pack())
}

/// Carries out a decoded command.
pub fn execute(accounts: &mut Vec<Account>, instruction: IoTInstruction, now: i64) -> (r: Result<
    (),
    ProcessError,
>)
    ensures
        ({
            let outcome = spec_execute(views(old(accounts)@), instruction@, now);
            r == verdict(outcome) && views(final(accounts)@) == settled(
                views(old(accounts)@),
                outcome,
            )
        }),
{
    match instruction {
        IoTInstruction::SendMessage { message, recipient, message_id } => {
            send_message(accounts, message, recipient, message_id, now)
        },
        IoTInstruction::ReceiveMessage { sender: _, message_id } => {
            receive_message(accounts, message_id)
        },
        IoTInstruction::RegisterDevice { device_type, device_id, owner } => {
            register_device(accounts, device_type, device_id, owner, now)
        },
        IoTInstruction::UpdateDevice { new_device_type, device_id } => {
            update_device(accounts, new_device_type, device_id, now)
        },
        IoTInstruction::DeleteDevice { device_id } => delete_device(accounts, device_id, now),
    }
}

/// Decodes an instruction buffer and carries the command out at time `now`.
///
/// Succeeds exactly where the buffer is one well-formed command, the
/// accounts that the command takes are there, its actor has signed, its
/// fields pass the command's checks and the record fits its buffer. It then
/// has written the record over the front of one buffer and changed nothing
/// else. Otherwise it says why and has changed nothing.
pub fn process_instruction(
    _program_id: &Pubkey,
    accounts: &mut Vec<Account>,
    instruction_data: &[u8],
    now: i64,
) -> (r: Result<(), ProcessError>)
    ensures
        ({
            let outcome = spec_process(views(old(accounts)@), instruction_data@, now);
            r == verdict(outcome) && views(final(accounts)@) == settled(
                views(old(accounts)@),
                outcome,
            )
        }),
{
    match IoTInstruction::unpack(instruction_data) {
        Ok(instruction) => execute(accounts, instruction, now),
        Err(e) => Err(e),
    }
}

} // verus!
