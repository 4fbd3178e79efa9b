//! What holds of every call, proved from the definitions of the commands.

use crate::error::{IoTError, ProcessError};
use crate::instruction::InstructionView;
use crate::processor::{
    deleted_device, spec_process, received_message, sent_message, settled, spec_delete_device,
    spec_execute, spec_receive_message, spec_register_device, spec_send_message,
    spec_update_device, updated_device, AccountView, MAX_DEVICE_TYPE_LEN, MAX_MESSAGE_LEN,
};
use crate::state::{DeviceInfoView, MessageView};
use crate::wire::{byte_len, string_fits, KEY_LEN};
use vstd::prelude::*;

verus! {

/// Whether `after` is `before` with the buffer of account `index` replaced
/// and nothing else changed.
pub open spec fn only_data_changed(before: Seq<AccountView>, after: Seq<AccountView>, index: int)
    -> bool {
    &&& 0 <= index < before.len()
    &&& after.len() == before.len()
    &&& after[index].key == before[index].key
    &&& after[index].is_signer == before[index].is_signer
    &&& after[index].data.len() == before[index].data.len()
    &&& forall|j: int| 0 <= j < before.len() && j != index ==> after[j] == before[j]
}

/// A registration by a signing admin, with a type of at most
/// `MAX_DEVICE_TYPE_LEN` bytes, can fail only for want of room in the
/// buffer. Where it succeeds, the buffer holds a record that is initialized
/// and active, counts no messages, was last active at the time of the call,
/// and has the type, id and owner of the command; no other buffer changed.
pub proof fn lemma_register_stores_fresh_record(
    accounts: Seq<AccountView>,
    device_type: Seq<char>,
    device_id: Seq<char>,
    owner: Seq<u8>,
    now: i64,
)
    requires
        accounts.len() >= 2,
        accounts[0].is_signer,
        byte_len(device_type) <= MAX_DEVICE_TYPE_LEN,
        string_fits(device_id),
        owner.len() == KEY_LEN,
    ensures
        match spec_register_device(accounts, device_type, device_id, owner, now) {
            Ok(after) => {
                &&& only_data_changed(accounts, after, 1)
                &&& DeviceInfoView::stored(after[1].data) matches Some(record)
                &&& record.initialized
                &&& record.active
                &&& record.total_messages == 0
                &&& record.last_activity == now
                &&& record.device_type == device_type
                &&& record.device_id == device_id
                &&& record.owner == owner
            },
            Err(e) => {
                &&& e == ProcessError::Serialization
                &&& DeviceInfoView::fresh(device_type, device_id, owner, now).bytes().len()
                    > accounts[1].data.len()
            },
        },
{
    let record = DeviceInfoView::fresh(device_type, device_id, owner, now);
    record.lemma_parse_bytes(accounts[1].data.skip(record.bytes().len() as int));
}

/// A registration by a signing admin with a type of more than
/// `MAX_DEVICE_TYPE_LEN` bytes is rejected with `InvalidDeviceType`, and
/// every buffer stays as it was.
pub proof fn lemma_register_rejects_long_type(
    accounts: Seq<AccountView>,
    device_type: Seq<char>,
    device_id: Seq<char>,
    owner: Seq<u8>,
    now: i64,
)
    requires
        accounts.len() >= 2,
        accounts[0].is_signer,
        byte_len(device_type) > MAX_DEVICE_TYPE_LEN,
    ensures
        spec_register_device(accounts, device_type, device_id, owner, now) == Err::<
            Seq<AccountView>,
            ProcessError,
        >(ProcessError::Custom(IoTError::InvalidDeviceType)),
        settled(accounts, spec_register_device(accounts, device_type, device_id, owner, now))
            == accounts,
{
}

/// An update that names another device than the stored one is rejected with
/// `UnauthorizedOperation`, and every buffer stays as it was.
pub proof fn lemma_update_rejects_other_device(
    accounts: Seq<AccountView>,
    new_device_type: Seq<char>,
    device_id: Seq<char>,
    now: i64,
)
    requires
        accounts.len() >= 2,
        DeviceInfoView::stored(accounts[1].data) matches Some(device) && device.device_id
            != device_id,
    ensures
        spec_update_device(accounts, new_device_type, device_id, now) == Err::<
            Seq<AccountView>,
            ProcessError,
        >(ProcessError::Custom(IoTError::UnauthorizedOperation)),
        settled(accounts, spec_update_device(accounts, new_device_type, device_id, now))
            == accounts,
{
}

/// A deletion that names another device than the stored one is rejected
/// with `UnauthorizedOperation`, and every buffer stays as it was.
pub proof fn lemma_delete_rejects_other_device(
    accounts: Seq<AccountView>,
    device_id: Seq<char>,
    now: i64,
)
    requires
        accounts.len() >= 2,
        DeviceInfoView::stored(accounts[1].data) matches Some(device) && device.device_id
            != device_id,
    ensures
        spec_delete_device(accounts, device_id, now) == Err::<Seq<AccountView>, ProcessError>(
            ProcessError::Custom(IoTError::UnauthorizedOperation),
        ),
        settled(accounts, spec_delete_device(accounts, device_id, now)) == accounts,
{
}

/// An update by a signing admin that names the stored device can fail only
/// for want of room in the buffer. Where it succeeds, the buffer holds the
/// device with its new type and the time of the call; its id, owner,
/// message count and flags are those it had, whether it was active or not.
pub proof fn lemma_update_stores_updated_record(
    accounts: Seq<AccountView>,
    new_device_type: Seq<char>,
    device_id: Seq<char>,
    now: i64,
)
    requires
        accounts.len() >= 2,
        accounts[0].is_signer,
        string_fits(new_device_type),
        DeviceInfoView::stored(accounts[1].data) matches Some(device) && device.device_id
            == device_id,
    ensures
        ({
            let device = DeviceInfoView::stored(accounts[1].data)->0;
            match spec_update_device(accounts, new_device_type, device_id, now) {
                Ok(after) => {
                    &&& only_data_changed(accounts, after, 1)
                    &&& DeviceInfoView::stored(after[1].data) matches Some(record)
                    &&& record.device_type == new_device_type
                    &&& record.last_activity == now
                    &&& record.device_id == device.device_id
                    &&& record.owner == device.owner
                    &&& record.total_messages == device.total_messages
                    &&& record.initialized == device.initialized
                    &&& record.active == device.active
                },
                Err(e) => {
                    &&& e == ProcessError::Serialization
                    &&& updated_device(device, new_device_type, now).bytes().len()
                        > accounts[1].data.len()
                },
            }
        }),
{
    let device = DeviceInfoView::stored(accounts[1].data)->0;
    DeviceInfoView::lemma_parse_inverse(accounts[1].data);
    let record = updated_device(device, new_device_type, now);
    record.lemma_parse_bytes(accounts[1].data.skip(record.bytes().len() as int));
}

/// A deletion by a signing admin that names the stored device succeeds. The
/// buffer then holds the device, inactive, with the time of the call; all
/// its other fields are those it had.
pub proof fn lemma_delete_stores_inactive_record(
    accounts: Seq<AccountView>,
    device_id: Seq<char>,
    now: i64,
)
    requires
        accounts.len() >= 2,
        accounts[0].is_signer,
        DeviceInfoView::stored(accounts[1].data) matches Some(device) && device.device_id
            == device_id,
    ensures
        ({
            let device = DeviceInfoView::stored(accounts[1].data)->0;
            &&& spec_delete_device(accounts, device_id, now) matches Ok(after)
            &&& only_data_changed(accounts, after, 1)
            &&& DeviceInfoView::stored(after[1].data) == Some(deleted_device(device, now))
            &&& !deleted_device(device, now).active
        }),
{
    let device = DeviceInfoView::stored(accounts[1].data)->0;
    DeviceInfoView::lemma_parse_inverse(accounts[1].data);
    let record = deleted_device(device, now);
    device.lemma_bytes_len();
    record.lemma_bytes_len();
    record.lemma_parse_bytes(accounts[1].data.skip(record.bytes().len() as int));
}

/// A message by a signing sender with a content of more than
/// `MAX_MESSAGE_LEN` bytes is rejected with `InvalidMessageLength`, and
/// every buffer stays as it was.
pub proof fn lemma_send_rejects_long_content(
    accounts: Seq<AccountView>,
    message: Seq<char>,
    recipient: Seq<u8>,
    message_id: u64,
    now: i64,
)
    requires
        accounts.len() >= 3,
        accounts[0].is_signer,
        byte_len(message) > MAX_MESSAGE_LEN,
    ensures
        spec_send_message(accounts, message, recipient, message_id, now) == Err::<
            Seq<AccountView>,
            ProcessError,
        >(ProcessError::Custom(IoTError::InvalidMessageLength)),
        settled(accounts, spec_send_message(accounts, message, recipient, message_id, now))
            == accounts,
{
}

/// A message by a signing sender with a content of at most
/// `MAX_MESSAGE_LEN` bytes can fail only for want of room in the buffer.
/// Where it succeeds, the buffer holds the message, unread, sent at the
/// time of the call, and its sender is the identity of the signing account:
/// nothing in the command can name another sender.
pub proof fn lemma_send_stores_unread_from_signer(
    accounts: Seq<AccountView>,
    message: Seq<char>,
    recipient: Seq<u8>,
    message_id: u64,
    now: i64,
)
    requires
        accounts.len() >= 3,
        accounts[0].is_signer,
        accounts[0].key.len() == KEY_LEN,
        byte_len(message) <= MAX_MESSAGE_LEN,
        recipient.len() == KEY_LEN,
    ensures
        match spec_send_message(accounts, message, recipient, message_id, now) {
            Ok(after) => {
                &&& only_data_changed(accounts, after, 2)
                &&& MessageView::stored(after[2].data) matches Some(record)
                &&& !record.read
                &&& record.sender == accounts[0].key
                &&& record.recipient == recipient
                &&& record.content == message
                &&& record.message_id == message_id
                &&& record.timestamp == now
            },
            Err(e) => {
                &&& e == ProcessError::Serialization
                &&& sent_message(accounts[0].key, message, recipient, message_id, now).bytes().len()
                    > accounts[2].data.len()
            },
        },
{
    let record = sent_message(accounts[0].key, message, recipient, message_id, now);
    record.lemma_parse_bytes(accounts[2].data.skip(record.bytes().len() as int));
}

/// A reception where the stored message names another recipient than the
/// signing account is rejected with `UnauthorizedOperation`, and every
/// buffer stays as it was: the message is as read or unread as before.
pub proof fn lemma_receive_rejects_other_recipient(accounts: Seq<AccountView>, message_id: u64)
    requires
        accounts.len() >= 2,
        MessageView::stored(accounts[1].data) matches Some(message) && message.recipient
            != accounts[0].key,
    ensures
        spec_receive_message(accounts, message_id) == Err::<Seq<AccountView>, ProcessError>(
            ProcessError::Custom(IoTError::UnauthorizedOperation),
        ),
        settled(accounts, spec_receive_message(accounts, message_id)) == accounts,
{
}

/// A reception by the signing recipient of the stored message with the
/// given id succeeds, whether the message was read before or not. The
/// buffer then holds the message, read; its sender, content and time are
/// those it had.
pub proof fn lemma_receive_stores_read_record(accounts: Seq<AccountView>, message_id: u64)
    requires
        accounts.len() >= 2,
        accounts[0].is_signer,
        MessageView::stored(accounts[1].data) matches Some(message) && message.message_id
            == message_id && message.recipient == accounts[0].key,
    ensures
        ({
            let message = MessageView::stored(accounts[1].data)->0;
            &&& spec_receive_message(accounts, message_id) matches Ok(after)
            &&& only_data_changed(accounts, after, 1)
            &&& MessageView::stored(after[1].data) == Some(received_message(message))
            &&& received_message(message).read
        }),
{
    let message = MessageView::stored(accounts[1].data)->0;
    MessageView::lemma_parse_inverse(accounts[1].data);
    let record = received_message(message);
    message.lemma_bytes_len();
    record.lemma_bytes_len();
    record.lemma_parse_bytes(accounts[1].data.skip(record.bytes().len() as int));
}

/// A command that succeeds writes to the buffer of one account, the one
/// that the command names as the account of its record, and leaves its
/// length, the other buffers, and every key and signature flag as they were.
pub proof fn lemma_success_writes_one_buffer(
    accounts: Seq<AccountView>,
    instruction: InstructionView,
    now: i64,
)
    ensures
        spec_execute(accounts, instruction, now) matches Ok(after) ==> only_data_changed(
            accounts,
            after,
            instruction.record_account(),
        ),
{
}

/// A call with the byte form of a command does what the command does, and
/// a call with any other buffer is rejected with `MalformedInstruction`.
pub proof fn lemma_process_follows_the_command(
    accounts: Seq<AccountView>,
    instruction_data: Seq<u8>,
    now: i64,
)
    ensures
        forall|instruction: InstructionView|
            instruction.encodable() && instruction_data == instruction.bytes() ==> spec_process(
                accounts,
                instruction_data,
                now,
            ) == #[trigger] spec_execute(accounts, instruction, now),
        (forall|instruction: InstructionView|
            instruction.encodable() ==> instruction_data != #[trigger] instruction.bytes())
            ==> spec_process(accounts, instruction_data, now) == Err::<
            Seq<AccountView>,
            ProcessError,
        >(ProcessError::MalformedInstruction),
{
    assert forall|instruction: InstructionView|
        instruction.encodable() && instruction_data == instruction.bytes() implies spec_process(
        accounts,
        instruction_data,
        now,
    ) == #[trigger] spec_execute(accounts, instruction, now) by {
        instruction.lemma_decode_bytes();
    }
    InstructionView::lemma_decode_inverse(instruction_data);
}

} // verus!
