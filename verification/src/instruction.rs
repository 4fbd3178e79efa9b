//! The five commands and their byte form.
//!
//! A command is written as one tag byte, `0` to `4` in declared order,
//! followed by its fields in declared order, each in the form that the
//! `wire` module gives its type. An instruction buffer must hold exactly one
//! command: a buffer with an unknown tag, one that ends early and one with
//! bytes left over are all refused.

use crate::error::ProcessError;
use crate::pubkey::Pubkey;
use crate::wire::{
    lemma_concat_assoc, lemma_parse_key_bytes, lemma_parse_key_inverse, lemma_parse_string_bytes,
    lemma_parse_string_inverse, lemma_parse_u64_bytes, lemma_parse_u64_inverse,
    lemma_parse_u8_bytes, lemma_parse_u8_inverse, parse_key, parse_string, parse_u64, parse_u8,
    read_key, read_string, read_u64, read_u8, string_bytes, string_fits, u64_bytes, u8_bytes,
    write_key, write_string, write_u64, write_u8, KEY_LEN,
};
use vstd::prelude::*;

verus! {

/// A command of the program.
#[derive(Debug, Clone, PartialEq, Eq)]
pub enum IoTInstruction {
    /// Store a message from the signing sender to `recipient`.
    SendMessage { message: String, recipient: Pubkey, message_id: u64 },
    /// Mark the stored message `message_id` as read by its signing recipient.
    ReceiveMessage { sender: Pubkey, message_id: u64 },
    /// Create the record of a device.
    RegisterDevice { device_type: String, device_id: String, owner: Pubkey },
    /// Replace the type of the device `device_id`.
    UpdateDevice { new_device_type: String, device_id: String },
    /// Deactivate the device `device_id`.
    DeleteDevice { device_id: String },
}

/// What an `IoTInstruction` holds, as mathematical values.
#[verifier::ext_equal]
pub enum InstructionView {
    SendMessage { message: Seq<char>, recipient: Seq<u8>, message_id: u64 },
    ReceiveMessage { sender: Seq<u8>, message_id: u64 },
    RegisterDevice { device_type: Seq<char>, device_id: Seq<char>, owner: Seq<u8> },
    UpdateDevice { new_device_type: Seq<char>, device_id: Seq<char> },
    DeleteDevice { device_id: Seq<char> },
}

impl View for IoTInstruction {
    type V = InstructionView;

    open spec fn view(&self) -> InstructionView {
        match self {
            IoTInstruction::SendMessage { message, recipient, message_id } => {
                InstructionView::SendMessage {
                    message: message@,
                    recipient: recipient@,
                    message_id: *message_id,
                }
            },
            IoTInstruction::ReceiveMessage { sender, message_id } => {
                InstructionView::ReceiveMessage { sender: sender@, message_id: *message_id }
            },
            IoTInstruction::RegisterDevice { device_type, device_id, owner } => {
                InstructionView::RegisterDevice {
                    device_type: device_type@,
                    device_id: device_id@,
                    owner: owner@,
                }
            },
            IoTInstruction::UpdateDevice { new_device_type, device_id } => {
                InstructionView::UpdateDevice {
                    new_device_type: new_device_type@,
                    device_id: device_id@,
                }
            },
            IoTInstruction::DeleteDevice { device_id } => {
                InstructionView::DeleteDevice { device_id: device_id@ }
            },
        }
    }
}

impl InstructionView {
    /// The tag of the command: its position in the declaration.
    pub open spec fn tag(self) -> u8 {
        match self {
            InstructionView::SendMessage { .. } => 0,
            InstructionView::ReceiveMessage { .. } => 1,
            InstructionView::RegisterDevice { .. } => 2,
            InstructionView::UpdateDevice { .. } => 3,
            InstructionView::DeleteDevice { .. } => 4,
        }
    }

    /// The position, among the accounts of a call, of the account whose
    /// buffer the command writes: the third for SendMessage (after sender
    /// and recipient), the second for the others (after their actor).
    pub open spec fn record_account(self) -> int {
        if self is SendMessage {
            2
        } else {
            1
        }
    }

    /// Whether the command has a byte form: its keys are keys and its
    /// strings can be length-prefixed.
    pub open spec fn encodable(self) -> bool {
        match self {
            InstructionView::SendMessage { message, recipient, .. } => {
                string_fits(message) && recipient.len() == KEY_LEN
            },
            InstructionView::ReceiveMessage { sender, .. } => sender.len() == KEY_LEN,
            InstructionView::RegisterDevice { device_type, device_id, owner } => {
                string_fits(device_type) && string_fits(device_id) && owner.len() == KEY_LEN
            },
            InstructionView::UpdateDevice { new_device_type, device_id } => {
                string_fits(new_device_type) && string_fits(device_id)
            },
            InstructionView::DeleteDevice { device_id } => string_fits(device_id),
        }
    }

    /// The byte form of the command's fields, without the tag.
    pub open spec fn field_bytes(self) -> Seq<u8> {
        match self {
            InstructionView::SendMessage { message, recipient, message_id } => {
                string_bytes(message) + recipient + u64_bytes(message_id)
            },
            InstructionView::ReceiveMessage { sender, message_id } => {
                sender + u64_bytes(message_id)
            },
            InstructionView::RegisterDevice { device_type, device_id, owner } => {
                string_bytes(device_type) + string_bytes(device_id) + owner
            },
            InstructionView::UpdateDevice { new_device_type, device_id } => {
                string_bytes(new_device_type) + string_bytes(device_id)
            },
            InstructionView::DeleteDevice { device_id } => string_bytes(device_id),
        }
    }

    /// The byte form of the command.
    pub open spec fn bytes(self) -> Seq<u8> {
        u8_bytes(self.tag()) + self.field_bytes()
    }

    /// Reads the fields of the command with tag `tag` from the front of `b`.
    pub open spec fn parse_fields(tag: u8, b: Seq<u8>) -> Option<(InstructionView, Seq<u8>)> {
        if tag == 0 {
            match parse_string(b) {
                Some((message, b1)) => match parse_key(b1) {
                    Some((recipient, b2)) => match parse_u64(b2) {
                        Some((message_id, rest)) => Some(
                            (InstructionView::SendMessage { message, recipient, message_id }, rest),
                        ),
                        None => None,
                    },
                    None => None,
                },
                None => None,
            }
        } else if tag == 1 {
            match parse_key(b) {
                Some((sender, b1)) => match parse_u64(b1) {
                    Some((message_id, rest)) => Some(
                        (InstructionView::ReceiveMessage { sender, message_id }, rest),
                    ),
                    None => None,
                },
                None => None,
            }
        } else if tag == 2 {
            match parse_string(b) {
                Some((device_type, b1)) => match parse_string(b1) {
                    Some((device_id, b2)) => match parse_key(b2) {
                        Some((owner, rest)) => Some(
                            (
                                InstructionView::RegisterDevice { device_type, device_id, owner },
                                rest,
                            ),
                        ),
                        None => None,
                    },
                    None => None,
                },
                None => None,
            }
        } else if tag == 3 {
            match parse_string(b) {
                Some((new_device_type, b1)) => match parse_string(b1) {
                    Some((device_id, rest)) => Some(
                        (InstructionView::UpdateDevice { new_device_type, device_id }, rest),
                    ),
                    None => None,
                },
                None => None,
            }
        } else if tag == 4 {
            match parse_string(b) {
                Some((device_id, rest)) => Some((InstructionView::DeleteDevice { device_id }, rest)),
                None => None,
            }
        } else {
            None
        }
    }

    /// Reads a command from the front of `b`, with the bytes that follow it.
    pub open spec fn parse(b: Seq<u8>) -> Option<(InstructionView, Seq<u8>)> {
        match parse_u8(b) {
            Some((tag, b1)) => Self::parse_fields(tag, b1),
            None => None,
        }
    }

    /// The command that `b` is the byte form of, if it is one: a command at
    /// the front of `b` with nothing behind it.
    pub open spec fn decode(b: Seq<u8>) -> Option<InstructionView> {
        match Self::parse(b) {
            Some((instruction, rest)) => if rest.len() == 0 {
                Some(instruction)
            } else {
                None
            },
            None => None,
        }
    }

    /// Reading what was written for a command gives the command and what followed it.
    pub proof fn lemma_parse_bytes(self, tail: Seq<u8>)
        requires
            self.encodable(),
        ensures
            Self::parse(self.bytes() + tail) == Some((self, tail)),
    {
        lemma_concat_assoc(u8_bytes(self.tag()), self.field_bytes(), tail);
        lemma_parse_u8_bytes(self.tag(), self.field_bytes() + tail);
        match self {
            InstructionView::SendMessage { message, recipient, message_id } => {
                let t2 = u64_bytes(message_id) + tail;
                let t1 = recipient + t2;
                assert(self.field_bytes() + tail =~= string_bytes(message) + t1);
                lemma_parse_string_bytes(message, t1);
                lemma_parse_key_bytes(recipient, t2);
                lemma_parse_u64_bytes(message_id, tail);
            },
            InstructionView::ReceiveMessage { sender, message_id } => {
                let t1 = u64_bytes(message_id) + tail;
                assert(self.field_bytes() + tail =~= sender + t1);
                lemma_parse_key_bytes(sender, t1);
                lemma_parse_u64_bytes(message_id, tail);
            },
            InstructionView::RegisterDevice { device_type, device_id, owner } => {
                let t2 = owner + tail;
                let t1 = string_bytes(device_id) + t2;
                assert(self.field_bytes() + tail =~= string_bytes(device_type) + t1);
                lemma_parse_string_bytes(device_type, t1);
                lemma_parse_string_bytes(device_id, t2);
                lemma_parse_key_bytes(owner, tail);
            },
            InstructionView::UpdateDevice { new_device_type, device_id } => {
                let t1 = string_bytes(device_id) + tail;
                assert(self.field_bytes() + tail =~= string_bytes(new_device_type) + t1);
                lemma_parse_string_bytes(new_device_type, t1);
                lemma_parse_string_bytes(device_id, tail);
            },
            InstructionView::DeleteDevice { device_id } => {
                lemma_parse_string_bytes(device_id, tail);
            },
        }
    }

    /// An input from which the fields of a command were read is those
    /// fields as written, then the rest, and the command has the tag asked for.
    pub proof fn lemma_parse_fields_inverse(tag: u8, b: Seq<u8>)
        ensures
            Self::parse_fields(tag, b) matches Some((instruction, rest)) ==> {
                &&& instruction.encodable()
                &&& instruction.tag() == tag
                &&& b == instruction.field_bytes() + rest
            },
    {
        if let Some((instruction, rest)) = Self::parse_fields(tag, b) {
            match instruction {
                InstructionView::SendMessage { message, recipient, message_id } => {
                    lemma_parse_string_inverse(b);
                    let b1 = parse_string(b).unwrap().1;
                    lemma_parse_key_inverse(b1);
                    let b2 = parse_key(b1).unwrap().1;
                    lemma_parse_u64_inverse(b2);
                    lemma_concat_assoc(string_bytes(message), recipient, b2);
                    lemma_concat_assoc(
                        string_bytes(message) + recipient,
                        u64_bytes(message_id),
                        rest,
                    );
                },
                InstructionView::ReceiveMessage { sender, message_id } => {
                    lemma_parse_key_inverse(b);
                    let b1 = parse_key(b).unwrap().1;
                    lemma_parse_u64_inverse(b1);
                    lemma_concat_assoc(sender, u64_bytes(message_id), rest);
                },
                InstructionView::RegisterDevice { device_type, device_id, owner } => {
                    lemma_parse_string_inverse(b);
                    let b1 = parse_string(b).unwrap().1;
                    lemma_parse_string_inverse(b1);
                    let b2 = parse_string(b1).unwrap().1;
                    lemma_parse_key_inverse(b2);
                    lemma_concat_assoc(string_bytes(device_type), string_bytes(device_id), b2);
                    lemma_concat_assoc(
                        string_bytes(device_type) + string_bytes(device_id),
                        owner,
                        rest,
                    );
                },
                InstructionView::UpdateDevice { new_device_type, device_id } => {
                    lemma_parse_string_inverse(b);
                    let b1 = parse_string(b).unwrap().1;
                    lemma_parse_string_inverse(b1);
                    lemma_concat_assoc(
                        string_bytes(new_device_type),
                        string_bytes(device_id),
                        rest,
                    );
                },
                InstructionView::DeleteDevice { device_id } => {
                    lemma_parse_string_inverse(b);
                },
            }
        }
    }

    /// An input from which a command was read is that command's byte form, then the rest.
    pub proof fn lemma_parse_inverse(b: Seq<u8>)
        ensures
            Self::parse(b) matches Some((instruction, rest)) ==> instruction.encodable() && b
                == instruction.bytes() + rest,
    {
        if let Some((instruction, rest)) = Self::parse(b) {
            lemma_parse_u8_inverse(b);
            let (tag, b1) = parse_u8(b).unwrap();
            Self::lemma_parse_fields_inverse(tag, b1);
            lemma_concat_assoc(u8_bytes(tag), instruction.field_bytes(), rest);
        }
    }

    /// The byte form of a command decodes to that command.
    pub proof fn lemma_decode_bytes(self)
        requires
            self.encodable(),
        ensures
            Self::decode(self.bytes()) == Some(self),
    {
        self.lemma_parse_bytes(Seq::empty());
        assert(self.bytes() + Seq::<u8>::empty() =~= self.bytes());
    }

    /// A buffer decodes to a command only if it is that command's byte form:
    /// no two buffers decode to the same command.
    pub proof fn lemma_decode_inverse(b: Seq<u8>)
        ensures
            Self::decode(b) matches Some(instruction) ==> instruction.encodable() && b
                == instruction.bytes(),
    {
        if let Some(instruction) = Self::decode(b) {
            Self::lemma_parse_inverse(b);
            assert(instruction.bytes() + Seq::<u8>::empty() =~= instruction.bytes());
            assert(Self::parse(b).unwrap().1 =~= Seq::<u8>::empty());
        }
    }
}

impl IoTInstruction {
    /// The position, among the accounts of a call, of the account whose
    /// buffer the command writes.
    pub fn record_account(&self) -> (index: usize)
        ensures
            index == self@.record_account(),
    {
        match self {
            IoTInstruction::SendMessage { .. } => 2,
            _ => 1,
        }
    }

    /// The byte form of the command, or `None` where one of its strings is
    /// too long to be length-prefixed.
    pub fn pack(&self) -> (r: Option<Vec<u8>>)
        ensures
            r is Some <==> self@.encodable(),
            r matches Some(bytes) ==> bytes@ == self@.bytes(),
    {
        let mut out: Vec<u8> = Vec::new();
        match self {
            IoTInstruction::SendMessage { message, recipient, message_id } => {
                write_u8(&mut out, 0);
                if !write_string(&mut out, message) {
                    return None;
                }
                write_key(&mut out, &recipient.bytes);
                write_u64(&mut out, *message_id);
            },
            IoTInstruction::ReceiveMessage { sender, message_id } => {
                write_u8(&mut out, 1);
                write_key(&mut out, &sender.bytes);
                write_u64(&mut out, *message_id);
            },
            IoTInstruction::RegisterDevice { device_type, device_id, owner } => {
                write_u8(&mut out, 2);
                if !write_string(&mut out, device_type) {
                    return None;
                }
                if !write_string(&mut out, device_id) {
                    return None;
                }
                write_key(&mut out, &owner.bytes);
            },
            IoTInstruction::UpdateDevice { new_device_type, device_id } => {
                write_u8(&mut out, 3);
                if !write_string(&mut out, new_device_type) {
                    return None;
                }
                if !write_string(&mut out, device_id) {
                    return None;
                }
            },
            IoTInstruction::DeleteDevice { device_id } => {
                write_u8(&mut out, 4);
                if !write_string(&mut out, device_id) {
                    return None;
                }
            },
        }
        assert(out@ =~= self@.bytes());
        Some(out)
    }

    /// Decodes an instruction buffer. Fails with `MalformedInstruction`
    /// where the tag is unknown, the buffer ends before the last field does,
    /// a string is not well-formed UTF-8, or bytes follow the last field.
    pub fn unpack(data: &[u8]) -> (r: Result<IoTInstruction, ProcessError>)
        ensures
            match r {
                Ok(instruction) => InstructionView::decode(data@) == Some(instruction@),
                Err(e) => e == ProcessError::MalformedInstruction && InstructionView::decode(data@)
                    is None,
            },
    {
        let (tag, fields) = match read_u8(data) {
            Some(x) => x,
            None => return Err(ProcessError::MalformedInstruction),
        };
        let (instruction, rest) = match Self::unpack_fields(tag, fields) {
            Some(x) => x,
            None => return Err(ProcessError::MalformedInstruction),
        };
        if rest.len() != 0 {
            return Err(ProcessError::MalformedInstruction);
        }
        Ok(instruction)
    }

    /// Reads the fields of the command with tag `tag` from the front of
    /// `input`, and gives the command with the bytes that follow it.
    fn unpack_fields<'a>(tag: u8, input: &'a [u8]) -> (r: Option<(IoTInstruction, &'a [u8])>)
        ensures
            match r {
                Some((instruction, rest)) => InstructionView::parse_fields(tag, input@) == Some(
                    (instruction@, rest@),
                ),
                None => InstructionView::parse_fields(tag, input@) is None,
            },
    {
        if tag == 0 {
            let (message, rest) = match read_string(input) {
                Some(x) => x,
                None => return None,
            };
            let (recipient, rest) = match read_key(rest) {
                Some(x) => x,
                None => return None,
            };
            let (message_id, rest) = match read_u64(rest) {
                Some(x) => x,
                None => return None,
            };
            let recipient = Pubkey::new_from_array(recipient);
            Some((IoTInstruction::SendMessage { message, recipient, message_id }, rest))
        } else if tag == 1 {
            let (sender, rest) = match read_key(input) {
                Some(x) => x,
                None => return None,
            };
            let (message_id, rest) = match read_u64(rest) {
                Some(x) => x,
                None => return None,
            };
            let sender = Pubkey::new_from_array(sender);
            Some((IoTInstruction::ReceiveMessage { sender, message_id }, rest))
        } else if tag == 2 {
            let (device_type, rest) = match read_string(input) {
                Some(x) => x,
                None => return None,
            };
            let (device_id, rest) = match read_string(rest) {
                Some(x) => x,
                None => return None,
            };
            let (owner, rest) = match read_key(rest) {
                Some(x) => x,
                None => return None,
            };
            let owner = Pubkey::new_from_array(owner);
            Some((IoTInstruction::RegisterDevice { device_type, device_id, owner }, rest))
        } else if tag == 3 {
            let (new_device_type, rest) = match read_string(input) {
                Some(x) => x,
                None => return None,
            };
            let (device_id, rest) = match read_string(rest) {
                Some(x) => x,
                None => return None,
            };
            Some((IoTInstruction::UpdateDevice { new_device_type, device_id }, rest))
        } else if tag == 4 {
            let (device_id, rest) = match read_string(input) {
                Some(x) => x,
                None => return None,
            };
            Some((IoTInstruction::DeleteDevice { device_id }, rest))
        } else {
            None
        }
    }
}

} // verus!
