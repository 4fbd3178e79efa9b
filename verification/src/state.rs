//! The two kinds of record kept in account buffers, and their byte form.
//!
//! A record is stored as its fields in declared order, each in the form that
//! the `wire` module gives its type, with no tag in front: which kind of
//! record a buffer holds follows from the command that touches it. A record
//! is read from the front of a buffer; bytes behind it are not looked at.

use crate::pubkey::Pubkey;
use crate::wire::{
    bool_bytes, byte_len, i64_bytes, lemma_concat_assoc, lemma_le_bytes_len,
    lemma_parse_bool_bytes, lemma_parse_bool_inverse, lemma_parse_i64_bytes,
    lemma_parse_i64_inverse, lemma_parse_key_bytes, lemma_parse_key_inverse,
    lemma_parse_string_bytes, lemma_parse_string_inverse, lemma_parse_u64_bytes,
    lemma_parse_u64_inverse, lemma_string_bytes_len, parse_bool, parse_i64, parse_key,
    parse_string, parse_u64, read_bool, read_i64, read_key, read_string, read_u64, string_bytes,
    string_fits, u64_bytes, unsigned64, write_bool, write_i64, write_key, write_string, write_u64,
    KEY_LEN,
};
use vstd::prelude::*;

verus! {

/// A registered device.
#[derive(Debug, Clone, PartialEq, Eq)]
pub struct DeviceInfo {
    /// True once the record has been created.
    pub initialized: bool,
    pub device_type: String,
    /// The identifier that the caller chose for the device.
    pub device_id: String,
    /// The identity that administers the device.
    pub owner: Pubkey,
    /// Time of the last successful change of the record.
    pub last_activity: i64,
    /// Reserved counter; no command changes it.
    pub total_messages: u64,
    /// False once the device has been deleted.
    pub active: bool,
}

/// A message from one identity to another.
#[derive(Debug, Clone, PartialEq, Eq)]
pub struct Message {
    pub message_id: u64,
    pub sender: Pubkey,
    pub recipient: Pubkey,
    pub content: String,
    /// Time at which the message was sent.
    pub timestamp: i64,
    /// False until the recipient has received the message.
    pub read: bool,
}

/// What a `DeviceInfo` holds, as mathematical values.
#[verifier::ext_equal]
pub struct DeviceInfoView {
    pub initialized: bool,
    pub device_type: Seq<char>,
    pub device_id: Seq<char>,
    pub owner: Seq<u8>,
    pub last_activity: i64,
    pub total_messages: u64,
    pub active: bool,
}

/// What a `Message` holds, as mathematical values.
#[verifier::ext_equal]
pub struct MessageView {
    pub message_id: u64,
    pub sender: Seq<u8>,
    pub recipient: Seq<u8>,
    pub content: Seq<char>,
    pub timestamp: i64,
    pub read: bool,
}

impl View for DeviceInfo {
    type V = DeviceInfoView;

    open spec fn view(&self) -> DeviceInfoView {
        DeviceInfoView {
            initialized: self.initialized,
            device_type: self.device_type@,
            device_id: self.device_id@,
            owner: self.owner@,
            last_activity: self.last_activity,
            total_messages: self.total_messages,
            active: self.active,
        }
    }
}

impl View for Message {
    type V = MessageView;

    open spec fn view(&self) -> MessageView {
        MessageView {
            message_id: self.message_id,
            sender: self.sender@,
            recipient: self.recipient@,
            content: self.content@,
            timestamp: self.timestamp,
            read: self.read,
        }
    }
}

impl DeviceInfoView {
    /// The record of a device at the moment of its registration.
    pub open spec fn fresh(
        device_type: Seq<char>,
        device_id: Seq<char>,
        owner: Seq<u8>,
        timestamp: i64,
    ) -> DeviceInfoView {
        DeviceInfoView {
            initialized: true,
            device_type,
            device_id,
            owner,
            last_activity: timestamp,
            total_messages: 0,
            active: true,
        }
    }

    /// Whether the record has a byte form: its owner is a key and both of
    /// its strings can be length-prefixed.
    pub open spec fn encodable(self) -> bool {
        &&& self.owner.len() == KEY_LEN
        &&& string_fits(self.device_type)
        &&& string_fits(self.device_id)
    }

    /// The byte form of the record.
    pub open spec fn bytes(self) -> Seq<u8> {
        bool_bytes(self.initialized) + string_bytes(self.device_type) + string_bytes(
            self.device_id,
        ) + self.owner + i64_bytes(self.last_activity) + u64_bytes(self.total_messages)
            + bool_bytes(self.active)
    }

    /// Reads a record from the front of `b`, with the bytes that follow it.
    pub open spec fn parse(b: Seq<u8>) -> Option<(DeviceInfoView, Seq<u8>)> {
        match parse_bool(b) {
            Some((initialized, b1)) => match parse_string(b1) {
                Some((device_type, b2)) => match parse_string(b2) {
                    Some((device_id, b3)) => match parse_key(b3) {
                        Some((owner, b4)) => match parse_i64(b4) {
                            Some((last_activity, b5)) => match parse_u64(b5) {
                                Some((total_messages, b6)) => match parse_bool(b6) {
                                    Some((active, rest)) => Some(
                                        (
                                            DeviceInfoView {
                                                initialized,
                                                device_type,
                                                device_id,
                                                owner,
                                                last_activity,
                                                total_messages,
                                                active,
                                            },
                                            rest,
                                        ),
                                    ),
                                    None => None,
                                },
                                None => None,
                            },
                            None => None,
                        },
                        None => None,
                    },
                    None => None,
                },
                None => None,
            },
            None => None,
        }
    }

    /// The record at the front of `b`, if there is one.
    pub open spec fn stored(b: Seq<u8>) -> Option<DeviceInfoView> {
        match Self::parse(b) {
            Some((record, _)) => Some(record),
            None => None,
        }
    }

    /// The byte form takes 58 bytes and those of the two strings.
    pub proof fn lemma_bytes_len(self)
        requires
            self.owner.len() == KEY_LEN,
        ensures
            self.bytes().len() == 58 + byte_len(self.device_type) + byte_len(self.device_id),
    {
        lemma_string_bytes_len(self.device_type);
        lemma_string_bytes_len(self.device_id);
        lemma_le_bytes_len(unsigned64(self.last_activity), 8);
        lemma_le_bytes_len(self.total_messages as nat, 8);
    }

    /// Reading what was written for a record gives the record and what followed it.
    pub proof fn lemma_parse_bytes(self, tail: Seq<u8>)
        requires
            self.encodable(),
        ensures
            Self::parse(self.bytes() + tail) == Some((self, tail)),
    {
        let t6 = bool_bytes(self.active) + tail;
        let t5 = u64_bytes(self.total_messages) + t6;
        let t4 = i64_bytes(self.last_activity) + t5;
        let t3 = self.owner + t4;
        let t2 = string_bytes(self.device_id) + t3;
        let t1 = string_bytes(self.device_type) + t2;
        let t0 = bool_bytes(self.initialized) + t1;
        assert(self.bytes() + tail =~= t0);
        lemma_parse_bool_bytes(self.initialized, t1);
        lemma_parse_string_bytes(self.device_type, t2);
        lemma_parse_string_bytes(self.device_id, t3);
        lemma_parse_key_bytes(self.owner, t4);
        lemma_parse_i64_bytes(self.last_activity, t5);
        lemma_parse_u64_bytes(self.total_messages, t6);
        lemma_parse_bool_bytes(self.active, tail);
    }

    /// An input from which a record was read is that record's byte form, then the rest.
    pub proof fn lemma_parse_inverse(b: Seq<u8>)
        ensures
            Self::parse(b) matches Some((record, rest)) ==> record.encodable() && b
                == record.bytes() + rest,
    {
        if let Some((record, rest)) = Self::parse(b) {
            lemma_parse_bool_inverse(b);
            let b1 = parse_bool(b).unwrap().1;
            lemma_parse_string_inverse(b1);
            let b2 = parse_string(b1).unwrap().1;
            lemma_parse_string_inverse(b2);
            let b3 = parse_string(b2).unwrap().1;
            lemma_parse_key_inverse(b3);
            let b4 = parse_key(b3).unwrap().1;
            lemma_parse_i64_inverse(b4);
            let b5 = parse_i64(b4).unwrap().1;
            lemma_parse_u64_inverse(b5);
            let b6 = parse_u64(b5).unwrap().1;
            lemma_parse_bool_inverse(b6);
            let f0 = bool_bytes(record.initialized);
            let f1 = string_bytes(record.device_type);
            let f2 = string_bytes(record.device_id);
            let f3 = record.owner;
            let f4 = i64_bytes(record.last_activity);
            let f5 = u64_bytes(record.total_messages);
            let f6 = bool_bytes(record.active);
            lemma_concat_assoc(f0, f1, b2);
            lemma_concat_assoc(f0 + f1, f2, b3);
            lemma_concat_assoc(f0 + f1 + f2, f3, b4);
            lemma_concat_assoc(f0 + f1 + f2 + f3, f4, b5);
            lemma_concat_assoc(f0 + f1 + f2 + f3 + f4, f5, b6);
            lemma_concat_assoc(f0 + f1 + f2 + f3 + f4 + f5, f6, rest);
        }
    }

    /// Writing a record, reading it back and writing it again gives the same
    /// bytes, and the record read back is the one written.
    pub proof fn lemma_roundtrip(self)
        requires
            self.encodable(),
        ensures
            Self::stored(self.bytes()) == Some(self),
            Self::stored(self.bytes())->0.bytes() == self.bytes(),
    {
        self.lemma_parse_bytes(Seq::empty());
        assert(self.bytes() + Seq::<u8>::empty() =~= self.bytes());
    }
}

impl MessageView {
    /// Whether the record has a byte form: its sender and recipient are keys
    /// and its content can be length-prefixed.
    pub open spec fn encodable(self) -> bool {
        &&& self.sender.len() == KEY_LEN
        &&& self.recipient.len() == KEY_LEN
        &&& string_fits(self.content)
    }

    /// The byte form of the record.
    pub open spec fn bytes(self) -> Seq<u8> {
        u64_bytes(self.message_id) + self.sender + self.recipient + string_bytes(self.content)
            + i64_bytes(self.timestamp) + bool_bytes(self.read)
    }

    /// Reads a record from the front of `b`, with the bytes that follow it.
    pub open spec fn parse(b: Seq<u8>) -> Option<(MessageView, Seq<u8>)> {
        match parse_u64(b) {
            Some((message_id, b1)) => match parse_key(b1) {
                Some((sender, b2)) => match parse_key(b2) {
                    Some((recipient, b3)) => match parse_string(b3) {
                        Some((content, b4)) => match parse_i64(b4) {
                            Some((timestamp, b5)) => match parse_bool(b5) {
                                Some((read, rest)) => Some(
                                    (
                                        MessageView {
                                            message_id,
                                            sender,
                                            recipient,
                                            content,
                                            timestamp,
                                            read,
                                        },
                                        rest,
                                    ),
                                ),
                                None => None,
                            },
                            None => None,
                        },
                        None => None,
                    },
                    None => None,
                },
                None => None,
            },
            None => None,
        }
    }

    /// The record at the front of `b`, if there is one.
    pub open spec fn stored(b: Seq<u8>) -> Option<MessageView> {
        match Self::parse(b) {
            Some((record, _)) => Some(record),
            None => None,
        }
    }

    /// The byte form takes 85 bytes and those of the content.
    pub proof fn lemma_bytes_len(self)
        requires
            self.sender.len() == KEY_LEN,
            self.recipient.len() == KEY_LEN,
        ensures
            self.bytes().len() == 85 + byte_len(self.content),
    {
        lemma_string_bytes_len(self.content);
        lemma_le_bytes_len(unsigned64(self.timestamp), 8);
        lemma_le_bytes_len(self.message_id as nat, 8);
    }

    /// Reading what was written for a record gives the record and what followed it.
    pub proof fn lemma_parse_bytes(self, tail: Seq<u8>)
        requires
            self.encodable(),
        ensures
            Self::parse(self.bytes() + tail) == Some((self, tail)),
    {
        let t5 = bool_bytes(self.read) + tail;
        let t4 = i64_bytes(self.timestamp) + t5;
        let t3 = string_bytes(self.content) + t4;
        let t2 = self.recipient + t3;
        let t1 = self.sender + t2;
        let t0 = u64_bytes(self.message_id) + t1;
        assert(self.bytes() + tail =~= t0);
        lemma_parse_u64_bytes(self.message_id, t1);
        lemma_parse_key_bytes(self.sender, t2);
        lemma_parse_key_bytes(self.recipient, t3);
        lemma_parse_string_bytes(self.content, t4);
        lemma_parse_i64_bytes(self.timestamp, t5);
        lemma_parse_bool_bytes(self.read, tail);
    }

    /// An input from which a record was read is that record's byte form, then the rest.
    pub proof fn lemma_parse_inverse(b: Seq<u8>)
        ensures
            Self::parse(b) matches Some((record, rest)) ==> record.encodable() && b
                == record.bytes() + rest,
    {
        if let Some((record, rest)) = Self::parse(b) {
            lemma_parse_u64_inverse(b);
            let b1 = parse_u64(b).unwrap().1;
            lemma_parse_key_inverse(b1);
            let b2 = parse_key(b1).unwrap().1;
            lemma_parse_key_inverse(b2);
            let b3 = parse_key(b2).unwrap().1;
            lemma_parse_string_inverse(b3);
            let b4 = parse_string(b3).unwrap().1;
            lemma_parse_i64_inverse(b4);
            let b5 = parse_i64(b4).unwrap().1;
            lemma_parse_bool_inverse(b5);
            let f0 = u64_bytes(record.message_id);
            let f1 = record.sender;
            let f2 = record.recipient;
            let f3 = string_bytes(record.content);
            let f4 = i64_bytes(record.timestamp);
            let f5 = bool_bytes(record.read);
            lemma_concat_assoc(f0, f1, b2);
            lemma_concat_assoc(f0 + f1, f2, b3);
            lemma_concat_assoc(f0 + f1 + f2, f3, b4);
            lemma_concat_assoc(f0 + f1 + f2 + f3, f4, b5);
            lemma_concat_assoc(f0 + f1 + f2 + f3 + f4, f5, rest);
        }
    }

    /// Writing a record, reading it back and writing it again gives the same
    /// bytes, and the record read back is the one written.
    pub proof fn lemma_roundtrip(self)
        requires
            self.encodable(),
        ensures
            Self::stored(self.bytes()) == Some(self),
            Self::stored(self.bytes())->0.bytes() == self.bytes(),
    {
        self.lemma_parse_bytes(Seq::empty());
        assert(self.bytes() + Seq::<u8>::empty() =~= self.bytes());
    }
}

impl DeviceInfo {
    /// The record of a newly registered device: initialized, active, with no
    /// messages counted, last active at `timestamp`.
    pub fn new(device_type: String, device_id: String, owner: Pubkey, timestamp: i64) -> (device:
        DeviceInfo)
        ensures
            device@ == DeviceInfoView::fresh(device_type@, device_id@, owner@, timestamp),
    {
        DeviceInfo {
            initialized: true,
            device_type,
            device_id,
            owner,
            last_activity: timestamp,
            total_messages: 0,
            active: true,
        }
    }

    /// The byte form of the record, or `None` where one of its strings is
    /// too long to be length-prefixed.
    pub fn pack(&self) -> (r: Option<Vec<u8>>)
        ensures
            r is Some <==> self@.encodable(),
            r matches Some(bytes) ==> bytes@ == self@.bytes(),
    {
        let mut out: Vec<u8> = Vec::new();
        write_bool(&mut out, self.initialized);
        if !write_string(&mut out, &self.device_type) {
            return None;
        }
        if !write_string(&mut out, &self.device_id) {
            return None;
        }
        write_key(&mut out, &self.owner.bytes);
        write_i64(&mut out, self.last_activity);
        write_u64(&mut out, self.total_messages);
        write_bool(&mut out, self.active);
        assert(out@ =~= self@.bytes());
        Some(out)
    }

    /// Reads the record at the front of `buf`. Fails where `buf` ends before
    /// the record does, a flag is neither `0` nor `1`, or a string is not
    /// well-formed UTF-8.
    pub fn unpack(buf: &[u8]) -> (r: Option<DeviceInfo>)
        ensures
            match r {
                Some(device) => DeviceInfoView::stored(buf@) == Some(device@),
                None => DeviceInfoView::stored(buf@) is None,
            },
    {
        let (initialized, rest) = match read_bool(buf) {
            Some(x) => x,
            None => return None,
        };
        let (device_type, rest) = match read_string(rest) {
            Some(x) => x,
            None => return None,
        };
        let (device_id, rest) = match read_string(rest) {
            Some(x) => x,
            None => return None,
        };
        let (owner, rest) = match read_key(rest) {
            Some(x) => x,
            None => return None,
        };
        let (last_activity, rest) = match read_i64(rest) {
            Some(x) => x,
            None => return None,
        };
        let (total_messages, rest) = match read_u64(rest) {
            Some(x) => x,
            None => return None,
        };
        let (active, _) = match read_bool(rest) {
            Some(x) => x,
            None => return None,
        };
        Some(
            DeviceInfo {
                initialized,
                device_type,
                device_id,
                owner: Pubkey::new_from_array(owner),
                last_activity,
                total_messages,
                active,
            },
        )
    }
}

impl Message {
    /// The byte form of the record, or `None` where its content is too long
    /// to be length-prefixed.
    pub fn pack(&self) -> (r: Option<Vec<u8>>)
        ensures
            r is Some <==> self@.encodable(),
            r matches Some(bytes) ==> bytes@ == self@.bytes(),
    {
        let mut out: Vec<u8> = Vec::new();
        write_u64(&mut out, self.message_id);
        write_key(&mut out, &self.sender.bytes);
        write_key(&mut out, &self.recipient.bytes);
        if !write_string(&mut out, &self.content) {
            return None;
        }
        write_i64(&mut out, self.timestamp);
        write_bool(&mut out, self.read);
        assert(out@ =~= self@.bytes());
        Some(out)
    }

    /// Reads the record at the front of `buf`. Fails where `buf` ends before
    /// the record does, the flag is neither `0` nor `1`, or the content is
    /// not well-formed UTF-8.
    pub fn unpack(buf: &[u8]) -> (r: Option<Message>)
        ensures
            match r {
                Some(message) => MessageView::stored(buf@) == Some(message@),
                None => MessageView::stored(buf@) is None,
            },
    {
        let (message_id, rest) = match read_u64(buf) {
            Some(x) => x,
            None => return None,
        };
        let (sender, rest) = match read_key(rest) {
            Some(x) => x,
            None => return None,
        };
        let (recipient, rest) = match read_key(rest) {
            Some(x) => x,
            None => return None,
        };
        let (content, rest) = match read_string(rest) {
            Some(x) => x,
            None => return None,
        };
        let (timestamp, rest) = match read_i64(rest) {
            Some(x) => x,
            None => return None,
        };
        let (read, _) = match read_bool(rest) {
            Some(x) => x,
            None => return None,
        };
        Some(
            Message {
                message_id,
                sender: Pubkey::new_from_array(sender),
                recipient: Pubkey::new_from_array(recipient),
                content,
                timestamp,
                read,
            },
        )
    }
}

} // verus!
