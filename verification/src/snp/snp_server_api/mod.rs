//! Messages of the provider core service: sessions, typed messages and
//! forwarded messages.
use crate::encoding::{
    bytes_field, i32_field, optional_field, put_bytes, put_i32, put_optional, put_string,
    put_u32, put_u64, string_field, u32_field, u64_field, ProtoMessage,
};
use crate::snp::snp_core_types::{EntityId, PublicKey, Signature};
use vstd::prelude::*;

pub mod dr_message;
pub mod message_type;

pub use message_type::MessageType;

verus! {

/// A double-ratchet session header.
#[derive(Clone, PartialEq, Eq, Debug)]
pub struct DrSessionHeader {
    pub session_id: u64,
    /// the sender's current ratchet public key
    pub dr_pub_key: Option<PublicKey>,
    pub prev_count: u32,
    pub count: u32,
}

impl ProtoMessage for DrSessionHeader {
    open spec fn wire(&self) -> Seq<u8> {
        u64_field(1, self.session_id) + optional_field(2, self.dr_pub_key) + u32_field(
            3,
            self.prev_count,
        ) + u32_field(4, self.count)
    }

    fn encode_raw(&self, buf: &mut Vec<u8>) {
        let mut out: Vec<u8> = Vec::new();
        put_u64(1, self.session_id, &mut out);
        assert(out@ =~= u64_field(1, self.session_id));
        put_optional(2, &self.dr_pub_key, &mut out);
        put_u32(3, self.prev_count, &mut out);
        put_u32(4, self.count, &mut out);
        buf.append(&mut out);
    }
}

/// A double-ratchet header and an encrypted typed message.
#[derive(Clone, PartialEq, Eq, Debug)]
pub struct Message {
    pub header: Option<DrSessionHeader>,
    pub enc_typed_msg: Vec<u8>,
}

impl ProtoMessage for Message {
    open spec fn wire(&self) -> Seq<u8> {
        optional_field(1, self.header) + bytes_field(2, self.enc_typed_msg@)
    }

    fn encode_raw(&self, buf: &mut Vec<u8>) {
        let mut out: Vec<u8> = Vec::new();
        put_optional(1, &self.header, &mut out);
        assert(out@ =~= optional_field(1, self.header));
        put_bytes(2, self.enc_typed_msg.as_slice(), &mut out);
        buf.append(&mut out);
    }
}

/// A self-described message from a sender to a receiver, signed by the sender.
#[derive(Clone, PartialEq, Eq, Debug)]
pub struct TypedMessage {
    pub time_stamp: u64,
    /// A `MessageType`, as its number.
    pub msg_type: i32,
    /// the encoded message of type `msg_type`
    pub message: Vec<u8>,
    pub receiver: Option<EntityId>,
    pub sender: Option<EntityId>,
    /// the sender's signature on all other fields
    pub signature: Option<Signature>,
}

impl ProtoMessage for TypedMessage {
    open spec fn wire(&self) -> Seq<u8> {
        u64_field(1, self.time_stamp) + i32_field(2, self.msg_type) + bytes_field(
            3,
            self.message@,
        ) + optional_field(4, self.receiver) + optional_field(5, self.sender) + optional_field(
            6,
            self.signature,
        )
    }

    fn encode_raw(&self, buf: &mut Vec<u8>) {
        self.encode_with_signature(&self.signature, buf);
    }
}

impl TypedMessage {
    /// This value with its `signature` replaced.
    pub open spec fn with_signature(self, signature: Option<Signature>) -> Self {
        TypedMessage { signature, ..self }
    }

    /// Appends the encoding of this value with its `signature` replaced.
    pub fn encode_with_signature(&self, signature: &Option<Signature>, buf: &mut Vec<u8>)
        ensures
            final(buf)@ == old(buf)@ + self.with_signature(*signature).wire(),
    {
        let mut out: Vec<u8> = Vec::new();
        put_u64(1, self.time_stamp, &mut out);
        assert(out@ =~= u64_field(1, self.time_stamp));
        put_i32(2, self.msg_type, &mut out);
        put_bytes(3, self.message.as_slice(), &mut out);
        put_optional(4, &self.receiver, &mut out);
        put_optional(5, &self.sender, &mut out);
        put_optional(6, signature, &mut out);
        buf.append(&mut out);
    }

    /// The bytes that this value's `signature` signs: its encoding without that field.
    pub fn signed_payload(&self) -> (r: Vec<u8>)
        ensures
            r@ == self.with_signature(None).wire(),
    {
        let none: Option<Signature> = None;
        let mut buf: Vec<u8> = Vec::new();
        self.encode_with_signature(&none, &mut buf);
        assert(buf@ =~= self.with_signature(None).wire());
        buf
    }
}

/// A request to start a double-ratchet session with the receiver.
#[derive(Clone, PartialEq, Eq, Debug)]
pub struct NewSessionRequest {
    pub time_stamp: u64,
    pub receiver: Option<EntityId>,
    /// the sender's ephemeral x25519 key
    pub sender_ephemeral_key: Option<PublicKey>,
    pub receiver_bundle_id: u64,
    pub receiver_one_time_prekey_id: u64,
    pub message: Option<Message>,
    /// the sender's signature on all other fields
    pub sender_signature: Option<Signature>,
    pub net_id: u32,
    pub protocol_version: String,
}

impl ProtoMessage for NewSessionRequest {
    open spec fn wire(&self) -> Seq<u8> {
        u64_field(1, self.time_stamp) + optional_field(2, self.receiver) + optional_field(
            3,
            self.sender_ephemeral_key,
        ) + u64_field(4, self.receiver_bundle_id) + u64_field(5, self.receiver_one_time_prekey_id)
            + optional_field(6, self.message) + optional_field(7, self.sender_signature)
            + u32_field(8, self.net_id) + string_field(9, self.protocol_version@)
    }

    fn encode_raw(&self, buf: &mut Vec<u8>) {
        self.encode_with_signature(&self.sender_signature, buf);
    }
}

impl NewSessionRequest {
    /// This value with its `sender_signature` replaced.
    pub open spec fn with_sender_signature(self, sender_signature: Option<Signature>) -> Self {
        NewSessionRequest { sender_signature, ..self }
    }

    /// Appends the encoding of this value with its `sender_signature` replaced.
    pub fn encode_with_signature(&self, sender_signature: &Option<Signature>, buf: &mut Vec<u8>)
        ensures
            final(buf)@ == old(buf)@ + self.with_sender_signature(*sender_signature).wire(),
    {
        let mut out: Vec<u8> = Vec::new();
        put_u64(1, self.time_stamp, &mut out);
        assert(out@ =~= u64_field(1, self.time_stamp));
        put_optional(2, &self.receiver, &mut out);
        put_optional(3, &self.sender_ephemeral_key, &mut out);
        put_u64(4, self.receiver_bundle_id, &mut out);
        put_u64(5, self.receiver_one_time_prekey_id, &mut out);
        put_optional(6, &self.message, &mut out);
        put_optional(7, sender_signature, &mut out);
        put_u32(8, self.net_id, &mut out);
        put_string(9, &self.protocol_version, &mut out);
        buf.append(&mut out);
    }

    /// The bytes that this value's `sender_signature` signs: its encoding without that field.
    pub fn signed_payload(&self) -> (r: Vec<u8>)
        ensures
            r@ == self.with_sender_signature(None).wire(),
    {
        let none: Option<Signature> = None;
        let mut buf: Vec<u8> = Vec::new();
        self.encode_with_signature(&none, &mut buf);
        assert(buf@ =~= self.with_sender_signature(None).wire());
        buf
    }
}

/// A new session request or a session message.
#[derive(Clone, PartialEq, Eq, Debug)]
pub struct DrMessage {
    pub data: Option<dr_message::Data>,
}

/// A message forwarded by a provider to another entity that it serves.
#[derive(Clone, PartialEq, Eq, Debug)]
pub struct ForwardMessagePayload {
    pub receiver: Option<EntityId>,
    pub dr_message: Option<DrMessage>,
}

} // verus!
