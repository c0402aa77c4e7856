//! Typed messages and new session requests: signing and verification.
use crate::api_types_extensions::{
    id_key_valid, make_signature, signature_made, Signed, SignedWithExternalVerifier,
};
use crate::crypto::{
    consistent_key_pair, ed25519_verifies, signature_form, IdKeyPair, IdPublicKey, IdSignature,
};
use crate::encoding::{ProtoMessage, bytes_field, encode_to_vec, i32_field, lemma_bytes_field_injective, lemma_i32_field_injective, lemma_middle_cancel_contra, lemma_u64_field_injective, optional_field, u64_field};
use crate::error::BaseError;
use crate::snp::snp_server_api::{NewSessionRequest, TypedMessage};
use vstd::prelude::*;

verus! {

/// What verifying a typed message's signature gives, check by check: the
/// signature must be present and in form, the sender and its key present and a
/// valid key, and the signature must verify over the message's encoding
/// without the signature.
pub open spec fn typed_message_verdict(m: TypedMessage) -> Result<(), BaseError> {
    if m.signature is None {
        Err(BaseError::MissingSignature)
    } else if !signature_form(m.signature->0.signature@) {
        Err(BaseError::InvalidSignature)
    } else if m.sender is None {
        Err(BaseError::MissingSender)
    } else if m.sender->0.public_key is None {
        Err(BaseError::MissingPublicKey)
    } else if !id_key_valid(m.sender->0.public_key->0@) {
        Err(BaseError::InvalidPublicKey)
    } else if !ed25519_verifies(
        m.sender->0.public_key->0@,
        m.with_signature(None).wire(),
        m.signature->0.signature@,
    ) {
        Err(BaseError::SenderSignatureMismatch)
    } else {
        Ok(())
    }
}

/// What verifying a new session request under `signer` gives: the sender's
/// signature must be present and in form, and verify over the request's
/// encoding without it.
pub open spec fn new_session_request_verdict(r: NewSessionRequest, signer: Seq<u8>) -> Result<
    (),
    BaseError,
> {
    if r.sender_signature is None {
        Err(BaseError::MissingMessageSignature)
    } else if !signature_form(r.sender_signature->0.signature@) {
        Err(BaseError::InvalidSignature)
    } else if !ed25519_verifies(
        signer,
        r.with_sender_signature(None).wire(),
        r.sender_signature->0.signature@,
    ) {
        Err(BaseError::SenderSignatureMismatch)
    } else {
        Ok(())
    }
}

/// Signing then verifying: a typed message that carries no signature, signed
/// with a key pair whose public key is derived from its secret key and is the
/// message's sender, passes verification.
pub proof fn lemma_signed_typed_message_verifies(
    before: TypedMessage,
    after: TypedMessage,
    kp: (Seq<u8>, Seq<u8>),
)
    requires
        before.signature is None,
        after.with_signature(None) == before.with_signature(None),
        signature_made(after.signature, kp, before.wire()),
        consistent_key_pair(kp),
        before.sender is Some,
        before.sender->0.public_key is Some,
        before.sender->0.public_key->0@ == kp.1,
    ensures
        typed_message_verdict(after) == Ok::<(), BaseError>(()),
{
    assert(before.with_signature(None) == before);
    assert(after.sender == before.sender);
}

/// Signing then verifying: a new session request that carries no signature,
/// signed with a key pair whose public key is derived from its secret key,
/// passes verification under that public key.
pub proof fn lemma_signed_new_session_request_verifies(
    before: NewSessionRequest,
    after: NewSessionRequest,
    kp: (Seq<u8>, Seq<u8>),
)
    requires
        before.sender_signature is None,
        after.with_sender_signature(None) == before.with_sender_signature(None),
        signature_made(after.sender_signature, kp, before.wire()),
        consistent_key_pair(kp),
    ensures
        new_session_request_verdict(after, kp.1) == Ok::<(), BaseError>(()),
{
    assert(before.with_sender_signature(None) == before);
}

impl Signed for TypedMessage {
    /// Signs the message's encoding, as it stands, with the sender's key.
    fn sign(&mut self, signer: &IdKeyPair) -> (r: Result<(), BaseError>)
        ensures
            r is Ok,
            final(self).with_signature(None) == old(self).with_signature(None),
            signature_made(final(self).signature, signer@, old(self).wire()),
    {
        let payload = encode_to_vec(&*self);
        self.signature = Some(make_signature(signer, payload.as_slice()));
        Ok(())
    }

    /// Verifies the sender's signature on the message.
    fn verify_signature(&self) -> (r: Result<(), BaseError>)
        ensures
            r == typed_message_verdict(*self),
    {
        let signature_data = match &self.signature {
            None => return Err(BaseError::MissingSignature),
            Some(s) => s,
        };
        let payload = self.signed_payload();
        let signature = match IdSignature::from_bytes(signature_data.signature.as_slice()) {
            None => return Err(BaseError::InvalidSignature),
            Some(s) => s,
        };
        let ika = self.get_ika()?;
        if !ika.verify(payload.as_slice(), &signature) {
            return Err(BaseError::SenderSignatureMismatch);
        }
        Ok(())
    }
}

impl TypedMessage {
    /// The sender's ed25519 public key.
    pub fn get_ika(&self) -> (r: Result<IdPublicKey, BaseError>)
        ensures
            self.sender is None ==> r is Err && r->Err_0 == BaseError::MissingSender,
            self.sender matches Some(s) ==> (s.public_key is None ==> r is Err && r->Err_0
                == BaseError::MissingPublicKey),
            self.sender matches Some(s) ==> (s.public_key matches Some(k) ==> (r is Ok
                <==> id_key_valid(k@))),
            self.sender matches Some(s) ==> (s.public_key matches Some(k) ==> (r is Err ==> r->Err_0
                == BaseError::InvalidPublicKey)),
            self.sender matches Some(s) ==> (s.public_key matches Some(k) ==> (r matches Ok(p)
                ==> p@ == k@)),
    {
        match &self.sender {
            None => Err(BaseError::MissingSender),
            Some(s) => match &s.public_key {
                None => Err(BaseError::MissingPublicKey),
                Some(k) => k.as_pub_key(),
            },
        }
    }

    /// The receiver's ed25519 public key.
    pub fn get_receiver_id(&self) -> (r: Result<IdPublicKey, BaseError>)
        ensures
            self.receiver is None ==> r is Err && r->Err_0 == BaseError::MissingReceiver,
            self.receiver matches Some(s) ==> (s.public_key is None ==> r is Err && r->Err_0
                == BaseError::MissingPublicKey),
            self.receiver matches Some(s) ==> (s.public_key matches Some(k) ==> (r is Ok
                <==> id_key_valid(k@))),
            self.receiver matches Some(s) ==> (s.public_key matches Some(k) ==> (r is Err
                ==> r->Err_0 == BaseError::InvalidPublicKey)),
            self.receiver matches Some(s) ==> (s.public_key matches Some(k) ==> (r matches Ok(p)
                ==> p@ == k@)),
    {
        match &self.receiver {
            None => Err(BaseError::MissingReceiver),
            Some(s) => match &s.public_key {
                None => Err(BaseError::MissingPublicKey),
                Some(k) => k.as_pub_key(),
            },
        }
    }
}

impl SignedWithExternalVerifier for NewSessionRequest {
    /// Signs the request's encoding, as it stands, with the sender's key.
    fn sign(&mut self, signer: &IdKeyPair) -> (r: Result<(), BaseError>)
        ensures
            r is Ok,
            final(self).with_sender_signature(None) == old(self).with_sender_signature(None),
            signature_made(final(self).sender_signature, signer@, old(self).wire()),
    {
        let payload = encode_to_vec(&*self);
        self.sender_signature = Some(make_signature(signer, payload.as_slice()));
        Ok(())
    }

    /// Verifies the sender's signature under `signer`.
    fn verify_signature(&self, signer: &IdPublicKey) -> (r: Result<(), BaseError>)
        ensures
            r == new_session_request_verdict(*self, signer@),
    {
        let signature_data = match &self.sender_signature {
            None => return Err(BaseError::MissingMessageSignature),
            Some(s) => s,
        };
        let payload = self.signed_payload();
        let signature = match IdSignature::from_bytes(signature_data.signature.as_slice()) {
            None => return Err(BaseError::InvalidSignature),
            Some(s) => s,
        };
        if !signer.verify(payload.as_slice(), &signature) {
            return Err(BaseError::SenderSignatureMismatch);
        }
        Ok(())
    }
}

/// A typed message's encoding carries its time stamp, its type and its payload:
/// a message changed in only one of them encodes differently, so its signed
/// bytes differ too.
pub proof fn lemma_typed_message_encoding_carries_fields(m: TypedMessage)
    ensures
        forall|t: u64| t != m.time_stamp ==> (TypedMessage { time_stamp: t, ..m }).wire() != m.wire(),
        forall|t: i32| t != m.msg_type ==> (TypedMessage { msg_type: t, ..m }).wire() != m.wire(),
        forall|t: Vec<u8>| t@ != m.message@ ==> (TypedMessage { message: t, ..m }).wire() != m.wire(),
        forall|t: i32| t != m.msg_type ==> (TypedMessage { msg_type: t, ..m }).with_signature(None).wire()
            != m.with_signature(None).wire(),
{
    assert forall|t: i32| t != m.msg_type implies (TypedMessage { msg_type: t, ..m }).with_signature(None).wire()
        != m.with_signature(None).wire() by {
        assert((TypedMessage { msg_type: t, ..m }).with_signature(None) == (TypedMessage { msg_type: t, ..m.with_signature(None) }));
        lemma_typed_message_encoding_carries_fields_msg_type(m.with_signature(None), t);
    }
    assert forall|t: u64| t != m.time_stamp implies (TypedMessage { time_stamp: t, ..m }).wire() != m.wire() by {
        lemma_typed_message_encoding_carries_fields_time_stamp(m, t);
    }
    assert forall|t: i32| t != m.msg_type implies (TypedMessage { msg_type: t, ..m }).wire() != m.wire() by {
        lemma_typed_message_encoding_carries_fields_msg_type(m, t);
    }
    assert forall|t: Vec<u8>| t@ != m.message@ implies (TypedMessage { message: t, ..m }).wire() != m.wire() by {
        lemma_typed_message_encoding_carries_fields_message(m, t);
    }
}

/// Changing only `time_stamp` changes the encoding.
proof fn lemma_typed_message_encoding_carries_fields_time_stamp(m: TypedMessage, t: u64)
    requires
        t != m.time_stamp,
    ensures
        (TypedMessage { time_stamp: t, ..m }).wire() != m.wire(),
{
    let n = (TypedMessage { time_stamp: t, ..m });
    let p = Seq::<u8>::empty();
    let s = i32_field(2, m.msg_type) + bytes_field(3, m.message@) + optional_field(4, m.receiver) + optional_field(5, m.sender) + optional_field(6, m.signature);
    assert(m.wire() =~= p + u64_field(1, m.time_stamp) + s);
    assert(n.wire() =~= p + u64_field(1, n.time_stamp) + s);
    if u64_field(1, n.time_stamp) == u64_field(1, m.time_stamp) {
        lemma_u64_field_injective(1, n.time_stamp, m.time_stamp);
    } else {
        lemma_middle_cancel_contra(p, u64_field(1, n.time_stamp), u64_field(1, m.time_stamp), s);
    }
}

/// Changing only `msg_type` changes the encoding.
proof fn lemma_typed_message_encoding_carries_fields_msg_type(m: TypedMessage, t: i32)
    requires
        t != m.msg_type,
    ensures
        (TypedMessage { msg_type: t, ..m }).wire() != m.wire(),
{
    let n = (TypedMessage { msg_type: t, ..m });
    let p = u64_field(1, m.time_stamp);
    let s = bytes_field(3, m.message@) + optional_field(4, m.receiver) + optional_field(5, m.sender) + optional_field(6, m.signature);
    assert(m.wire() =~= p + i32_field(2, m.msg_type) + s);
    assert(n.wire() =~= p + i32_field(2, n.msg_type) + s);
    if i32_field(2, n.msg_type) == i32_field(2, m.msg_type) {
        lemma_i32_field_injective(2, n.msg_type, m.msg_type);
    } else {
        lemma_middle_cancel_contra(p, i32_field(2, n.msg_type), i32_field(2, m.msg_type), s);
    }
}

/// Changing only `message` changes the encoding.
proof fn lemma_typed_message_encoding_carries_fields_message(m: TypedMessage, t: Vec<u8>)
    requires
        t@ != m.message@,
    ensures
        (TypedMessage { message: t, ..m }).wire() != m.wire(),
{
    let n = (TypedMessage { message: t, ..m });
    let p = u64_field(1, m.time_stamp) + i32_field(2, m.msg_type);
    let s = optional_field(4, m.receiver) + optional_field(5, m.sender) + optional_field(6, m.signature);
    assert(m.wire() =~= p + bytes_field(3, m.message@) + s);
    assert(n.wire() =~= p + bytes_field(3, n.message@) + s);
    if bytes_field(3, n.message@) == bytes_field(3, m.message@) {
        lemma_bytes_field_injective(3, n.message@, m.message@);
    } else {
        lemma_middle_cancel_contra(p, bytes_field(3, n.message@), bytes_field(3, m.message@), s);
    }
}

} // verus!
