//! Ledger transactions: fees, signing, verification and ids.
use crate::api_types_extensions::{id_key_valid, signature_bytes_made, Signed};
use crate::crypto::{
    consistent_key_pair, ed25519_verifies, sha512, sha512_digest, signature_form, IdKeyPair,
    IdPublicKey, IdSignature,
};
use crate::encoding::{encoded, lemma_optional_field_injective, ProtoMessage, bytes_field, encode_to_vec, lemma_bytes_field_injective, lemma_middle_cancel_contra, lemma_u32_field_injective, lemma_u64_field_injective, optional_field, u32_field, u64_field};
use crate::error::BaseError;
use crate::snp::snp_core_types::EntityId;
use crate::snp::snp_blockchain::{data_field, transaction_wire, Transaction, TransactionFee};
use vstd::prelude::*;
use vstd::seq_lib::lemma_concat_associative;
use vstd::slice::{slice_subrange, slice_to_vec};

verus! {

/// The bytes the sender signs: the transaction without its signature, and,
/// when a third party paid the fee, without the fee and the fee signature too.
pub open spec fn sender_payload(tx: Transaction) -> Seq<u8> {
    if tx.fee_signature@.len() == 0 {
        transaction_wire(tx, Seq::empty(), tx.fee, tx.fee_signature@)
    } else {
        transaction_wire(tx, Seq::empty(), None, Seq::empty())
    }
}

/// The bytes a third-party fee payer signs: the transaction without the fee
/// signature.
pub open spec fn fee_payer_payload(tx: Transaction) -> Seq<u8> {
    transaction_wire(tx, tx.signature@, tx.fee, Seq::empty())
}

/// What verifying the sender's signature gives, check by check: the signature
/// must be in form, the sender's key valid, and the signature must verify
/// over the sender's payload.
pub open spec fn transaction_verdict(tx: Transaction) -> Result<(), BaseError> {
    if !signature_form(tx.signature@) {
        Err(BaseError::InvalidSignature)
    } else if !id_key_valid(tx.sender_pub_key@) {
        Err(BaseError::InvalidPublicKey)
    } else if !ed25519_verifies(tx.sender_pub_key@, sender_payload(tx), tx.signature@) {
        Err(BaseError::SignatureMismatch)
    } else {
        Ok(())
    }
}

/// What verifying the fee payer's signature gives, check by check: there must
/// be a fee signature and a fee, the signature in form, the payer's key
/// valid, and the signature must verify over the fee payer's payload.
pub open spec fn fee_signature_verdict(tx: Transaction) -> Result<(), BaseError> {
    if tx.fee_signature@.len() == 0 {
        Err(BaseError::SenderPaidFee)
    } else if tx.fee is None {
        Err(BaseError::MissingExpectedFeeData)
    } else if !signature_form(tx.fee_signature@) {
        Err(BaseError::InvalidSignature)
    } else if !id_key_valid(tx.fee->0.payer_public_key@) {
        Err(BaseError::InvalidPublicKey)
    } else if !ed25519_verifies(
        tx.fee->0.payer_public_key@,
        fee_payer_payload(tx),
        tx.fee_signature@,
    ) {
        Err(BaseError::SignatureMismatch)
    } else {
        Ok(())
    }
}

/// What validating a transaction's fee gives: a fee with an amount must be
/// present, and a fee paid by a third party must be signed and paid by
/// another key than the sender's.
pub open spec fn fee_verdict(tx: Transaction) -> Result<(), BaseError> {
    if tx.fee is None {
        Err(BaseError::MissingFeeData)
    } else if tx.fee->0.amount is None {
        Err(BaseError::MissingFeeAmount)
    } else if tx.fee->0.payer_public_key@.len() != 0 && tx.fee_signature@.len() == 0 {
        Err(BaseError::MissingFeeSignature)
    } else if tx.fee->0.payer_public_key@.len() != 0 && tx.fee->0.payer_public_key@
        == tx.sender_pub_key@ {
        Err(BaseError::SameSenderAndFeePayer)
    } else {
        Ok(())
    }
}

/// Whether two transactions agree on every field but the sender's signature.
pub open spec fn same_but_signature(a: Transaction, b: Transaction) -> bool {
    &&& a.sender_pub_key == b.sender_pub_key
    &&& a.counter == b.counter
    &&& a.entity_id == b.entity_id
    &&& a.net_id == b.net_id
    &&& a.fee == b.fee
    &&& a.fee_signature == b.fee_signature
    &&& a.data == b.data
}

/// Signing then verifying: a transaction whose fee the sender pays, signed
/// with a key pair whose public key is derived from its secret key and is the
/// sender's key, passes verification.
pub proof fn lemma_signed_transaction_verifies(
    before: Transaction,
    after: Transaction,
    kp: (Seq<u8>, Seq<u8>),
)
    requires
        before.fee_signature@.len() == 0,
        same_but_signature(before, after),
        signature_bytes_made(after.signature@, kp, sender_payload(before)),
        consistent_key_pair(kp),
        before.sender_pub_key@ == kp.1,
    ensures
        transaction_verdict(after) == Ok::<(), BaseError>(()),
{
    assert(transaction_wire(after, Seq::empty(), after.fee, after.fee_signature@)
        == transaction_wire(before, Seq::empty(), before.fee, before.fee_signature@));
}

/// Whether two transactions agree on every field but the fee and the fee
/// signature.
pub open spec fn same_but_fee(a: Transaction, b: Transaction) -> bool {
    &&& a.sender_pub_key == b.sender_pub_key
    &&& a.counter == b.counter
    &&& a.entity_id == b.entity_id
    &&& a.net_id == b.net_id
    &&& a.signature == b.signature
    &&& a.data == b.data
}

/// A fee paid by a third party: a transaction without a fee, signed by its
/// sender, to which a third party attaches a fee naming its own public key and
/// signs, passes the sender's verification and the fee payer's; its fee
/// validates when the fee has an amount and the payer is not the sender.
pub proof fn lemma_third_party_fee_transaction_verifies(
    unsigned: Transaction,
    signed: Transaction,
    paid: Transaction,
    sender: (Seq<u8>, Seq<u8>),
    payer: (Seq<u8>, Seq<u8>),
)
    requires
        unsigned.fee is None,
        unsigned.fee_signature@.len() == 0,
        same_but_signature(unsigned, signed),
        signature_bytes_made(signed.signature@, sender, sender_payload(unsigned)),
        consistent_key_pair(sender),
        unsigned.sender_pub_key@ == sender.1,
        same_but_fee(signed, paid),
        paid.fee is Some,
        paid.fee->0.payer_public_key@ == payer.1,
        signature_bytes_made(paid.fee_signature@, payer, fee_payer_payload(paid)),
        consistent_key_pair(payer),
    ensures
        transaction_verdict(paid) == Ok::<(), BaseError>(()),
        fee_signature_verdict(paid) == Ok::<(), BaseError>(()),
        paid.fee->0.amount is Some && payer.1 != sender.1 ==> fee_verdict(paid) == Ok::<
            (),
            BaseError,
        >(()),
{
    assert(paid.fee_signature@.len() != 0);
    assert(sender_payload(paid) == sender_payload(unsigned));
}

impl Signed for Transaction {
    /// Signs the transaction, without its signature, with the sender's key.
    fn sign(&mut self, signer: &IdKeyPair) -> (r: Result<(), BaseError>)
        ensures
            r is Ok,
            same_but_signature(*old(self), *final(self)),
            signature_bytes_made(
                final(self).signature@,
                signer@,
                transaction_wire(*old(self), Seq::empty(), old(self).fee, old(self).fee_signature@),
            ),
    {
        self.signature = Vec::new();
        let payload = encode_to_vec(&*self);
        assert(payload@ == transaction_wire(
            *old(self),
            Seq::empty(),
            old(self).fee,
            old(self).fee_signature@,
        ));
        self.signature = signer.sign(payload.as_slice());
        Ok(())
    }

    /// Verifies the sender's signature on the transaction.
    fn verify_signature(&self) -> (r: Result<(), BaseError>)
        ensures
            r == transaction_verdict(*self),
    {
        let no_signature: Vec<u8> = Vec::new();
        let mut payload: Vec<u8> = Vec::new();
        if self.fee_signature.len() != 0 {
            let no_fee: Option<TransactionFee> = None;
            self.encode_with(no_signature.as_slice(), &no_fee, no_signature.as_slice(), &mut payload);
        } else {
            self.encode_with(
                no_signature.as_slice(),
                &self.fee,
                self.fee_signature.as_slice(),
                &mut payload,
            );
        }
        assert(payload@ =~= sender_payload(*self));
        let signature = match IdSignature::from_bytes(self.signature.as_slice()) {
            None => return Err(BaseError::InvalidSignature),
            Some(s) => s,
        };
        let signer_pub_key = match IdPublicKey::from_bytes(self.sender_pub_key.as_slice()) {
            None => return Err(BaseError::InvalidPublicKey),
            Some(k) => k,
        };
        if !signer_pub_key.verify(payload.as_slice(), &signature) {
            return Err(BaseError::SignatureMismatch);
        }
        Ok(())
    }
}

impl Transaction {
    /// Whether a third party paid the fee: the transaction carries a fee signature.
    pub fn third_party_fee_payer(&self) -> (r: bool)
        ensures
            r == (self.fee_signature@.len() != 0),
    {
        self.fee_signature.len() != 0
    }

    /// Checks that the transaction's fee data is complete and consistent.
    pub fn validate_fee(&self) -> (r: Result<(), BaseError>)
        ensures
            r == fee_verdict(*self),
    {
        let fee = match &self.fee {
            None => return Err(BaseError::MissingFeeData),
            Some(f) => f,
        };
        if fee.amount.is_none() {
            return Err(BaseError::MissingFeeAmount);
        }
        if fee.payer_public_key.len() != 0 && self.fee_signature.len() == 0 {
            return Err(BaseError::MissingFeeSignature);
        }
        if fee.payer_public_key.len() != 0 && crate::byte_seq::bytes_equal(
            fee.payer_public_key.as_slice(),
            self.sender_pub_key.as_slice(),
        ) {
            return Err(BaseError::SameSenderAndFeePayer);
        }
        Ok(())
    }

    /// Verifies a third-party fee payer's signature on the transaction.
    pub fn verify_fee_signature(&self) -> (r: Result<(), BaseError>)
        ensures
            r == fee_signature_verdict(*self),
    {
        if self.fee_signature.len() == 0 {
            return Err(BaseError::SenderPaidFee);
        }
        let fee = match &self.fee {
            None => return Err(BaseError::MissingExpectedFeeData),
            Some(f) => f,
        };
        let no_signature: Vec<u8> = Vec::new();
        let mut payload: Vec<u8> = Vec::new();
        self.encode_with(self.signature.as_slice(), &self.fee, no_signature.as_slice(), &mut payload);
        assert(payload@ =~= fee_payer_payload(*self));
        let signature = match IdSignature::from_bytes(self.fee_signature.as_slice()) {
            None => return Err(BaseError::InvalidSignature),
            Some(s) => s,
        };
        let payer_pub_key = match IdPublicKey::from_bytes(fee.payer_public_key.as_slice()) {
            None => return Err(BaseError::InvalidPublicKey),
            Some(k) => k,
        };
        if !payer_pub_key.verify(payload.as_slice(), &signature) {
            return Err(BaseError::SignatureMismatch);
        }
        Ok(())
    }

    /// The sender's address: the last 20 bytes of its public key.
    pub fn get_sender_address(&self) -> (r: Vec<u8>)
        requires
            self.sender_pub_key@.len() >= 20,
        ensures
            r@ == self.sender_pub_key@.subrange(
                self.sender_pub_key@.len() - 20,
                self.sender_pub_key@.len() as int,
            ),
    {
        let len = self.sender_pub_key.len();
        slice_to_vec(slice_subrange(self.sender_pub_key.as_slice(), len - 20, len))
    }

    /// The fee payer's address: the last 20 bytes of the payer's public key.
    pub fn get_fee_payer_address(&self) -> (r: Vec<u8>)
        requires
            self.fee is Some,
            self.fee->0.payer_public_key@.len() >= 20,
        ensures
            r@ == self.fee->0.payer_public_key@.subrange(
                self.fee->0.payer_public_key@.len() - 20,
                self.fee->0.payer_public_key@.len() as int,
            ),
    {
        let payer = &self.fee.as_ref().unwrap().payer_public_key;
        let len = payer.len();
        slice_to_vec(slice_subrange(payer.as_slice(), len - 20, len))
    }

    /// The transaction's id: the SHA-512 digest of its encoding.
    pub fn get_tx_id(&self) -> (r: Result<Vec<u8>, BaseError>)
        ensures
            r matches Ok(id) && id@ == sha512(self.wire()) && id@.len() == 64,
    {
        let buf = encode_to_vec(self);
        Ok(sha512_digest(buf.as_slice()))
    }
}

/// A transaction's encoding carries its sender key, its counter, its entity
/// and its network id: a transaction changed in only one of them encodes differently,
/// whatever signature, fee and fee signature are written with it, and the
/// bytes its sender signs differ too.
pub proof fn lemma_transaction_encoding_carries_fields(tx: Transaction, sig: Seq<u8>, fee: Option<TransactionFee>, fee_sig: Seq<u8>)
    ensures
        forall|t: Vec<u8>| t@ != tx.sender_pub_key@ ==> transaction_wire((Transaction { sender_pub_key: t, ..tx }), sig, fee, fee_sig) != transaction_wire(tx, sig, fee, fee_sig),
        forall|t: u64| t != tx.counter ==> transaction_wire((Transaction { counter: t, ..tx }), sig, fee, fee_sig) != transaction_wire(tx, sig, fee, fee_sig),
        forall|t: u32| t != tx.net_id ==> transaction_wire((Transaction { net_id: t, ..tx }), sig, fee, fee_sig) != transaction_wire(tx, sig, fee, fee_sig),
        forall|t: Option<EntityId>| encoded(t) != encoded(tx.entity_id) ==> transaction_wire((Transaction { entity_id: t, ..tx }), sig, fee, fee_sig) != transaction_wire(tx, sig, fee, fee_sig),
        forall|t: u32| t != tx.net_id ==> sender_payload((Transaction { net_id: t, ..tx })) != sender_payload(tx),
        forall|t: u64| t != tx.counter ==> sender_payload((Transaction { counter: t, ..tx })) != sender_payload(tx),
{
    assert forall|t: Option<EntityId>| encoded(t) != encoded(tx.entity_id) implies transaction_wire((Transaction { entity_id: t, ..tx }), sig, fee, fee_sig) != transaction_wire(tx, sig, fee, fee_sig) by {
        lemma_transaction_encoding_carries_fields_entity_id(tx, t, sig, fee, fee_sig);
    }
    assert forall|t: u32| t != tx.net_id implies sender_payload((Transaction { net_id: t, ..tx })) != sender_payload(tx) by {
        if tx.fee_signature@.len() == 0 {
            lemma_transaction_encoding_carries_fields_net_id(tx, t, Seq::empty(), tx.fee, tx.fee_signature@);
        } else {
            lemma_transaction_encoding_carries_fields_net_id(tx, t, Seq::empty(), None, Seq::empty());
        }
    }
    assert forall|t: u64| t != tx.counter implies sender_payload((Transaction { counter: t, ..tx })) != sender_payload(tx) by {
        if tx.fee_signature@.len() == 0 {
            lemma_transaction_encoding_carries_fields_counter(tx, t, Seq::empty(), tx.fee, tx.fee_signature@);
        } else {
            lemma_transaction_encoding_carries_fields_counter(tx, t, Seq::empty(), None, Seq::empty());
        }
    }
    assert forall|t: Vec<u8>| t@ != tx.sender_pub_key@ implies transaction_wire((Transaction { sender_pub_key: t, ..tx }), sig, fee, fee_sig) != transaction_wire(tx, sig, fee, fee_sig) by {
        lemma_transaction_encoding_carries_fields_sender_pub_key(tx, t, sig, fee, fee_sig);
    }
    assert forall|t: u64| t != tx.counter implies transaction_wire((Transaction { counter: t, ..tx }), sig, fee, fee_sig) != transaction_wire(tx, sig, fee, fee_sig) by {
        lemma_transaction_encoding_carries_fields_counter(tx, t, sig, fee, fee_sig);
    }
    assert forall|t: u32| t != tx.net_id implies transaction_wire((Transaction { net_id: t, ..tx }), sig, fee, fee_sig) != transaction_wire(tx, sig, fee, fee_sig) by {
        lemma_transaction_encoding_carries_fields_net_id(tx, t, sig, fee, fee_sig);
    }
}

/// Changing only `sender_pub_key` changes the encoding.
proof fn lemma_transaction_encoding_carries_fields_sender_pub_key(tx: Transaction, t: Vec<u8>, sig: Seq<u8>, fee: Option<TransactionFee>, fee_sig: Seq<u8>)
    requires
        t@ != tx.sender_pub_key@,
    ensures
        transaction_wire((Transaction { sender_pub_key: t, ..tx }), sig, fee, fee_sig) != transaction_wire(tx, sig, fee, fee_sig),
{
    let n = (Transaction { sender_pub_key: t, ..tx });
    let p = Seq::<u8>::empty();
    let s = u64_field(2, tx.counter) + optional_field(3, tx.entity_id) + u32_field(4, tx.net_id) + data_field(tx.data) + bytes_field(8, sig) + optional_field(9, fee) + bytes_field(10, fee_sig);
    assert(transaction_wire(tx, sig, fee, fee_sig) =~= p + bytes_field(1, tx.sender_pub_key@) + s);
    assert(transaction_wire(n, sig, fee, fee_sig) =~= p + bytes_field(1, n.sender_pub_key@) + s);
    if bytes_field(1, n.sender_pub_key@) == bytes_field(1, tx.sender_pub_key@) {
        lemma_bytes_field_injective(1, n.sender_pub_key@, tx.sender_pub_key@);
    } else {
        lemma_middle_cancel_contra(p, bytes_field(1, n.sender_pub_key@), bytes_field(1, tx.sender_pub_key@), s);
    }
}

/// Changing only `counter` changes the encoding.
proof fn lemma_transaction_encoding_carries_fields_counter(tx: Transaction, t: u64, sig: Seq<u8>, fee: Option<TransactionFee>, fee_sig: Seq<u8>)
    requires
        t != tx.counter,
    ensures
        transaction_wire((Transaction { counter: t, ..tx }), sig, fee, fee_sig) != transaction_wire(tx, sig, fee, fee_sig),
{
    let n = (Transaction { counter: t, ..tx });
    let p = bytes_field(1, tx.sender_pub_key@);
    let s = optional_field(3, tx.entity_id) + u32_field(4, tx.net_id) + data_field(tx.data) + bytes_field(8, sig) + optional_field(9, fee) + bytes_field(10, fee_sig);
    assert(transaction_wire(tx, sig, fee, fee_sig) =~= p + u64_field(2, tx.counter) + s);
    assert(transaction_wire(n, sig, fee, fee_sig) =~= p + u64_field(2, n.counter) + s);
    if u64_field(2, n.counter) == u64_field(2, tx.counter) {
        lemma_u64_field_injective(2, n.counter, tx.counter);
    } else {
        lemma_middle_cancel_contra(p, u64_field(2, n.counter), u64_field(2, tx.counter), s);
    }
}

/// Changing only `net_id` changes the encoding.
proof fn lemma_transaction_encoding_carries_fields_net_id(tx: Transaction, t: u32, sig: Seq<u8>, fee: Option<TransactionFee>, fee_sig: Seq<u8>)
    requires
        t != tx.net_id,
    ensures
        transaction_wire((Transaction { net_id: t, ..tx }), sig, fee, fee_sig) != transaction_wire(tx, sig, fee, fee_sig),
{
    let n = (Transaction { net_id: t, ..tx });
    let p = bytes_field(1, tx.sender_pub_key@) + u64_field(2, tx.counter) + optional_field(3, tx.entity_id);
    let s = data_field(tx.data) + bytes_field(8, sig) + optional_field(9, fee) + bytes_field(10, fee_sig);
    assert(transaction_wire(tx, sig, fee, fee_sig) =~= p + u32_field(4, tx.net_id) + s);
    assert(transaction_wire(n, sig, fee, fee_sig) =~= p + u32_field(4, n.net_id) + s);
    if u32_field(4, n.net_id) == u32_field(4, tx.net_id) {
        lemma_u32_field_injective(4, n.net_id, tx.net_id);
    } else {
        lemma_middle_cancel_contra(p, u32_field(4, n.net_id), u32_field(4, tx.net_id), s);
    }
}


/// Changing only `entity_id` changes the encoding.
proof fn lemma_transaction_encoding_carries_fields_entity_id(
    tx: Transaction,
    t: Option<EntityId>,
    sig: Seq<u8>,
    fee: Option<TransactionFee>,
    fee_sig: Seq<u8>,
)
    requires
        encoded(t) != encoded(tx.entity_id),
    ensures
        transaction_wire((Transaction { entity_id: t, ..tx }), sig, fee, fee_sig) != transaction_wire(
            tx,
            sig,
            fee,
            fee_sig,
        ),
{
    let n = (Transaction { entity_id: t, ..tx });
    let p = bytes_field(1, tx.sender_pub_key@) + u64_field(2, tx.counter);
    let fx = optional_field(3, tx.entity_id);
    let fn_ = optional_field(3, n.entity_id);
    let a3 = u32_field(4, tx.net_id);
    let a4 = data_field(tx.data);
    let a5 = bytes_field(8, sig);
    let a6 = optional_field(9, fee);
    let a7 = bytes_field(10, fee_sig);
    let s = a3 + a4 + a5 + a6 + a7;
    lemma_concat_associative(p + fx, a3, a4);
    lemma_concat_associative(p + fn_, a3, a4);
    lemma_concat_associative(p + fx, a3 + a4, a5);
    lemma_concat_associative(p + fn_, a3 + a4, a5);
    lemma_concat_associative(p + fx, a3 + a4 + a5, a6);
    lemma_concat_associative(p + fn_, a3 + a4 + a5, a6);
    lemma_concat_associative(p + fx, a3 + a4 + a5 + a6, a7);
    lemma_concat_associative(p + fn_, a3 + a4 + a5 + a6, a7);
    assert(transaction_wire(tx, sig, fee, fee_sig) == p + fx + s);
    assert(transaction_wire(n, sig, fee, fee_sig) == p + fn_ + s);
    if fn_ == fx {
        lemma_optional_field_injective(3, n.entity_id, tx.entity_id);
    } else {
        lemma_middle_cancel_contra(p, fn_, fx, s);
    }
}

} // verus!
