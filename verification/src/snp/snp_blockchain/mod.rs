//! Blockchain types: accounts, blocks and transactions.
use crate::encoding::{
    bytes_field, delimited, optional_field, put_bytes, put_message, put_optional, put_u32,
    put_u64, u32_field, u64_field, ProtoMessage,
};
use crate::snp::snp_core_types::{
    EntityId, ProviderIdentityBundle, ProviderSignedClientIdentityBundle,
};
use crate::snp::snp_payments::{Address, Amount, TransactionId};
use vstd::prelude::*;

pub mod transaction;

verus! {

/// An account on the ledger: its address, nonce and balances.
#[derive(Clone, PartialEq, Eq, Debug)]
pub struct Account {
    pub address: Option<Address>,
    pub nonce: u64,
    /// at most one balance per coin type
    pub balances: Vec<Amount>,
}

/// A block of transactions sealed by an entity.
#[derive(Clone, PartialEq, Eq, Debug)]
pub struct Block {
    pub id: u64,
    pub transactions: Vec<Transaction>,
    pub sealer: Option<EntityId>,
    pub signature: Vec<u8>,
}

/// A transaction's fee and, when a third party pays it, the payer's key.
#[derive(Clone, PartialEq, Eq, Debug)]
pub struct TransactionFee {
    pub amount: Option<Amount>,
    /// empty when the sender pays the fee
    pub payer_public_key: Vec<u8>,
}

impl ProtoMessage for TransactionFee {
    open spec fn wire(&self) -> Seq<u8> {
        optional_field(1, self.amount) + bytes_field(2, self.payer_public_key@)
    }

    fn encode_raw(&self, buf: &mut Vec<u8>) {
        let mut out: Vec<u8> = Vec::new();
        put_optional(1, &self.amount, &mut out);
        assert(out@ =~= optional_field(1, self.amount));
        put_bytes(2, self.payer_public_key.as_slice(), &mut out);
        buf.append(&mut out);
    }
}

/// A ledger transaction. The sender signs every field but the fee and the
/// fee signature when a third party pays the fee; the payer then signs every
/// other field.
#[derive(Clone, PartialEq, Eq, Debug)]
pub struct Transaction {
    pub sender_pub_key: Vec<u8>,
    pub counter: u64,
    pub entity_id: Option<EntityId>,
    pub net_id: u32,
    pub signature: Vec<u8>,
    pub fee: Option<TransactionFee>,
    pub fee_signature: Vec<u8>,
    pub data: Option<transaction::Data>,
}

/// The encoding of a transaction's payload, at the position of its lowest tag.
pub open spec fn data_field(d: Option<transaction::Data>) -> Seq<u8> {
    match d {
        Some(transaction::Data::PaymentTransaction(p)) => delimited(5, p.wire()),
        Some(transaction::Data::ProviderBundle(p)) => delimited(6, p.wire()),
        Some(transaction::Data::ClientBundle(c)) => delimited(7, c.wire()),
        None => seq![],
    }
}

fn put_data(d: &Option<transaction::Data>, buf: &mut Vec<u8>)
    ensures
        final(buf)@ == old(buf)@ + data_field(*d),
{
    match d {
        Some(transaction::Data::PaymentTransaction(p)) => put_message(5, p, buf),
        Some(transaction::Data::ProviderBundle(p)) => put_message(6, p, buf),
        Some(transaction::Data::ClientBundle(c)) => put_message(7, c, buf),
        None => {
            assert(old(buf)@ + data_field(*d) =~= old(buf)@);
        },
    }
}

/// A transaction's encoding with its signature, fee and fee signature given.
pub open spec fn transaction_wire(
    tx: Transaction,
    signature: Seq<u8>,
    fee: Option<TransactionFee>,
    fee_signature: Seq<u8>,
) -> Seq<u8> {
    bytes_field(1, tx.sender_pub_key@) + u64_field(2, tx.counter) + optional_field(3, tx.entity_id)
        + u32_field(4, tx.net_id) + data_field(tx.data) + bytes_field(8, signature)
        + optional_field(9, fee) + bytes_field(10, fee_signature)
}

impl Transaction {
    /// Appends the transaction's encoding with its signature, fee and fee
    /// signature replaced by the given ones.
    pub fn encode_with(
        &self,
        signature: &[u8],
        fee: &Option<TransactionFee>,
        fee_signature: &[u8],
        buf: &mut Vec<u8>,
    )
        ensures
            final(buf)@ == old(buf)@ + transaction_wire(*self, signature@, *fee, fee_signature@),
    {
        let mut out: Vec<u8> = Vec::new();
        put_bytes(1, self.sender_pub_key.as_slice(), &mut out);
        assert(out@ =~= bytes_field(1, self.sender_pub_key@));
        put_u64(2, self.counter, &mut out);
        put_optional(3, &self.entity_id, &mut out);
        put_u32(4, self.net_id, &mut out);
        put_data(&self.data, &mut out);
        put_bytes(8, signature, &mut out);
        put_optional(9, fee, &mut out);
        put_bytes(10, fee_signature, &mut out);
        buf.append(&mut out);
    }
}

impl ProtoMessage for Transaction {
    open spec fn wire(&self) -> Seq<u8> {
        transaction_wire(*self, self.signature@, self.fee, self.fee_signature@)
    }

    fn encode_raw(&self, buf: &mut Vec<u8>) {
        self.encode_with(self.signature.as_slice(), &self.fee, self.fee_signature.as_slice(), buf);
    }
}

/// A payment from the sender to a receiver's account.
#[derive(Clone, PartialEq, Eq, Debug)]
pub struct PaymentTransactionData {
    pub receiver: Option<Address>,
    pub coins: Option<Amount>,
    /// the invoice or contract this payment is for
    pub id: u64,
}

impl ProtoMessage for PaymentTransactionData {
    open spec fn wire(&self) -> Seq<u8> {
        optional_field(1, self.receiver) + optional_field(3, self.coins) + u64_field(4, self.id)
    }

    fn encode_raw(&self, buf: &mut Vec<u8>) {
        let mut out: Vec<u8> = Vec::new();
        put_optional(1, &self.receiver, &mut out);
        assert(out@ =~= optional_field(1, self.receiver));
        put_optional(3, &self.coins, &mut out);
        put_u64(4, self.id, &mut out);
        buf.append(&mut out);
    }
}

/// A provider identity bundle published on the ledger.
#[derive(Clone, PartialEq, Eq, Debug)]
pub struct ProviderBundleTransactionData {
    pub provider_bundle: Option<ProviderIdentityBundle>,
}

impl ProtoMessage for ProviderBundleTransactionData {
    open spec fn wire(&self) -> Seq<u8> {
        optional_field(1, self.provider_bundle)
    }

    fn encode_raw(&self, buf: &mut Vec<u8>) {
        put_optional(1, &self.provider_bundle, buf);
    }
}

/// A provider-signed client bundle published on the ledger.
#[derive(Clone, PartialEq, Eq, Debug)]
pub struct ClientBundleTransactionData {
    pub client_bundle: Option<ProviderSignedClientIdentityBundle>,
}

impl ProtoMessage for ClientBundleTransactionData {
    open spec fn wire(&self) -> Seq<u8> {
        optional_field(1, self.client_bundle)
    }

    fn encode_raw(&self, buf: &mut Vec<u8>) {
        put_optional(1, &self.client_bundle, buf);
    }
}

/// What is known of a transaction in the pool or on the ledger.
#[derive(Clone, PartialEq, Eq, Debug)]
pub struct TransactionInfo {
    pub id: Option<TransactionId>,
    /// A `TransactionState`, as its number.
    pub state: i32,
    pub transaction: Option<Transaction>,
    /// A `TransactionType`, as its number.
    pub transaction_type: i32,
    pub block_id: u64,
}

/// Where a transaction stands.
#[derive(Clone, Copy, PartialEq, Eq, Debug)]
pub enum TransactionState {
    Unknown,
    Submitted,
    RejectedUnknownSender,
    RejectedInternalError,
    RejectedInvalidCounter,
    RejectedInvalidData,
    RejectedInvalidSignature,
    RejectedInsufficientFunds,
    Confirmed,
    Final,
    Unrecognized,
}

/// Kinds of transaction.
#[derive(Clone, Copy, PartialEq, Eq, Debug)]
pub enum TransactionType {
    Unknown,
    SendCoin,
    SetProviderBundle,
    SetClientBundle,
}

} // verus!
