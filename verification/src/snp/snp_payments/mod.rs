//! Payment types: addresses, coin amounts, service terms, bills and wallets.
use crate::encoding::{
    bytes_field, i32_field, optional_field, put_bytes, put_i32, put_optional, put_u32, put_u64,
    u32_field, u64_field, ProtoMessage,
};
use vstd::prelude::*;

pub mod payment_response;

verus! {

/// An account id: 20 bytes derived from a public key.
#[derive(PartialEq, Eq, Debug)]
pub struct Address {
    pub data: Vec<u8>,
}

impl View for Address {
    type V = Seq<u8>;

    open spec fn view(&self) -> Seq<u8> {
        self.data@
    }
}

impl Clone for Address {
    fn clone(&self) -> (r: Self)
        ensures
            r@ == self@,
    {
        Address { data: self.data.clone() }
    }
}

impl ProtoMessage for Address {
    open spec fn wire(&self) -> Seq<u8> {
        bytes_field(1, self.data@)
    }

    fn encode_raw(&self, buf: &mut Vec<u8>) {
        put_bytes(1, self.data.as_slice(), buf);
    }
}

/// A non-negative coin amount of one coin type.
#[derive(Clone, Copy, PartialEq, Eq, Debug)]
pub struct Amount {
    pub value: u64,
    /// A `CoinType`, as its number.
    pub coin_type: i32,
}

impl ProtoMessage for Amount {
    open spec fn wire(&self) -> Seq<u8> {
        u64_field(1, self.value) + i32_field(2, self.coin_type)
    }

    fn encode_raw(&self, buf: &mut Vec<u8>) {
        let mut out: Vec<u8> = Vec::new();
        put_u64(1, self.value, &mut out);
        assert(out@ =~= u64_field(1, self.value));
        put_i32(2, self.coin_type, &mut out);
        buf.append(&mut out);
    }
}

/// A provider's service contract: prices, limits and validity.
#[derive(Clone, PartialEq, Eq, Debug)]
pub struct ServiceTerms {
    pub id: u64,
    pub created: u64,
    pub valid_until: u64,
    /// A `PricingModel`, as its number.
    pub pricing_model: i32,
    pub user_id: Vec<u8>,
    pub free_trial_period: u32,
    pub min_balance: Option<Amount>,
    pub max_balance: Option<Amount>,
    pub balance: Option<Amount>,
    pub routing_msg_base_cost: Option<Amount>,
    pub routing_msg_cost_per_byte: Option<Amount>,
    pub data_store_per_byte: Option<Amount>,
    pub registration_fee: Option<Amount>,
    pub monthly_fixed_fee: Option<Amount>,
    pub max_user_storage_space: u64,
    pub max_file_size: u64,
    pub payable_account: Option<Address>,
}

impl ProtoMessage for ServiceTerms {
    open spec fn wire(&self) -> Seq<u8> {
        u64_field(1, self.id) + u64_field(2, self.created) + u64_field(3, self.valid_until)
            + i32_field(4, self.pricing_model) + bytes_field(5, self.user_id@) + u32_field(
            6,
            self.free_trial_period,
        ) + optional_field(7, self.min_balance) + optional_field(8, self.max_balance)
            + optional_field(9, self.balance) + optional_field(10, self.routing_msg_base_cost)
            + optional_field(11, self.routing_msg_cost_per_byte) + optional_field(
            12,
            self.data_store_per_byte,
        ) + optional_field(13, self.registration_fee) + optional_field(14, self.monthly_fixed_fee)
            + u64_field(15, self.max_user_storage_space) + u64_field(16, self.max_file_size)
            + optional_field(17, self.payable_account)
    }

    fn encode_raw(&self, buf: &mut Vec<u8>) {
        let mut out: Vec<u8> = Vec::new();
        put_u64(1, self.id, &mut out);
        assert(out@ =~= u64_field(1, self.id));
        put_u64(2, self.created, &mut out);
        put_u64(3, self.valid_until, &mut out);
        put_i32(4, self.pricing_model, &mut out);
        put_bytes(5, self.user_id.as_slice(), &mut out);
        put_u32(6, self.free_trial_period, &mut out);
        put_optional(7, &self.min_balance, &mut out);
        put_optional(8, &self.max_balance, &mut out);
        put_optional(9, &self.balance, &mut out);
        put_optional(10, &self.routing_msg_base_cost, &mut out);
        put_optional(11, &self.routing_msg_cost_per_byte, &mut out);
        put_optional(12, &self.data_store_per_byte, &mut out);
        put_optional(13, &self.registration_fee, &mut out);
        put_optional(14, &self.monthly_fixed_fee, &mut out);
        put_u64(15, self.max_user_storage_space, &mut out);
        put_u64(16, self.max_file_size, &mut out);
        put_optional(17, &self.payable_account, &mut out);
        buf.append(&mut out);
    }
}

/// A user-signed payment to a provider for one or more items.
#[derive(Clone, PartialEq, Eq, Debug)]
pub struct Payment {
    pub time_stamp: u64,
    pub item_ids: Vec<u64>,
    pub user_id: Vec<u8>,
    pub provider_id: Vec<u8>,
    pub amount: Option<Amount>,
    pub signature: Vec<u8>,
}

#[derive(Clone, PartialEq, Eq, Debug)]
pub struct TransactionId {
    pub id: Vec<u8>,
}

/// A provider-signed statement of a user's balance, credits and payments.
#[derive(Clone, PartialEq, Eq, Debug)]
pub struct Bill {
    pub generated: u64,
    pub balance: Option<Amount>,
    pub credit_transactions_ids: Vec<TransactionId>,
    pub section: Vec<BillSection>,
    pub signature: Vec<u8>,
}

#[derive(Clone, PartialEq, Eq, Debug)]
pub struct BillSection {
    pub service_terms: Option<ServiceTerms>,
    pub payments: Vec<Payment>,
}

/// Built-in coin types.
#[derive(Clone, Copy, PartialEq, Eq, Debug)]
pub enum CoinType {
    Core,
    Stable,
}

impl CoinType {
    /// The number that stands for this coin type on the wire.
    pub fn to_i32(self) -> (r: i32)
        ensures
            r == match self {
                CoinType::Core => 0i32,
                CoinType::Stable => 1i32,
            },
    {
        match self {
            CoinType::Core => 0,
            CoinType::Stable => 1,
        }
    }

    /// The coin type that a number stands for, if any.
    pub fn from_i32(v: i32) -> (r: Option<CoinType>)
        ensures
            r == if v == 0 {
                Some(CoinType::Core)
            } else if v == 1 {
                Some(CoinType::Stable)
            } else {
                None::<CoinType>
            },
    {
        if v == 0 {
            Some(CoinType::Core)
        } else if v == 1 {
            Some(CoinType::Stable)
        } else {
            None
        }
    }
}

/// How a user pays a provider.
#[derive(Clone, Copy, PartialEq, Eq, Debug)]
pub enum PricingModel {
    PayPerUsage,
    PayFixedMonthly,
}

impl PricingModel {
    /// The number that stands for this pricing model on the wire.
    pub fn to_i32(self) -> (r: i32)
        ensures
            r == match self {
                PricingModel::PayPerUsage => 0i32,
                PricingModel::PayFixedMonthly => 1i32,
            },
    {
        match self {
            PricingModel::PayPerUsage => 0,
            PricingModel::PayFixedMonthly => 1,
        }
    }

    /// The pricing model that a number stands for, if any.
    pub fn from_i32(v: i32) -> (r: Option<PricingModel>)
        ensures
            r == if v == 0 {
                Some(PricingModel::PayPerUsage)
            } else if v == 1 {
                Some(PricingModel::PayFixedMonthly)
            } else {
                None::<PricingModel>
            },
    {
        if v == 0 {
            Some(PricingModel::PayPerUsage)
        } else if v == 1 {
            Some(PricingModel::PayFixedMonthly)
        } else {
            None
        }
    }
}

/// A request by a serviced user to pay its provider.
#[derive(Clone, PartialEq, Eq, Debug)]
pub struct PaymentRequest {
    pub payment: Option<Payment>,
}

#[derive(Clone, PartialEq, Eq, Debug)]
pub struct PaymentResponse {
    /// A `payment_response::Result`, as its number.
    pub result: i32,
    pub balance: Option<Amount>,
    pub check_balance: bool,
}

#[derive(Clone, PartialEq, Eq, Debug)]
pub struct ServiceContractRequest {}

#[derive(Clone, PartialEq, Eq, Debug)]
pub struct ServiceContractResponse {
    pub balance: Option<Amount>,
    pub service_terms: Option<ServiceTerms>,
}

#[derive(Clone, PartialEq, Eq, Debug)]
pub struct GetBillRequest {}

#[derive(Clone, PartialEq, Eq, Debug)]
pub struct GetBillResponse {
    pub bill: Option<Bill>,
}

/// A wallet account: a derivation index and the public key it yields.
#[derive(Clone, PartialEq, Eq, Debug)]
pub struct Account {
    pub created: u64,
    pub name: String,
    pub derivation_index: u32,
    pub pub_key: Vec<u8>,
}

#[derive(Clone, PartialEq, Eq, Debug)]
pub struct Seed {
    /// A `SeedModel`, as its number.
    pub model: i32,
    /// A `SeedType`, as its number.
    pub seed_type: i32,
    pub seed: Vec<u8>,
}

/// A hierarchical deterministic wallet.
#[derive(Clone, PartialEq, Eq, Debug)]
pub struct Wallet {
    pub name: String,
    pub created: u64,
    pub account: Vec<Account>,
    pub seed: Option<Seed>,
}

/// The wallets owned by one entity.
#[derive(Clone, PartialEq, Eq, Debug)]
pub struct Safe {
    pub name: String,
    pub created: u64,
    pub cold_wallet: Option<Wallet>,
    pub hot_wallet: Option<Wallet>,
    pub identity_wallet: Option<Wallet>,
    pub additional_wallets: Vec<Wallet>,
}

/// Where a wallet's seed is kept.
#[derive(Clone, Copy, PartialEq, Eq, Debug)]
pub enum SeedModel {
    HwLedger,
    Hot,
}

#[derive(Clone, Copy, PartialEq, Eq, Debug)]
pub enum SeedType {
    Bip32,
}

} // verus!
