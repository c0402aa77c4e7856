//! The data that a transaction carries.
use crate::snp::snp_blockchain::{
    ClientBundleTransactionData, PaymentTransactionData, ProviderBundleTransactionData,
};
use vstd::prelude::*;

verus! {

/// A transaction's payload: a payment or a published identity bundle.
#[derive(Clone, PartialEq, Eq, Debug)]
pub enum Data {
    PaymentTransaction(PaymentTransactionData),
    ProviderBundle(ProviderBundleTransactionData),
    ClientBundle(ClientBundleTransactionData),
}

} // verus!
