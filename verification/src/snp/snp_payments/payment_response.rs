//! The outcome of a payment request.
use vstd::prelude::*;

verus! {

/// Whether a provider accepted a payment.
#[derive(Clone, Copy, PartialEq, Eq, Debug)]
pub enum Result {
    Accepted,
    RejectedInsufficientFunds,
    RejectedInternalError,
}

} // verus!
