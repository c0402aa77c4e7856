//! Payment addresses.
use crate::snp::snp_core_types::PublicKey;
use crate::snp::snp_payments::Address;
use vstd::prelude::*;
use vstd::slice::{slice_subrange, slice_to_vec};

verus! {

/// Length of an ed25519 public key.
pub const PUBLIC_KEY_LENGTH: usize = 32;

/// Length of an address.
pub const ADDRESS_LEN: usize = 20;

impl Address {
    /// The address of a public key: the key's bytes from the twelfth on, which
    /// for a 32-byte key are its last 20.
    pub fn new(pub_key: &PublicKey) -> (r: Address)
        requires
            pub_key@.len() >= PUBLIC_KEY_LENGTH - ADDRESS_LEN,
        ensures
            r@ == pub_key@.subrange((PUBLIC_KEY_LENGTH - ADDRESS_LEN) as int, pub_key@.len() as int),
    {
        let key = pub_key.key.as_slice();
        let tail = slice_subrange(key, PUBLIC_KEY_LENGTH - ADDRESS_LEN, key.len());
        Address { data: slice_to_vec(tail) }
    }
}

} // verus!
