//! Public keys: as ed25519 keys, as x25519 keys, and the address they give.
use crate::api_types_extensions::id_key_valid;
use crate::crypto::{DhPublicKey, IdPublicKey};
use crate::error::BaseError;
use crate::snp::snp_core_types::PublicKey;
use crate::snp::snp_payments::Address;
use vstd::prelude::*;
use vstd::slice::{slice_subrange, slice_to_vec};

verus! {

impl PublicKey {
    /// The key as an ed25519 public key.
    pub fn as_pub_key(&self) -> (r: Result<IdPublicKey, BaseError>)
        ensures
            r is Ok <==> id_key_valid(self@),
            r matches Ok(k) ==> k@ == self@,
            r is Err ==> r == Err::<IdPublicKey, BaseError>(BaseError::InvalidPublicKey),
    {
        match IdPublicKey::from_bytes(self.key.as_slice()) {
            Some(k) => Ok(k),
            None => Err(BaseError::InvalidPublicKey),
        }
    }

    /// The key as an x25519 public key.
    pub fn as_x25519_pub_key(&self) -> (r: Result<DhPublicKey, BaseError>)
        ensures
            r is Ok <==> self@.len() == 32,
            r matches Ok(k) ==> k@ == self@,
            r is Err ==> r == Err::<DhPublicKey, BaseError>(BaseError::InvalidKeySize),
    {
        if self.key.len() != 32 {
            return Err(BaseError::InvalidKeySize);
        }
        Ok(DhPublicKey::from_bytes(self.key.as_slice()))
    }

    /// The address of a 32-byte key: its last 20 bytes.
    pub fn get_address(&self) -> (r: Address)
        requires
            self@.len() == 32,
        ensures
            r@ == self@.subrange(12, 32),
    {
        let tail = slice_subrange(self.key.as_slice(), 12, 32);
        Address { data: slice_to_vec(tail) }
    }
}

} // verus!
