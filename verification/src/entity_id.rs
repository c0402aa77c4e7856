//! Entity ids: a public key and a nickname.
use crate::api_types_extensions::id_key_valid;
use crate::crypto::IdPublicKey;
use crate::error::BaseError;
use crate::snp::snp_core_types::{EntityId, PublicKey};
use vstd::prelude::*;

verus! {

impl EntityId {
    /// The entity's ed25519 public key.
    pub fn get_ed_pub_key(&self) -> (r: Result<IdPublicKey, BaseError>)
        ensures
            self.public_key is None ==> r is Err && r->Err_0 == BaseError::MissingPublicKey,
            self.public_key matches Some(k) ==> (r is Ok <==> id_key_valid(k@)),
            self.public_key matches Some(k) ==> (r is Err ==> r->Err_0
                == BaseError::InvalidPublicKey),
            self.public_key matches Some(k) ==> (r matches Ok(p) ==> p@ == k@),
    {
        match &self.public_key {
            None => Err(BaseError::MissingPublicKey),
            Some(k) => k.as_pub_key(),
        }
    }

    /// An entity id for a public key and a nickname.
    pub fn new(public_key: PublicKey, nickname: String) -> (r: EntityId)
        ensures
            r.public_key == Some(public_key),
            r.nickname == nickname,
    {
        EntityId { public_key: Some(public_key), nickname }
    }

    /// The bytes of the entity's public key.
    pub fn get_id(&self) -> (r: Result<&Vec<u8>, BaseError>)
        ensures
            self.public_key is None ==> r == Err::<&Vec<u8>, BaseError>(BaseError::MissingPubKey),
            self.public_key matches Some(k) ==> r == Ok::<&Vec<u8>, BaseError>(&k.key),
    {
        match &self.public_key {
            Some(k) => Ok(&k.key),
            None => Err(BaseError::MissingPubKey),
        }
    }
}

} // verus!
