//! Forwarded messages: the receiver's key.
use crate::api_types_extensions::id_key_valid;
use crate::crypto::IdPublicKey;
use crate::error::BaseError;
use crate::snp::snp_server_api::ForwardMessagePayload;
use vstd::prelude::*;

verus! {

impl ForwardMessagePayload {
    /// The receiver's ed25519 public key.
    pub fn get_receiver_pub_key(&self) -> (r: Result<IdPublicKey, BaseError>)
        ensures
            self.receiver is None ==> r is Err && r->Err_0 == BaseError::MissingReceiverId,
            self.receiver matches Some(s) ==> (s.public_key is None ==> r is Err && r->Err_0
                == BaseError::MissingPubKey),
            self.receiver matches Some(s) ==> (s.public_key matches Some(k) ==> (r is Ok
                <==> id_key_valid(k@))),
            self.receiver matches Some(s) ==> (s.public_key matches Some(k) ==> (r is Err
                ==> r->Err_0 == BaseError::InvalidPublicKey)),
            self.receiver matches Some(s) ==> (s.public_key matches Some(k) ==> (r matches Ok(p)
                ==> p@ == k@)),
    {
        match &self.receiver {
            None => Err(BaseError::MissingReceiverId),
            Some(s) => match &s.public_key {
                None => Err(BaseError::MissingPubKey),
                Some(k) => k.as_pub_key(),
            },
        }
    }
}

} // verus!
