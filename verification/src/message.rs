//! Double-ratchet session messages.
use crate::crypto::DhPublicKey;
use crate::error::BaseError;
use crate::snp::snp_server_api::Message;
use vstd::prelude::*;

verus! {

impl Message {
    /// The sender's current ratchet public key, from the message's header.
    pub fn get_sender_dr_pub_key(&self) -> (r: Result<DhPublicKey, BaseError>)
        ensures
            self.header is None ==> r is Err && r->Err_0 == BaseError::MissingSender,
            self.header matches Some(h) ==> (h.dr_pub_key is None ==> r is Err && r->Err_0
                == BaseError::MissingDrPublicKey),
            self.header matches Some(h) ==> (h.dr_pub_key matches Some(k) ==> (k@.len() != 32
                ==> r is Err && r->Err_0 == BaseError::BadDrPubKeySize)),
            self.header matches Some(h) ==> (h.dr_pub_key matches Some(k) ==> (k@.len() == 32
                ==> (r matches Ok(p) && p@ == k@))),
    {
        let header = match &self.header {
            None => return Err(BaseError::MissingSender),
            Some(h) => h,
        };
        let key = match &header.dr_pub_key {
            None => return Err(BaseError::MissingDrPublicKey),
            Some(k) => k,
        };
        if key.key.len() != 32 {
            return Err(BaseError::BadDrPubKeySize);
        }
        Ok(DhPublicKey::from_bytes(key.key.as_slice()))
    }
}

} // verus!
