//! New session requests: the receiver, the sender's keys and the session id.
use crate::api_types_extensions::id_key_valid;
use crate::crypto::{DhPublicKey, IdPublicKey};
use crate::error::BaseError;
use crate::snp::snp_server_api::NewSessionRequest;
use vstd::prelude::*;

verus! {

impl NewSessionRequest {
    /// The receiver's ed25519 public key.
    pub fn get_receiver(&self) -> (r: Result<IdPublicKey, BaseError>)
        ensures
            self.receiver is None ==> r is Err && r->Err_0 == BaseError::MissingReceiver,
            self.receiver matches Some(s) ==> (s.public_key is None ==> r is Err && r->Err_0
                == BaseError::MissingPublicKey),
            self.receiver matches Some(s) ==> (s.public_key matches Some(k) ==> (r is Ok
                <==> id_key_valid(k@))),
            self.receiver matches Some(s) ==> (s.public_key matches Some(k) ==> (r is Err
                ==> r->Err_0 == BaseError::InvalidPublicKey)),
            self.receiver matches Some(s) ==> (s.public_key matches Some(k) ==> (r matches Ok(p)
                ==> p@ == k@)),
    {
        match &self.receiver {
            None => Err(BaseError::MissingReceiver),
            Some(s) => match &s.public_key {
                None => Err(BaseError::MissingPublicKey),
                Some(k) => k.as_pub_key(),
            },
        }
    }

    /// The sender's current ratchet public key, from the first message.
    pub fn get_sender_dr_pub_key(&self) -> (r: Result<DhPublicKey, BaseError>)
        ensures
            self.message is None ==> r is Err && r->Err_0 == BaseError::MissingMsg,
            self.message matches Some(m) ==> (m.header is None ==> r is Err && r->Err_0
                == BaseError::MissingSender),
            self.message matches Some(m) ==> (m.header matches Some(h) ==> (h.dr_pub_key is None
                ==> r is Err && r->Err_0 == BaseError::MissingDrPublicKey)),
            self.message matches Some(m) ==> (m.header matches Some(h) ==> (
            h.dr_pub_key matches Some(k) ==> (k@.len() != 32 ==> r is Err && r->Err_0
                == BaseError::BadDrPubKeySize))),
            self.message matches Some(m) ==> (m.header matches Some(h) ==> (
            h.dr_pub_key matches Some(k) ==> (k@.len() == 32 ==> (r matches Ok(p) && p@ == k@)))),
    {
        match &self.message {
            None => Err(BaseError::MissingMsg),
            Some(m) => m.get_sender_dr_pub_key(),
        }
    }

    /// The double-ratchet session id, from the first message's header.
    pub fn get_dr_session_id(&self) -> (r: Result<u64, BaseError>)
        ensures
            self.message is None ==> r == Err::<u64, BaseError>(BaseError::MissingMessage),
            self.message matches Some(m) ==> (m.header is None ==> r == Err::<u64, BaseError>(
                BaseError::MissingHeader,
            )),
            self.message matches Some(m) ==> (m.header matches Some(h) ==> r == Ok::<u64, BaseError>(
                h.session_id,
            )),
    {
        match &self.message {
            None => Err(BaseError::MissingMessage),
            Some(m) => match &m.header {
                None => Err(BaseError::MissingHeader),
                Some(h) => Ok(h.session_id),
            },
        }
    }

    /// The sender's ephemeral x25519 key.
    pub fn get_eka(&self) -> (r: Result<DhPublicKey, BaseError>)
        ensures
            self.sender_ephemeral_key is None ==> r is Err && r->Err_0
                == BaseError::MissingEphemeralKey,
            self.sender_ephemeral_key matches Some(k) ==> (k@.len() != 32 ==> r is Err && r->Err_0
                == BaseError::BadEkaSize),
            self.sender_ephemeral_key matches Some(k) ==> (k@.len() == 32 ==> (r matches Ok(p)
                && p@ == k@)),
    {
        let key = match &self.sender_ephemeral_key {
            None => return Err(BaseError::MissingEphemeralKey),
            Some(k) => k,
        };
        if key.key.len() != 32 {
            return Err(BaseError::BadEkaSize);
        }
        Ok(DhPublicKey::from_bytes(key.key.as_slice()))
    }
}

} // verus!
