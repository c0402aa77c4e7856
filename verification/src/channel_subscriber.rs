//! A channel's subscriber and its id.
use crate::byte_seq::bytes_equal;
use crate::error::BaseError;
use crate::snp::snp_core_types::ChannelSubscriber;
use vstd::prelude::*;

verus! {

/// Whether the subscriber's id (its user's public key) is present.
pub open spec fn has_subscriber_id(s: ChannelSubscriber) -> bool {
    s.user_id matches Some(u) && u.public_key is Some
}

/// The subscriber's id, when present.
pub open spec fn subscriber_id(s: ChannelSubscriber) -> Seq<u8> {
    s.user_id->0.public_key->0.key@
}

/// Whether the subscriber's id is present and equals `id`.
pub open spec fn subscriber_id_is(s: ChannelSubscriber, id: Seq<u8>) -> bool {
    has_subscriber_id(s) && subscriber_id(s) == id
}

impl ChannelSubscriber {
    /// The subscriber's id: its user's public key bytes.
    pub fn get_subscriber_id(&self) -> (r: Result<&Vec<u8>, BaseError>)
        ensures
            self.user_id is None ==> r == Err::<&Vec<u8>, BaseError>(BaseError::MissingClientId),
            self.user_id matches Some(u) && u.public_key is None ==> r == Err::<
                &Vec<u8>,
                BaseError,
            >(BaseError::MissingPubKey),
            self.user_id matches Some(u) ==> (u.public_key matches Some(k) ==> r == Ok::<
                &Vec<u8>,
                BaseError,
            >(&k.key)),
    {
        match &self.user_id {
            None => Err(BaseError::MissingClientId),
            Some(u) => match &u.public_key {
                None => Err(BaseError::MissingPubKey),
                Some(k) => Ok(&k.key),
            },
        }
    }

    /// Whether the subscriber's id is `an_id`.
    pub fn has_subscriber_id(&self, an_id: &[u8]) -> (r: bool)
        requires
            has_subscriber_id(*self),
        ensures
            r == (subscriber_id(*self) == an_id@),
    {
        let u = self.user_id.as_ref().unwrap();
        let k = u.public_key.as_ref().unwrap();
        bytes_equal(k.key.as_slice(), an_id)
    }
}

} // verus!
