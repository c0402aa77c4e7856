//! Channel bundles: the channel's id and its two signatures.
use crate::api_types_extensions::{make_signature, signature_made};
use crate::crypto::IdKeyPair;
use crate::encoding::{encode_to_vec, ProtoMessage};
use crate::error::BaseError;
use crate::snp::snp_core_types::{ChannelBundle, Signature};
use vstd::prelude::*;

verus! {

impl ChannelBundle {
    /// This bundle with neither signature.
    pub open spec fn without_signatures(self) -> Self {
        ChannelBundle { signature: None, creator_signature: None, ..self }
    }

    /// This bundle with its creator signature replaced.
    pub open spec fn with_creator_signature(self, creator_signature: Option<Signature>) -> Self {
        ChannelBundle { creator_signature, ..self }
    }

    /// The channel id's public key bytes.
    pub fn get_channel_id(&self) -> (r: Result<Vec<u8>, BaseError>)
        ensures
            self.channel_id is None ==> r == Err::<Vec<u8>, BaseError>(BaseError::MissingData),
            self.channel_id matches Some(c) && c.public_key is None ==> r == Err::<
                Vec<u8>,
                BaseError,
            >(BaseError::MissingData),
            self.channel_id matches Some(c) ==> (c.public_key matches Some(k) ==> (r matches Ok(
                id) && id@ == k.key@)),
    {
        match &self.channel_id {
            None => Err(BaseError::MissingData),
            Some(c) => match &c.public_key {
                None => Err(BaseError::MissingData),
                Some(k) => {
                    let id = k.key.clone();
                    assert(id@ =~= k.key@);
                    Ok(id)
                },
            },
        }
    }

    /// Signs the bundle, as it stands, with the channel's key, then signs it,
    /// with the channel's signature, with the creator's key.
    pub fn sign(&mut self, client_pair: &IdKeyPair, channel_pair: &IdKeyPair) -> (r: Result<
        (),
        BaseError,
    >)
        ensures
            r is Ok,
            final(self).without_signatures() == old(self).without_signatures(),
            signature_made(final(self).signature, channel_pair@, old(self).wire()),
            signature_made(
                final(self).creator_signature,
                client_pair@,
                final(self).with_creator_signature(old(self).creator_signature).wire(),
            ),
    {
        let payload = encode_to_vec(&*self);
        self.signature = Some(make_signature(channel_pair, payload.as_slice()));
        let payload = encode_to_vec(&*self);
        self.creator_signature = Some(make_signature(client_pair, payload.as_slice()));
        Ok(())
    }
}

} // verus!
