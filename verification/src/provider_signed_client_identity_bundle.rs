//! Client bundles published and signed by the client's provider.
use crate::api_types_extensions::{make_signature, signature_made, Signed};
use crate::client_identity_bundle::client_bundle_verdict;
use crate::crypto::{consistent_key_pair, ed25519_verifies, signature_form, IdKeyPair, IdSignature};
use crate::encoding::{encode_to_vec, ProtoMessage};
use crate::error::BaseError;
use crate::provider_identity_bundle::provider_bundle_verdict;
use crate::snp::snp_core_types::{EntityId, ProviderSignedClientIdentityBundle};
use vstd::prelude::*;

verus! {

/// What verifying a provider-signed client bundle gives, check by check: the
/// client bundle and its provider bundle must be present, the client's
/// signature on its bundle and the provider's on its own must verify, the
/// provider's signature on the whole must be present and in form, and it must
/// verify under the provider's id over the encoding without that signature.
pub open spec fn provider_signed_client_verdict(b: ProviderSignedClientIdentityBundle) -> Result<
    (),
    BaseError,
> {
    if b.client_bundle is None {
        Err(BaseError::MissingClientBundle)
    } else if b.client_bundle->0.provider_bundle is None {
        Err(BaseError::MissingProviderBundle)
    } else if client_bundle_verdict(b.client_bundle->0) is Err {
        client_bundle_verdict(b.client_bundle->0)
    } else if provider_bundle_verdict(b.client_bundle->0.provider_bundle->0) is Err {
        provider_bundle_verdict(b.client_bundle->0.provider_bundle->0)
    } else if b.signature is None {
        Err(BaseError::MissingMessageSignature)
    } else if !signature_form(b.signature->0.signature@) {
        Err(BaseError::InvalidSignature)
    } else if !ed25519_verifies(
        b.client_bundle->0.provider_bundle->0.provider_id->0.public_key->0@,
        b.with_signature(None).wire(),
        b.signature->0.signature@,
    ) {
        Err(BaseError::ProviderSignatureMismatch)
    } else {
        Ok(())
    }
}

/// Signing then verifying: a provider-signed client bundle that carries no
/// signature, whose client and provider bundles verify, signed with a key pair
/// whose public key is derived from its secret key and is the provider's id,
/// passes verification.
pub proof fn lemma_signed_provider_client_bundle_verifies(
    before: ProviderSignedClientIdentityBundle,
    after: ProviderSignedClientIdentityBundle,
    kp: (Seq<u8>, Seq<u8>),
)
    requires
        before.signature is None,
        before.client_bundle is Some,
        before.client_bundle->0.provider_bundle is Some,
        client_bundle_verdict(before.client_bundle->0) == Ok::<(), BaseError>(()),
        provider_bundle_verdict(before.client_bundle->0.provider_bundle->0) == Ok::<(), BaseError>(
            (),
        ),
        before.client_bundle->0.provider_bundle->0.provider_id->0.public_key->0@ == kp.1,
        after.with_signature(None) == before.with_signature(None),
        signature_made(after.signature, kp, before.wire()),
        consistent_key_pair(kp),
    ensures
        provider_signed_client_verdict(after) == Ok::<(), BaseError>(()),
{
    assert(before.with_signature(None) == before);
    assert(after.client_bundle == before.client_bundle);
}

impl Signed for ProviderSignedClientIdentityBundle {
    /// Signs the bundle's encoding, as it stands, with the provider's key.
    fn sign(&mut self, signer: &IdKeyPair) -> (r: Result<(), BaseError>)
        ensures
            r is Ok,
            final(self).with_signature(None) == old(self).with_signature(None),
            signature_made(final(self).signature, signer@, old(self).wire()),
    {
        let payload = encode_to_vec(&*self);
        self.signature = Some(make_signature(signer, payload.as_slice()));
        Ok(())
    }

    /// Verifies the client's signature on its bundle, the provider's signature
    /// on its own bundle, and the provider's signature on the whole.
    fn verify_signature(&self) -> (r: Result<(), BaseError>)
        ensures
            r == provider_signed_client_verdict(*self),
    {
        let client_bundle = match &self.client_bundle {
            None => return Err(BaseError::MissingClientBundle),
            Some(b) => b,
        };
        let provider_bundle = match &client_bundle.provider_bundle {
            None => return Err(BaseError::MissingProviderBundle),
            Some(b) => b,
        };
        client_bundle.verify_signature()?;
        provider_bundle.verify_signature()?;
        let provider_id = provider_bundle.provider_id.as_ref().unwrap();
        let provider_key_data = match &provider_id.public_key {
            None => return Err(BaseError::MissingPublicKey),
            Some(k) => k,
        };
        let provider_pub_key = provider_key_data.as_pub_key()?;
        let signature_data = match &self.signature {
            None => return Err(BaseError::MissingMessageSignature),
            Some(s) => s,
        };
        let payload = self.signed_payload();
        let signature = match IdSignature::from_bytes(signature_data.signature.as_slice()) {
            None => return Err(BaseError::InvalidSignature),
            Some(s) => s,
        };
        if !provider_pub_key.verify(payload.as_slice(), &signature) {
            return Err(BaseError::ProviderSignatureMismatch);
        }
        Ok(())
    }
}

impl ProviderSignedClientIdentityBundle {
    /// The bytes of the client's public id.
    pub fn get_client_id(&self) -> (r: Result<Vec<u8>, BaseError>)
        ensures
            self.client_bundle is None ==> r == Err::<Vec<u8>, BaseError>(
                BaseError::MissingClientBundle,
            ),
            self.client_bundle matches Some(b) ==> (b.client_id is None ==> r == Err::<
                Vec<u8>,
                BaseError,
            >(BaseError::MissingClientId)),
            self.client_bundle matches Some(b) ==> (b.client_id matches Some(e) ==> (
            e.public_key is None ==> r == Err::<Vec<u8>, BaseError>(BaseError::MissingPubKey))),
            self.client_bundle matches Some(b) ==> (b.client_id matches Some(e) ==> (
            e.public_key matches Some(k) ==> (r matches Ok(id) && id@ == k.key@))),
    {
        let entity = self.get_client_entity()?;
        match &entity.public_key {
            None => Err(BaseError::MissingPubKey),
            Some(k) => {
                let id = k.key.clone();
                assert(id@ =~= k.key@);
                Ok(id)
            },
        }
    }

    /// A copy of the client's entity id.
    pub fn get_client_entity(&self) -> (r: Result<EntityId, BaseError>)
        ensures
            self.client_bundle is None ==> r == Err::<EntityId, BaseError>(
                BaseError::MissingClientBundle,
            ),
            self.client_bundle matches Some(b) ==> (b.client_id is None ==> r == Err::<
                EntityId,
                BaseError,
            >(BaseError::MissingClientId)),
            self.client_bundle matches Some(b) ==> (b.client_id matches Some(e) ==> (r matches Ok(
                c) && c@ == e@)),
    {
        match &self.client_bundle {
            None => Err(BaseError::MissingClientBundle),
            Some(b) => match &b.client_id {
                None => Err(BaseError::MissingClientId),
                Some(e) => Ok(e.clone()),
            },
        }
    }
}

} // verus!
