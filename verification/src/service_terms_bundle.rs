//! A provider's signed terms of service.
use crate::api_types_extensions::{id_key_valid, make_signature, signature_made, Signed};
use crate::crypto::{consistent_key_pair, ed25519_verifies, signature_form, IdKeyPair, IdSignature};
use crate::error::BaseError;
use crate::encoding::ProtoMessage;
use crate::snp::snp_core_types::ServiceTermsBundle;
use vstd::prelude::*;

verus! {

/// What verifying a terms bundle's signature gives, check by check: the
/// provider id and its key must be present and a valid key, the signature
/// present and in form, and it must verify over the bundle's encoding without
/// the signature.
pub open spec fn service_terms_verdict(b: ServiceTermsBundle) -> Result<(), BaseError> {
    if b.provider_id is None {
        Err(BaseError::MissingClientId)
    } else if b.provider_id->0.public_key is None {
        Err(BaseError::MissingPublicKey)
    } else if !id_key_valid(b.provider_id->0.public_key->0@) {
        Err(BaseError::InvalidPublicKey)
    } else if b.signature is None {
        Err(BaseError::MissingMessageSignature)
    } else if !signature_form(b.signature->0.signature@) {
        Err(BaseError::InvalidSignature)
    } else if !ed25519_verifies(
        b.provider_id->0.public_key->0@,
        b.with_signature(None).wire(),
        b.signature->0.signature@,
    ) {
        Err(BaseError::ProviderSignatureMismatch)
    } else {
        Ok(())
    }
}

/// Signing then verifying: a terms bundle signed with a key pair whose public
/// key is derived from its secret key and is the bundle's provider id passes
/// verification, whatever signature it carried before.
pub proof fn lemma_signed_service_terms_verify(
    before: ServiceTermsBundle,
    after: ServiceTermsBundle,
    kp: (Seq<u8>, Seq<u8>),
)
    requires
        after.with_signature(None) == before.with_signature(None),
        signature_made(after.signature, kp, before.with_signature(None).wire()),
        consistent_key_pair(kp),
        before.provider_id is Some,
        before.provider_id->0.public_key is Some,
        before.provider_id->0.public_key->0@ == kp.1,
    ensures
        service_terms_verdict(after) == Ok::<(), BaseError>(()),
{
    assert(after.provider_id == before.provider_id);
}

impl Signed for ServiceTermsBundle {
    /// Signs the bundle's encoding without a signature with the provider's key.
    fn sign(&mut self, signer: &IdKeyPair) -> (r: Result<(), BaseError>)
        ensures
            r is Ok,
            final(self).with_signature(None) == old(self).with_signature(None),
            signature_made(final(self).signature, signer@, old(self).with_signature(None).wire()),
    {
        self.signature = None;
        let payload = self.signed_payload();
        self.signature = Some(make_signature(signer, payload.as_slice()));
        Ok(())
    }

    /// Verifies the provider's signature on the terms.
    fn verify_signature(&self) -> (r: Result<(), BaseError>)
        ensures
            r == service_terms_verdict(*self),
    {
        let provider_id = match &self.provider_id {
            None => return Err(BaseError::MissingClientId),
            Some(c) => c,
        };
        let pub_key_data = match &provider_id.public_key {
            None => return Err(BaseError::MissingPublicKey),
            Some(k) => k,
        };
        let pub_key = pub_key_data.as_pub_key()?;
        let signature_data = match &self.signature {
            None => return Err(BaseError::MissingMessageSignature),
            Some(s) => s,
        };
        let payload = self.signed_payload();
        let signature = match IdSignature::from_bytes(signature_data.signature.as_slice()) {
            None => return Err(BaseError::InvalidSignature),
            Some(s) => s,
        };
        if !pub_key.verify(payload.as_slice(), &signature) {
            return Err(BaseError::ProviderSignatureMismatch);
        }
        Ok(())
    }
}

} // verus!
