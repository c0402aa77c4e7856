//! Provider identity bundles: the provider's id key and pre-key.
use crate::api_types_extensions::{id_key_valid, make_signature, signature_made, Signed};
use crate::crypto::{
    consistent_key_pair, ed25519_verifies, signature_form, DhPublicKey, IdKeyPair, IdPublicKey,
    IdSignature,
};
use crate::encoding::{encode_to_vec, ProtoMessage};
use crate::error::BaseError;
use crate::snp::snp_core_types::{ProviderIdentityBundle, PublicKey};
use vstd::prelude::*;

verus! {

/// What verifying a provider bundle's signature gives, check by check: the
/// provider id and its key must be present and a valid key, the signature
/// present and in form, and it must verify over the bundle's encoding without
/// the signature.
pub open spec fn provider_bundle_verdict(b: ProviderIdentityBundle) -> Result<(), BaseError> {
    if b.provider_id is None {
        Err(BaseError::MissingClientId)
    } else if b.provider_id->0.public_key is None {
        Err(BaseError::MissingPublicKey)
    } else if !id_key_valid(b.provider_id->0.public_key->0@) {
        Err(BaseError::InvalidPublicKey)
    } else if b.provider_signature is None {
        Err(BaseError::MissingMessageSignature)
    } else if !signature_form(b.provider_signature->0.signature@) {
        Err(BaseError::InvalidSignature)
    } else if !ed25519_verifies(
        b.provider_id->0.public_key->0@,
        b.with_provider_signature(None).wire(),
        b.provider_signature->0.signature@,
    ) {
        Err(BaseError::ProviderSignatureMismatch)
    } else {
        Ok(())
    }
}

/// Signing then verifying: a provider bundle that carries no signature, signed
/// with a key pair whose public key is derived from its secret key and is the
/// bundle's provider id, passes verification.
pub proof fn lemma_signed_provider_bundle_verifies(
    before: ProviderIdentityBundle,
    after: ProviderIdentityBundle,
    kp: (Seq<u8>, Seq<u8>),
)
    requires
        before.provider_signature is None,
        after.with_provider_signature(None) == before.with_provider_signature(None),
        signature_made(after.provider_signature, kp, before.wire()),
        consistent_key_pair(kp),
        before.provider_id is Some,
        before.provider_id->0.public_key is Some,
        before.provider_id->0.public_key->0@ == kp.1,
    ensures
        provider_bundle_verdict(after) == Ok::<(), BaseError>(()),
{
    assert(before.with_provider_signature(None) == before);
    assert(after.provider_id == before.provider_id);
}

impl Signed for ProviderIdentityBundle {
    /// Signs the bundle's encoding, as it stands, with the provider's key.
    fn sign(&mut self, signer: &IdKeyPair) -> (r: Result<(), BaseError>)
        ensures
            r is Ok,
            final(self).with_provider_signature(None) == old(self).with_provider_signature(None),
            signature_made(final(self).provider_signature, signer@, old(self).wire()),
    {
        let payload = encode_to_vec(&*self);
        self.provider_signature = Some(make_signature(signer, payload.as_slice()));
        Ok(())
    }

    /// Verifies the provider's signature on the bundle.
    fn verify_signature(&self) -> (r: Result<(), BaseError>)
        ensures
            r == provider_bundle_verdict(*self),
    {
        let provider_id = match &self.provider_id {
            None => return Err(BaseError::MissingClientId),
            Some(c) => c,
        };
        let pub_key_data = match &provider_id.public_key {
            None => return Err(BaseError::MissingPublicKey),
            Some(k) => k,
        };
        let pub_key = pub_key_data.as_pub_key()?;
        let signature_data = match &self.provider_signature {
            None => return Err(BaseError::MissingMessageSignature),
            Some(s) => s,
        };
        let payload = self.signed_payload();
        let signature = match IdSignature::from_bytes(signature_data.signature.as_slice()) {
            None => return Err(BaseError::InvalidSignature),
            Some(s) => s,
        };
        if !pub_key.verify(payload.as_slice(), &signature) {
            return Err(BaseError::ProviderSignatureMismatch);
        }
        Ok(())
    }
}

impl ProviderIdentityBundle {
    /// The provider's pre-key as an x25519 public key.
    pub fn get_provider_x25519_pre_key(&self) -> (r: Result<DhPublicKey, BaseError>)
        ensures
            self.pre_key is None ==> r == Err::<DhPublicKey, BaseError>(BaseError::MissingPrekeyData),
            self.pre_key matches Some(p) ==> (p.key is None ==> r == Err::<DhPublicKey, BaseError>(
                BaseError::MissingPrekeyData,
            )),
            self.pre_key matches Some(p) ==> (p.key matches Some(k) ==> (if k@.len() == 32 {
                r matches Ok(d) && d@ == k@
            } else {
                r == Err::<DhPublicKey, BaseError>(BaseError::InvalidKeySize)
            })),
    {
        self.get_provider_pre_key()?.as_x25519_pub_key()
    }

    /// The provider's id key as an ed25519 public key.
    pub fn get_provider_id_ed25519_public_key(&self) -> (r: Result<IdPublicKey, BaseError>)
        ensures
            self.provider_id is None ==> r == Err::<IdPublicKey, BaseError>(
                BaseError::MissingProviderIdData,
            ),
            self.provider_id matches Some(e) ==> (e.public_key is None ==> r == Err::<
                IdPublicKey,
                BaseError,
            >(BaseError::MissingPublicKeyData)),
            self.provider_id matches Some(e) ==> (e.public_key matches Some(k) ==> (if id_key_valid(
                k@,
            ) {
                r matches Ok(p) && p@ == k@
            } else {
                r == Err::<IdPublicKey, BaseError>(BaseError::InvalidPublicKey)
            })),
    {
        self.get_provider_id_public_key()?.as_pub_key()
    }

    /// The provider's current x25519 pre-key.
    pub fn get_provider_pre_key(&self) -> (r: Result<&PublicKey, BaseError>)
        ensures
            self.pre_key is None ==> r == Err::<&PublicKey, BaseError>(BaseError::MissingPrekeyData),
            self.pre_key matches Some(p) ==> (p.key is None ==> r == Err::<&PublicKey, BaseError>(
                BaseError::MissingPrekeyData,
            )),
            self.pre_key matches Some(p) ==> (p.key matches Some(k) ==> r == Ok::<
                &PublicKey,
                BaseError,
            >(&k)),
    {
        match &self.pre_key {
            None => Err(BaseError::MissingPrekeyData),
            Some(p) => match &p.key {
                None => Err(BaseError::MissingPrekeyData),
                Some(k) => Ok(k),
            },
        }
    }

    /// The provider's id public key.
    pub fn get_provider_id_public_key(&self) -> (r: Result<&PublicKey, BaseError>)
        ensures
            self.provider_id is None ==> r == Err::<&PublicKey, BaseError>(
                BaseError::MissingProviderIdData,
            ),
            self.provider_id matches Some(e) ==> (e.public_key is None ==> r == Err::<
                &PublicKey,
                BaseError,
            >(BaseError::MissingPublicKeyData)),
            self.provider_id matches Some(e) ==> (e.public_key matches Some(k) ==> r == Ok::<
                &PublicKey,
                BaseError,
            >(&k)),
    {
        match &self.provider_id {
            None => Err(BaseError::MissingProviderIdData),
            Some(e) => match &e.public_key {
                None => Err(BaseError::MissingPublicKeyData),
                Some(k) => Ok(k),
            },
        }
    }
}

} // verus!
