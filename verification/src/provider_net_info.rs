//! Provider net info: a provider's id and dial-up info.
use crate::api_types_extensions::{id_key_valid, make_signature, signature_made, Signed};
use crate::crypto::{
    consistent_key_pair, ed25519_verifies, signature_form, IdKeyPair, IdPublicKey, IdSignature,
};
use crate::encoding::ProtoMessage;
use crate::error::BaseError;
use crate::snp::snp_core_types::{DialupInfo, ProviderNetInfo};
use vstd::prelude::*;

verus! {

/// What verifying net info's signature gives, check by check: the signature
/// must be present and in form, the provider id present and a valid key, and
/// the signature must verify over the net info's encoding without it.
pub open spec fn net_info_verdict(n: ProviderNetInfo) -> Result<(), BaseError> {
    if n.signature is None {
        Err(BaseError::MissingAuthorSignature)
    } else if !signature_form(n.signature->0.signature@) {
        Err(BaseError::InvalidSignature)
    } else if n.provider_id is None {
        Err(BaseError::MissingUserId)
    } else if n.provider_id->0.public_key is None {
        Err(BaseError::MissingPubKey)
    } else if !id_key_valid(n.provider_id->0.public_key->0@) {
        Err(BaseError::InvalidPublicKey)
    } else if !ed25519_verifies(
        n.provider_id->0.public_key->0@,
        n.with_signature(None).wire(),
        n.signature->0.signature@,
    ) {
        Err(BaseError::SignatureMismatch)
    } else {
        Ok(())
    }
}

/// Signing then verifying: net info signed with a key pair whose public key is
/// derived from its secret key and is the provider's id passes verification,
/// whatever signature it carried before.
pub proof fn lemma_signed_net_info_verifies(
    before: ProviderNetInfo,
    after: ProviderNetInfo,
    kp: (Seq<u8>, Seq<u8>),
)
    requires
        after.with_signature(None) == before.with_signature(None),
        signature_made(after.signature, kp, before.with_signature(None).wire()),
        consistent_key_pair(kp),
        before.provider_id is Some,
        before.provider_id->0.public_key is Some,
        before.provider_id->0.public_key->0@ == kp.1,
    ensures
        net_info_verdict(after) == Ok::<(), BaseError>(()),
{
    assert(after.provider_id == before.provider_id);
}

impl Signed for ProviderNetInfo {
    /// Signs the net info's encoding without a signature with the provider's key.
    fn sign(&mut self, signer: &IdKeyPair) -> (r: Result<(), BaseError>)
        ensures
            r is Ok,
            final(self).with_signature(None) == old(self).with_signature(None),
            signature_made(final(self).signature, signer@, old(self).with_signature(None).wire()),
    {
        self.signature = None;
        let payload = self.signed_payload();
        self.signature = Some(make_signature(signer, payload.as_slice()));
        Ok(())
    }

    /// Verifies the provider's signature on the net info.
    fn verify_signature(&self) -> (r: Result<(), BaseError>)
        ensures
            r == net_info_verdict(*self),
    {
        let signature_data = match &self.signature {
            None => return Err(BaseError::MissingAuthorSignature),
            Some(s) => s,
        };
        let payload = self.signed_payload();
        let signature = match IdSignature::from_bytes(signature_data.signature.as_slice()) {
            None => return Err(BaseError::InvalidSignature),
            Some(s) => s,
        };
        let signer = match &self.provider_id {
            None => return Err(BaseError::MissingUserId),
            Some(u) => u,
        };
        let signer_id = signer.get_id()?;
        let signer_pub_key = match IdPublicKey::from_bytes(signer_id.as_slice()) {
            None => return Err(BaseError::InvalidPublicKey),
            Some(k) => k,
        };
        if !signer_pub_key.verify(payload.as_slice(), &signature) {
            return Err(BaseError::SignatureMismatch);
        }
        Ok(())
    }
}

impl ProviderNetInfo {
    /// The bytes of the provider's public id.
    pub fn get_pub_id(&self) -> (r: Result<&[u8], BaseError>)
        ensures
            self.provider_id is None ==> r is Err && r->Err_0 == BaseError::MissingProviderId,
            self.provider_id matches Some(e) ==> (e.public_key is None ==> r is Err && r->Err_0
                == BaseError::MissingPublicKey),
            self.provider_id matches Some(e) ==> (e.public_key matches Some(k) ==> r is Ok
                && r->Ok_0@ == k.key@),
    {
        match &self.provider_id {
            None => Err(BaseError::MissingProviderId),
            Some(e) => match &e.public_key {
                None => Err(BaseError::MissingPublicKey),
                Some(k) => Ok(k.key.as_slice()),
            },
        }
    }

    /// The provider's dial-up info.
    pub fn get_dialup_info(&self) -> (r: Result<&DialupInfo, BaseError>)
        ensures
            self.dial_up_info is None ==> r == Err::<&DialupInfo, BaseError>(
                BaseError::MissingDialupInfo,
            ),
            self.dial_up_info matches Some(d) ==> r == Ok::<&DialupInfo, BaseError>(&d),
    {
        match &self.dial_up_info {
            Some(d) => Ok(d),
            None => Err(BaseError::MissingDialupInfo),
        }
    }
}

} // verus!
