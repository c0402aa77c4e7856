//! Client identity bundles: the client's id, provider and pre-key.
use crate::api_types_extensions::{id_key_valid, make_signature, signature_made, Signed};
use crate::crypto::{
    consistent_key_pair, ed25519_verifies, signature_form, x25519_public_of, DhPublicKey,
    DhSecret, IdKeyPair, IdPublicKey, IdSignature,
};
use crate::encoding::{encode_to_vec, ProtoMessage};
use crate::error::BaseError;
use crate::snp::snp_core_types::{
    ClientIdentityBundle, EntityId, PreKey, ProviderIdentityBundle, PublicKey,
};
use crate::snp::snp_payments::Address;
use crate::system::now_nanos;
use vstd::prelude::*;

verus! {

/// What verifying a client bundle's signature gives, check by check: the
/// client id and its key must be present and a valid key, the signature
/// present and in form, and it must verify over the bundle's encoding without
/// the signature.
pub open spec fn client_bundle_verdict(b: ClientIdentityBundle) -> Result<(), BaseError> {
    if b.client_id is None {
        Err(BaseError::MissingClientId)
    } else if b.client_id->0.public_key is None {
        Err(BaseError::MissingPublicKey)
    } else if !id_key_valid(b.client_id->0.public_key->0@) {
        Err(BaseError::InvalidPublicKey)
    } else if b.signature is None {
        Err(BaseError::MissingMessageSignature)
    } else if !signature_form(b.signature->0.signature@) {
        Err(BaseError::InvalidSignature)
    } else if !ed25519_verifies(
        b.client_id->0.public_key->0@,
        b.with_signature(None).wire(),
        b.signature->0.signature@,
    ) {
        Err(BaseError::ClientSignatureMismatch)
    } else {
        Ok(())
    }
}

/// Signing then verifying: a client bundle that carries no signature, signed
/// with a key pair whose public key is derived from its secret key and is the
/// bundle's client id, passes verification.
pub proof fn lemma_signed_client_bundle_verifies(
    before: ClientIdentityBundle,
    after: ClientIdentityBundle,
    kp: (Seq<u8>, Seq<u8>),
)
    requires
        before.signature is None,
        after.with_signature(None) == before.with_signature(None),
        signature_made(after.signature, kp, before.wire()),
        consistent_key_pair(kp),
        before.client_id is Some,
        before.client_id->0.public_key is Some,
        before.client_id->0.public_key->0@ == kp.1,
    ensures
        client_bundle_verdict(after) == Ok::<(), BaseError>(()),
{
    assert(before.with_signature(None) == before);
    assert(after.client_id == before.client_id);
}

impl Signed for ClientIdentityBundle {
    /// Signs the bundle's encoding, as it stands, with the client's key.
    fn sign(&mut self, signer: &IdKeyPair) -> (r: Result<(), BaseError>)
        ensures
            r is Ok,
            final(self).with_signature(None) == old(self).with_signature(None),
            signature_made(final(self).signature, signer@, old(self).wire()),
    {
        let payload = encode_to_vec(&*self);
        self.signature = Some(make_signature(signer, payload.as_slice()));
        Ok(())
    }

    /// Verifies the client's signature on the bundle.
    fn verify_signature(&self) -> (r: Result<(), BaseError>)
        ensures
            r == client_bundle_verdict(*self),
    {
        let client_id = match &self.client_id {
            None => return Err(BaseError::MissingClientId),
            Some(c) => c,
        };
        let pub_key_data = match &client_id.public_key {
            None => return Err(BaseError::MissingPublicKey),
            Some(k) => k,
        };
        let pub_key = pub_key_data.as_pub_key()?;
        let signature_data = match &self.signature {
            None => return Err(BaseError::MissingMessageSignature),
            Some(s) => s,
        };
        let payload = self.signed_payload();
        let signature = match IdSignature::from_bytes(signature_data.signature.as_slice()) {
            None => return Err(BaseError::InvalidSignature),
            Some(s) => s,
        };
        if !pub_key.verify(payload.as_slice(), &signature) {
            return Err(BaseError::ClientSignatureMismatch);
        }
        Ok(())
    }
}

/// Whether `b` is a new client bundle before its signature: the id key
/// `id_public` under `nickname`, the payment address, a copy of the provider's
/// bundle, the pre-key `pre_public` with an empty version and id 0, no
/// one-time keys, no image and network id 0. Its time stamp is free.
pub open spec fn new_client_bundle_fields(
    b: ClientIdentityBundle,
    id_public: Seq<u8>,
    pre_public: Seq<u8>,
    nickname: Seq<char>,
    provider: <ProviderIdentityBundle as View>::V,
    address: Seq<u8>,
) -> bool {
    &&& b.client_id matches Some(e) && e@ == (Some(id_public), nickname)
    &&& b.address matches Some(a) && a@ == address
    &&& b.provider_bundle matches Some(p) && p@ == provider
    &&& b.pre_key matches Some(k) && k@ == (Seq::<char>::empty(), Some(pre_public), 0u64)
    &&& b.one_time_keys@.len() == 0
    &&& b.profile_image is None
    &&& b.net_id == 0
}

impl ClientIdentityBundle {
    /// A new client bundle for the id key pair `key_pair` and the pre-key
    /// secret `pre_key`, served by `provider`, signed by the id key pair. Its
    /// time stamp is the current time.
    pub fn new(
        key_pair: &IdKeyPair,
        pre_key: &DhSecret,
        nickname: String,
        provider: &ProviderIdentityBundle,
        payment_address: &Address,
    ) -> (r: Result<ClientIdentityBundle, BaseError>)
        ensures
            r matches Ok(b) && new_client_bundle_fields(
                b,
                key_pair@.1,
                x25519_public_of(pre_key@),
                nickname@,
                provider@,
                payment_address@,
            ) && signature_made(b.signature, key_pair@, b.with_signature(None).wire()),
            consistent_key_pair(key_pair@) ==> (r matches Ok(b) && client_bundle_verdict(b) == Ok::<
                (),
                BaseError,
            >(())),
    {
        let client_pre_key_public = PublicKey { key: pre_key.public_key().to_bytes() };
        let client_id_pub_key = PublicKey { key: key_pair.public_bytes() };
        let client_entity = EntityId { public_key: Some(client_id_pub_key), nickname };
        let mut client_bundle = ClientIdentityBundle {
            time_stamp: now_nanos(),
            client_id: Some(client_entity),
            address: Some(payment_address.clone()),
            provider_bundle: Some(provider.clone()),
            pre_key: Some(
                PreKey { x2dh_version: String::new(), key: Some(client_pre_key_public), key_id: 0 },
            ),
            one_time_keys: Vec::new(),
            profile_image: None,
            signature: None,
            net_id: 0,
        };
        let ghost unsigned = client_bundle;
        let _ = client_bundle.sign(key_pair);
        proof {
            assert(unsigned.with_signature(None) == unsigned);
            if consistent_key_pair(key_pair@) {
                lemma_signed_client_bundle_verifies(unsigned, client_bundle, key_pair@);
            }
        }
        Ok(client_bundle)
    }

    /// The client's pre-key as an x25519 public key.
    pub fn get_client_x25519_pre_key(&self) -> (r: Result<DhPublicKey, BaseError>)
        ensures
            self.pre_key is None ==> r == Err::<DhPublicKey, BaseError>(BaseError::MissingPrekeyData),
            self.pre_key matches Some(p) ==> (p.key is None ==> r == Err::<DhPublicKey, BaseError>(
                BaseError::MissingPrekeyData,
            )),
            self.pre_key matches Some(p) ==> (p.key matches Some(k) ==> (if k@.len() == 32 {
                r matches Ok(d) && d@ == k@
            } else {
                r == Err::<DhPublicKey, BaseError>(BaseError::InvalidKeySize)
            })),
    {
        self.get_client_pre_key()?.as_x25519_pub_key()
    }

    /// The client's id key as an ed25519 public key.
    pub fn get_client_id_ed25519_public_key(&self) -> (r: Result<IdPublicKey, BaseError>)
        ensures
            self.client_id is None ==> r == Err::<IdPublicKey, BaseError>(
                BaseError::MissingProviderIdData,
            ),
            self.client_id matches Some(e) ==> (e.public_key is None ==> r == Err::<
                IdPublicKey,
                BaseError,
            >(BaseError::MissingPublicKeyData)),
            self.client_id matches Some(e) ==> (e.public_key matches Some(k) ==> (if id_key_valid(
                k@,
            ) {
                r matches Ok(p) && p@ == k@
            } else {
                r == Err::<IdPublicKey, BaseError>(BaseError::InvalidPublicKey)
            })),
    {
        self.get_client_id_public_key()?.as_pub_key()
    }

    /// A copy of the client's entity id.
    pub fn get_client_entity(&self) -> (r: Result<EntityId, BaseError>)
        requires
            self.client_id is Some,
        ensures
            r matches Ok(e) && e@ == self.client_id->0@,
    {
        Ok(self.client_id.as_ref().unwrap().clone())
    }

    /// The client's current x25519 pre-key.
    pub fn get_client_pre_key(&self) -> (r: Result<&PublicKey, BaseError>)
        ensures
            self.pre_key is None ==> r == Err::<&PublicKey, BaseError>(BaseError::MissingPrekeyData),
            self.pre_key matches Some(p) ==> (p.key is None ==> r == Err::<&PublicKey, BaseError>(
                BaseError::MissingPrekeyData,
            )),
            self.pre_key matches Some(p) ==> (p.key matches Some(k) ==> r == Ok::<
                &PublicKey,
                BaseError,
            >(&k)),
    {
        match &self.pre_key {
            None => Err(BaseError::MissingPrekeyData),
            Some(p) => match &p.key {
                None => Err(BaseError::MissingPrekeyData),
                Some(k) => Ok(k),
            },
        }
    }

    /// The client's id public key.
    pub fn get_client_id_public_key(&self) -> (r: Result<&PublicKey, BaseError>)
        ensures
            self.client_id is None ==> r == Err::<&PublicKey, BaseError>(
                BaseError::MissingProviderIdData,
            ),
            self.client_id matches Some(e) ==> (e.public_key is None ==> r == Err::<
                &PublicKey,
                BaseError,
            >(BaseError::MissingPublicKeyData)),
            self.client_id matches Some(e) ==> (e.public_key matches Some(k) ==> r == Ok::<
                &PublicKey,
                BaseError,
            >(&k)),
    {
        match &self.client_id {
            None => Err(BaseError::MissingProviderIdData),
            Some(e) => match &e.public_key {
                None => Err(BaseError::MissingPublicKeyData),
                Some(k) => Ok(k),
            },
        }
    }
}

} // verus!
