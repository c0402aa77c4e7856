//! A provider's private identity bundle.
use crate::api_types_extensions::{signature_made, Signed};
use crate::crypto::{
    consistent_key_pair, x25519_clamp, x25519_public_of, x25519_secret_form, DhSecret, IdKeyPair,
    IdSecretKey,
};
use crate::encoding::ProtoMessage;
use crate::error::BaseError;
use crate::provider_identity_bundle::{lemma_signed_provider_bundle_verifies, provider_bundle_verdict};
use crate::snp::snp_core_types::{
    DialupInfo, EntityId, KeyPair, PreKey, PrivateKey, PrivateProviderIdentityBundle,
    ProviderIdentityBundle, PublicKey,
};
use crate::snp::snp_payments::Address;
use crate::system::now_nanos;
use vstd::prelude::*;

verus! {

/// The x2dh protocol version that a new provider's pre-key announces.
pub open spec fn provider_x2dh_version() -> Seq<char> {
    seq!['0', '.', '1', '.', '0']
}

/// Whether `pb` is the public bundle of a new provider identity, before its
/// signature: the id key `id_public` under `nickname`, the payment address,
/// the one dial-up entry, the pre-key `pre_public` with id 0, no one-time
/// keys, no image, bond 0 and the network id. Its time stamp is free.
pub open spec fn new_public_bundle_fields(
    pb: ProviderIdentityBundle,
    id_public: Seq<u8>,
    pre_public: Seq<u8>,
    dialup: <DialupInfo as View>::V,
    nickname: Seq<char>,
    address: Seq<u8>,
    net_id: u32,
) -> bool {
    &&& pb.provider_id matches Some(e) && e@ == (Some(id_public), nickname)
    &&& pb.address matches Some(a) && a@ == address
    &&& pb.dial_up_info@.len() == 1
    &&& pb.dial_up_info@[0]@ == dialup
    &&& pb.pre_key matches Some(k) && k@ == (provider_x2dh_version(), Some(pre_public), 0u64)
    &&& pb.one_time_keys@.len() == 0
    &&& pb.profile_image is None
    &&& pb.current_bond_id == 0
    &&& pb.net_id == net_id
}

/// Whether `b` is the private bundle of a new provider identity with the id
/// key pair `kp` and the pre-key secret `pre_secret`: its public bundle has
/// the given fields and is signed by `kp`, it keeps both id keys and the
/// pre-key secret, and it has no one-time key pairs.
pub open spec fn new_private_bundle_fields(
    b: PrivateProviderIdentityBundle,
    kp: (Seq<u8>, Seq<u8>),
    pre_secret: Seq<u8>,
    dialup: <DialupInfo as View>::V,
    nickname: Seq<char>,
    address: Seq<u8>,
    net_id: u32,
) -> bool {
    &&& b.public_bundle matches Some(pb) && new_public_bundle_fields(
        pb,
        kp.1,
        x25519_public_of(pre_secret),
        dialup,
        nickname,
        address,
        net_id,
    ) && signature_made(pb.provider_signature, kp, pb.with_provider_signature(None).wire())
    &&& b.provider_id_keypair matches Some(k) && k@ == (Some(kp.0), Some(kp.1))
    &&& b.pre_key matches Some(p) && p@ == pre_secret
    &&& b.one_time_keys_pairs@.len() == 0
}

impl PrivateProviderIdentityBundle {
    /// A new provider identity with fresh random id and pre-keys, and its
    /// signed public bundle.
    pub fn new(dialup_info: &DialupInfo, nickname: String, payment_address: &Address, net_id: u32) -> (r:
        Result<PrivateProviderIdentityBundle, BaseError>)
        ensures
            r matches Ok(b) && b.provider_id_keypair matches Some(k) && k.private_key matches Some(
                s,
            ) && k.public_key matches Some(p) && b.pre_key matches Some(pre) && consistent_key_pair(
                (s@, p@),
            ) && new_private_bundle_fields(
                b,
                (s@, p@),
                pre@,
                dialup_info@,
                nickname@,
                payment_address@,
                net_id,
            ) && provider_bundle_verdict(b.public_bundle->0) == Ok::<(), BaseError>(()) && s@.len()
                == 32 && x25519_secret_form(pre@),
    {
        let key_pair = IdKeyPair::generate();
        let pre_key_private = DhSecret::generate();
        PrivateProviderIdentityBundle::new_for_id(
            &key_pair,
            &pre_key_private,
            dialup_info,
            nickname,
            payment_address,
            net_id,
        )
    }

    /// A new provider identity for the given id key pair and pre-key secret,
    /// with its public bundle signed by the id key pair. The bundle's time
    /// stamp is the current time.
    pub fn new_for_id(
        key_pair: &IdKeyPair,
        pre_key_private: &DhSecret,
        dialup_info: &DialupInfo,
        nickname: String,
        payment_address: &Address,
        net_id: u32,
    ) -> (r: Result<PrivateProviderIdentityBundle, BaseError>)
        ensures
            r matches Ok(b) && new_private_bundle_fields(
                b,
                key_pair@,
                pre_key_private@,
                dialup_info@,
                nickname@,
                payment_address@,
                net_id,
            ),
            consistent_key_pair(key_pair@) ==> (r matches Ok(b) && provider_bundle_verdict(
                b.public_bundle->0,
            ) == Ok::<(), BaseError>(())),
            r matches Ok(b) && b.provider_id_keypair->0.private_key->0@.len() == 32
                && x25519_secret_form(b.pre_key->0@),
    {
        let id_keypair = KeyPair {
            private_key: Some(PrivateKey { key: key_pair.secret_bytes() }),
            public_key: Some(PublicKey { key: key_pair.public_bytes() }),
        };
        let pre_key_public = PublicKey { key: pre_key_private.public_key().to_bytes() };
        let pre_key_secret = PrivateKey { key: pre_key_private.to_bytes() };
        let version = String::from_str("0.1.0");
        proof {
            reveal_strlit("0.1.0");
        }
        let mut pub_bundle = ProviderIdentityBundle {
            time_stamp: now_nanos(),
            provider_id: Some(
                EntityId { public_key: Some(PublicKey { key: key_pair.public_bytes() }), nickname },
            ),
            address: Some(payment_address.clone()),
            dial_up_info: vec![dialup_info.clone()],
            pre_key: Some(PreKey { x2dh_version: version, key: Some(pre_key_public), key_id: 0 }),
            one_time_keys: Vec::new(),
            profile_image: None,
            current_bond_id: 0,
            provider_signature: None,
            net_id,
        };
        assert(pub_bundle.pre_key->0.x2dh_version@ =~= provider_x2dh_version());
        let ghost unsigned = pub_bundle;
        let _ = pub_bundle.sign(key_pair);
        proof {
            assert(unsigned.with_provider_signature(None) == unsigned);
            if consistent_key_pair(key_pair@) {
                lemma_signed_provider_bundle_verifies(unsigned, pub_bundle, key_pair@);
            }
        }
        Ok(
            PrivateProviderIdentityBundle {
                public_bundle: Some(pub_bundle),
                provider_id_keypair: Some(id_keypair),
                pre_key: Some(pre_key_secret),
                one_time_keys_pairs: Vec::new(),
            },
        )
    }

    /// The provider's id secret key.
    pub fn get_provider_private_key(&self) -> (r: Result<IdSecretKey, BaseError>)
        ensures
            self.provider_id_keypair is None ==> r == Err::<IdSecretKey, BaseError>(
                BaseError::MissingProviderIdKeyPair,
            ),
            self.provider_id_keypair matches Some(k) ==> (k.private_key is None ==> r == Err::<
                IdSecretKey,
                BaseError,
            >(BaseError::MissingPrivateKey)),
            self.provider_id_keypair matches Some(k) ==> (k.private_key matches Some(s) ==> (if s@.len()
                == 32 {
                r matches Ok(key) && key@ == s@
            } else {
                r == Err::<IdSecretKey, BaseError>(BaseError::InvalidData)
            })),
    {
        let key_pair = match &self.provider_id_keypair {
            None => return Err(BaseError::MissingProviderIdKeyPair),
            Some(k) => k,
        };
        let secret = match &key_pair.private_key {
            None => return Err(BaseError::MissingPrivateKey),
            Some(s) => s,
        };
        match IdSecretKey::from_bytes(secret.key.as_slice()) {
            Some(key) => Ok(key),
            None => Err(BaseError::InvalidData),
        }
    }

    /// The pre-key's x25519 secret.
    pub fn get_prekey_as_static_secret(&self) -> (r: Result<DhSecret, BaseError>)
        ensures
            self.pre_key is None ==> r == Err::<DhSecret, BaseError>(BaseError::MissingPrekeyData),
            self.pre_key matches Some(p) ==> (if p@.len() == 32 {
                r matches Ok(s) && s@ == x25519_clamp(p@)
            } else {
                r == Err::<DhSecret, BaseError>(BaseError::InvalidKeySize)
            }),
    {
        let data = match &self.pre_key {
            None => return Err(BaseError::MissingPrekeyData),
            Some(p) => p.key.as_slice(),
        };
        if data.len() != 32 {
            return Err(BaseError::InvalidKeySize);
        }
        Ok(DhSecret::from_bytes(data))
    }

    /// The provider's entity id, read from its public bundle.
    pub fn get_provider_id_entity(&self) -> (r: Result<&EntityId, BaseError>)
        ensures
            self.public_bundle is None ==> r == Err::<&EntityId, BaseError>(
                BaseError::MissingPublicBundle,
            ),
            self.public_bundle matches Some(b) ==> (b.provider_id is None ==> r == Err::<
                &EntityId,
                BaseError,
            >(BaseError::MissingProviderId)),
            self.public_bundle matches Some(b) ==> (b.provider_id matches Some(e) ==> r == Ok::<
                &EntityId,
                BaseError,
            >(&e)),
    {
        match &self.public_bundle {
            None => Err(BaseError::MissingPublicBundle),
            Some(b) => match &b.provider_id {
                None => Err(BaseError::MissingProviderId),
                Some(e) => Ok(e),
            },
        }
    }

    /// A copy of the provider's payment address, read from its public bundle.
    pub fn get_payment_address(&self) -> (r: Result<Address, BaseError>)
        ensures
            self.public_bundle is None ==> r == Err::<Address, BaseError>(BaseError::MissingBundle),
            self.public_bundle matches Some(b) ==> (b.address is None ==> r == Err::<
                Address,
                BaseError,
            >(BaseError::MissingAddress)),
            self.public_bundle matches Some(b) ==> (b.address matches Some(a) ==> (r matches Ok(c)
                && c@ == a@)),
    {
        match &self.public_bundle {
            None => Err(BaseError::MissingBundle),
            Some(b) => match &b.address {
                None => Err(BaseError::MissingAddress),
                Some(a) => Ok(a.clone()),
            },
        }
    }
}

} // verus!
