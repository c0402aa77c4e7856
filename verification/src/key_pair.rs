//! Key pairs as ed25519 key pairs.
use crate::crypto::{ed25519_point_valid, IdKeyPair, IdPublicKey};
use vstd::slice::slice_subrange;
use crate::snp::snp_core_types::KeyPair;
use vstd::prelude::*;

verus! {

/// Length of an ed25519 key pair: the secret key followed by the public key.
pub const KEYPAIR_LENGTH: usize = 64;

/// The bytes of a key pair with both keys: the secret key's, then the public key's.
pub open spec fn key_pair_bytes(kp: KeyPair) -> Seq<u8> {
    kp.private_key->0@ + kp.public_key->0@
}

impl KeyPair {
    /// The key pair as an ed25519 key pair. Both keys must be present, and
    /// together 64 bytes whose last 32 are a curve point.
    pub fn to_ed2559_kaypair(&self) -> (r: IdKeyPair)
        requires
            self.private_key is Some,
            self.public_key is Some,
            key_pair_bytes(*self).len() == KEYPAIR_LENGTH,
            ed25519_point_valid(key_pair_bytes(*self).subrange(32, 64)),
        ensures
            r@.0 == key_pair_bytes(*self).subrange(0, 32),
            r@.1 == key_pair_bytes(*self).subrange(32, 64),
    {
        let mut buf: Vec<u8> = Vec::new();
        let mut secret = self.private_key.as_ref().unwrap().key.clone();
        let mut public = self.public_key.as_ref().unwrap().key.clone();
        buf.append(&mut secret);
        buf.append(&mut public);
        assert(buf@ =~= key_pair_bytes(*self));
        IdKeyPair::from_bytes(buf.as_slice()).unwrap()
    }

    /// The key pair as an ed25519 key pair, where it is one: both keys
    /// present, together 64 bytes whose last 32 are a curve point; `None`
    /// otherwise.
    pub fn to_ed25519_keypair_checked(&self) -> (r: Option<IdKeyPair>)
        ensures
            r is Some <==> (self.private_key is Some && self.public_key is Some && key_pair_bytes(
                *self,
            ).len() == KEYPAIR_LENGTH && ed25519_point_valid(key_pair_bytes(*self).subrange(32, 64))),
            r matches Some(kp) ==> kp@.0 == key_pair_bytes(*self).subrange(0, 32) && kp@.1
                == key_pair_bytes(*self).subrange(32, 64),
    {
        let secret = match &self.private_key {
            None => return None,
            Some(k) => &k.key,
        };
        let public = match &self.public_key {
            None => return None,
            Some(k) => &k.key,
        };
        if secret.len() > KEYPAIR_LENGTH || public.len() != KEYPAIR_LENGTH - secret.len() {
            return None;
        }
        let mut buf: Vec<u8> = Vec::new();
        let mut s = secret.clone();
        let mut p = public.clone();
        buf.append(&mut s);
        buf.append(&mut p);
        assert(buf@ =~= key_pair_bytes(*self));
        let tail = slice_subrange(buf.as_slice(), 32, 64);
        match IdPublicKey::from_bytes(tail) {
            None => None,
            Some(_) => Some(self.to_ed2559_kaypair()),
        }
    }
}

} // verus!
