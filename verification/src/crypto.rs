//! Keys and signatures: ed25519 identity keys, x25519 pre-keys and SHA-512.
//!
//! The cryptography is ed25519-dalek's, x25519-dalek's and orion's. What the
//! library relies on is stated over the bytes of keys, messages and
//! signatures; the values that take pages to define (curve points, signatures,
//! digests) are given names below and are not defined here.
use ed25519_dalek::{
    Keypair as Ed25519Keypair, PublicKey as Ed25519PublicKey, SecretKey as Ed25519SecretKey,
    Signature as Ed25519Signature, Signer, Verifier,
};
use vstd::prelude::*;
use x25519_dalek::{PublicKey as X25519PublicKey, StaticSecret as X25519StaticSecret};

verus! {

#[verifier::external_type_specification]
#[verifier::external_body]
pub struct ExEd25519PublicKey(Ed25519PublicKey);

#[verifier::external_type_specification]
#[verifier::external_body]
pub struct ExEd25519Signature(Ed25519Signature);

#[verifier::external_type_specification]
#[verifier::external_body]
pub struct ExEd25519Keypair(Ed25519Keypair);

#[verifier::external_type_specification]
#[verifier::external_body]
pub struct ExEd25519SecretKey(Ed25519SecretKey);

#[verifier::external_type_specification]
#[verifier::external_body]
pub struct ExX25519PublicKey(X25519PublicKey);

#[verifier::external_type_specification]
#[verifier::external_body]
pub struct ExX25519StaticSecret(X25519StaticSecret);

/// Whether 32 bytes are the compressed form of a point on the ed25519 curve.
pub uninterp spec fn ed25519_point_valid(bytes: Seq<u8>) -> bool;

/// The public key that ed25519 derives from a secret key.
pub uninterp spec fn ed25519_public_of(secret: Seq<u8>) -> Seq<u8>;

/// The ed25519 signature of `message` by the key pair (`secret`, `public`).
pub uninterp spec fn ed25519_signature(secret: Seq<u8>, public: Seq<u8>, message: Seq<u8>) -> Seq<u8>;

/// Whether `signature` is a valid ed25519 signature of `message` under `public`.
pub uninterp spec fn ed25519_verifies(public: Seq<u8>, message: Seq<u8>, signature: Seq<u8>) -> bool;

/// The x25519 public key of a (clamped) secret key.
pub uninterp spec fn x25519_public_of(secret: Seq<u8>) -> Seq<u8>;

/// The SHA-512 digest of `data`.
pub uninterp spec fn sha512(data: Seq<u8>) -> Seq<u8>;

/// Whether 64 bytes are in the form of an ed25519 signature: the three highest
/// bits of its scalar are clear.
pub open spec fn signature_form(bytes: Seq<u8>) -> bool {
    bytes.len() == 64 && bytes[63] & 0xe0u8 == 0
}

/// x25519 clamping of a secret key: the three lowest bits cleared, the highest
/// bit cleared and the second highest set.
pub open spec fn x25519_clamp(b: Seq<u8>) -> Seq<u8> {
    b.update(0, b[0] & 248u8).update(31, (b[31] & 127u8) | 64u8)
}

/// An ed25519 public key, with the bytes it was read from.
pub struct IdPublicKey {
    key: Ed25519PublicKey,
    bytes: Vec<u8>,
}

impl View for IdPublicKey {
    type V = Seq<u8>;

    closed spec fn view(&self) -> Seq<u8> {
        self.bytes@
    }
}

/// An ed25519 signature, with the bytes it was read from.
pub struct IdSignature {
    signature: Ed25519Signature,
    bytes: Vec<u8>,
}

impl View for IdSignature {
    type V = Seq<u8>;

    closed spec fn view(&self) -> Seq<u8> {
        self.bytes@
    }
}

/// An ed25519 secret key, with its bytes.
pub struct IdSecretKey {
    key: Ed25519SecretKey,
    bytes: Vec<u8>,
}

impl View for IdSecretKey {
    type V = Seq<u8>;

    closed spec fn view(&self) -> Seq<u8> {
        self.bytes@
    }
}

/// An ed25519 key pair, with the bytes of its secret and public keys.
pub struct IdKeyPair {
    pair: Ed25519Keypair,
    secret: Vec<u8>,
    public: Vec<u8>,
}

impl IdKeyPair {
    /// Both keys of a pair are 32 bytes long: every constructor reads them
    /// from 64 bytes or derives them.
    #[verifier::type_invariant]
    closed spec fn key_lengths(self) -> bool {
        self.secret@.len() == 32 && self.public@.len() == 32
    }
}

impl View for IdKeyPair {
    /// (secret key, public key)
    type V = (Seq<u8>, Seq<u8>);

    closed spec fn view(&self) -> (Seq<u8>, Seq<u8>) {
        (self.secret@, self.public@)
    }
}

/// Whether a key pair's public key is the one ed25519 derives from its secret
/// key, and a valid curve point.
pub open spec fn consistent_key_pair(kp: (Seq<u8>, Seq<u8>)) -> bool {
    kp.1 == ed25519_public_of(kp.0) && kp.1.len() == 32 && ed25519_point_valid(kp.1)
}

/// An x25519 public key.
pub struct DhPublicKey {
    key: X25519PublicKey,
    bytes: Vec<u8>,
}

impl View for DhPublicKey {
    type V = Seq<u8>;

    closed spec fn view(&self) -> Seq<u8> {
        self.bytes@
    }
}

/// An x25519 static secret key.
pub struct DhSecret {
    secret: X25519StaticSecret,
    bytes: Vec<u8>,
}

/// Whether bytes are an x25519 secret as x25519-dalek keeps one: 32 bytes,
/// already clamped.
pub open spec fn x25519_secret_form(b: Seq<u8>) -> bool {
    b.len() == 32 && b == x25519_clamp(b)
}

/// Clamping is idempotent: a clamped key is in secret form.
pub proof fn lemma_clamp_gives_secret_form(b: Seq<u8>)
    requires
        b.len() == 32,
    ensures
        x25519_secret_form(x25519_clamp(b)),
{
    let c = x25519_clamp(b);
    let b0 = b[0];
    let b31 = b[31];
    assert((b0 & 248u8) & 248u8 == b0 & 248u8) by (bit_vector);
    assert((((b31 & 127u8) | 64u8) & 127u8) | 64u8 == (b31 & 127u8) | 64u8) by (bit_vector);
    assert(x25519_clamp(c) =~= c);
}

impl DhSecret {
    /// The secret is 32 bytes long and clamped, as x25519-dalek keeps it.
    #[verifier::type_invariant]
    closed spec fn secret_form(self) -> bool {
        x25519_secret_form(self.bytes@)
    }
}

impl View for DhSecret {
    type V = Seq<u8>;

    closed spec fn view(&self) -> Seq<u8> {
        self.bytes@
    }
}

impl IdPublicKey {
    /// `ed25519_dalek::PublicKey::from_bytes`: reads a public key. Claimed,
    /// from its source: it succeeds exactly on 32 bytes that are a curve point.
    #[verifier::external_body]
    pub fn from_bytes(bytes: &[u8]) -> (r: Option<IdPublicKey>)
        ensures
            r is Some <==> (bytes@.len() == 32 && ed25519_point_valid(bytes@)),
            r matches Some(k) ==> k@ == bytes@,
    {
        match ed25519_dalek::PublicKey::from_bytes(bytes) {
            Ok(key) => Some(IdPublicKey { key, bytes: bytes.to_vec() }),
            Err(_) => None,
        }
    }

    /// `ed25519_dalek::PublicKey::verify` (the `Verifier` trait): whether
    /// `signature` signs `message` under this key. Claimed: the result is
    /// `ed25519_verifies` of the three byte strings.
    #[verifier::external_body]
    pub fn verify(&self, message: &[u8], signature: &IdSignature) -> (r: bool)
        ensures
            r == ed25519_verifies(self@, message@, signature@),
    {
        self.key.verify(message, &signature.signature).is_ok()
    }

    /// The key's bytes.
    pub fn to_bytes(&self) -> (r: Vec<u8>)
        ensures
            r@ == self@,
    {
        let r = self.bytes.clone();
        assert(r@ =~= self.bytes@);
        r
    }

    /// The ed25519-dalek key that this key holds.
    pub closed spec fn held_key(&self) -> Ed25519PublicKey {
        self.key
    }

    /// The ed25519-dalek key, for callers outside the library.
    pub fn dalek_key(&self) -> (r: &Ed25519PublicKey)
        ensures
            *r == self.held_key(),
    {
        &self.key
    }
}

impl IdSignature {
    /// `ed25519_dalek::Signature::from_bytes`: reads a signature. Claimed, from
    /// its source: it succeeds exactly on 64 bytes whose last byte has its
    /// three highest bits clear.
    #[verifier::external_body]
    pub fn from_bytes(bytes: &[u8]) -> (r: Option<IdSignature>)
        ensures
            r is Some <==> signature_form(bytes@),
            r matches Some(s) ==> s@ == bytes@,
    {
        match ed25519_dalek::Signature::from_bytes(bytes) {
            Ok(signature) => Some(IdSignature { signature, bytes: bytes.to_vec() }),
            Err(_) => None,
        }
    }
}

impl IdSecretKey {
    /// `ed25519_dalek::SecretKey::from_bytes`: reads a secret key. Claimed,
    /// from its source: it succeeds exactly on 32 bytes, and keeps them.
    #[verifier::external_body]
    pub fn from_bytes(bytes: &[u8]) -> (r: Option<IdSecretKey>)
        ensures
            r is Some <==> bytes@.len() == 32,
            r matches Some(k) ==> k@ == bytes@,
    {
        match ed25519_dalek::SecretKey::from_bytes(bytes) {
            Ok(key) => Some(IdSecretKey { key, bytes: bytes.to_vec() }),
            Err(_) => None,
        }
    }

    /// The key's bytes.
    pub fn to_bytes(&self) -> (r: Vec<u8>)
        ensures
            r@ == self@,
    {
        let r = self.bytes.clone();
        assert(r@ =~= self.bytes@);
        r
    }

    /// The ed25519-dalek secret key that this key holds.
    pub closed spec fn held_secret(&self) -> Ed25519SecretKey {
        self.key
    }

    /// The ed25519-dalek secret key, for callers outside the library.
    pub fn dalek_secret(&self) -> (r: &Ed25519SecretKey)
        ensures
            *r == self.held_secret(),
    {
        &self.key
    }
}

impl IdKeyPair {
    /// `ed25519_dalek::Keypair::from_bytes`: reads a secret key followed by a
    /// public key. Claimed, from its source: it succeeds exactly on 64 bytes
    /// whose last 32 are a curve point; it does not check that the public key
    /// belongs to the secret key.
    #[verifier::external_body]
    pub fn from_bytes(bytes: &[u8]) -> (r: Option<IdKeyPair>)
        ensures
            r is Some <==> (bytes@.len() == 64 && ed25519_point_valid(bytes@.subrange(32, 64))),
            r matches Some(kp) ==> kp@.0 == bytes@.subrange(0, 32) && kp@.1 == bytes@.subrange(
                32,
                64,
            ),
    {
        match ed25519_dalek::Keypair::from_bytes(bytes) {
            Ok(pair) => Some(
                IdKeyPair { pair, secret: bytes[..32].to_vec(), public: bytes[32..].to_vec() },
            ),
            Err(_) => None,
        }
    }

    /// `ed25519_dalek::Keypair::generate` with the operating system's random
    /// source. Claimed: the public key is the one derived from the random
    /// secret key, and a curve point.
    #[verifier::external_body]
    pub fn generate() -> (r: IdKeyPair)
        ensures
            r@.0.len() == 32,
            consistent_key_pair(r@),
    {
        let pair = ed25519_dalek::Keypair::generate(&mut rand_core::OsRng);
        let secret = pair.secret.to_bytes().to_vec();
        let public = pair.public.to_bytes().to_vec();
        IdKeyPair { pair, secret, public }
    }

    /// `ed25519_dalek::Keypair::sign` (the `Signer` trait): signs `message`.
    /// Claimed: the signature is `ed25519_signature` of the key pair and the
    /// message (ed25519 signing is deterministic), 64 bytes in signature
    /// form, and it verifies under the public key when the public key is the
    /// one derived from the secret key.
    #[verifier::external_body]
    pub fn sign(&self, message: &[u8]) -> (r: Vec<u8>)
        ensures
            r@ == ed25519_signature(self@.0, self@.1, message@),
            signature_form(r@),
            self@.1 == ed25519_public_of(self@.0) ==> ed25519_verifies(self@.1, message@, r@),
    {
        self.pair.sign(message).to_bytes().to_vec()
    }

    /// The secret key's bytes.
    pub fn secret_bytes(&self) -> (r: Vec<u8>)
        ensures
            r@ == self@.0,
            r@.len() == 32,
    {
        proof {
            use_type_invariant(self);
        }
        let r = self.secret.clone();
        assert(r@ =~= self.secret@);
        r
    }

    /// The public key's bytes.
    pub fn public_bytes(&self) -> (r: Vec<u8>)
        ensures
            r@ == self@.1,
            r@.len() == 32,
    {
        proof {
            use_type_invariant(self);
        }
        let r = self.public.clone();
        assert(r@ =~= self.public@);
        r
    }

    /// The ed25519-dalek key pair that this pair holds.
    pub closed spec fn held_pair(&self) -> Ed25519Keypair {
        self.pair
    }

    /// The ed25519-dalek key pair, for callers outside the library.
    pub fn dalek_pair(&self) -> (r: &Ed25519Keypair)
        ensures
            *r == self.held_pair(),
    {
        &self.pair
    }
}

impl DhPublicKey {
    /// `x25519_dalek::PublicKey::from([u8; 32])`: any 32 bytes are an x25519
    /// public key. Claimed: the key's bytes are the given bytes.
    #[verifier::external_body]
    pub fn from_bytes(bytes: &[u8]) -> (r: DhPublicKey)
        requires
            bytes@.len() == 32,
        ensures
            r@ == bytes@,
    {
        let mut array = [0u8; 32];
        array.copy_from_slice(bytes);
        DhPublicKey { key: x25519_dalek::PublicKey::from(array), bytes: bytes.to_vec() }
    }

    /// The key's bytes.
    pub fn to_bytes(&self) -> (r: Vec<u8>)
        ensures
            r@ == self@,
    {
        let r = self.bytes.clone();
        assert(r@ =~= self.bytes@);
        r
    }

    /// The x25519-dalek key that this key holds.
    pub closed spec fn held_key(&self) -> X25519PublicKey {
        self.key
    }

    /// The x25519-dalek key, for callers outside the library.
    pub fn dalek_key(&self) -> (r: &X25519PublicKey)
        ensures
            *r == self.held_key(),
    {
        &self.key
    }
}

impl DhSecret {
    /// `x25519_dalek::StaticSecret::from([u8; 32])`: reads a secret key.
    /// Claimed, from its source: the key kept is the clamped input.
    #[verifier::external_body]
    pub fn from_bytes(bytes: &[u8]) -> (r: DhSecret)
        requires
            bytes@.len() == 32,
        ensures
            r@ == x25519_clamp(bytes@),
    {
        let mut array = [0u8; 32];
        array.copy_from_slice(bytes);
        let secret = x25519_dalek::StaticSecret::from(array);
        let bytes = secret.to_bytes().to_vec();
        DhSecret { secret, bytes }
    }

    /// `x25519_dalek::StaticSecret::new` with the operating system's random
    /// source. Claimed: a clamped 32-byte key.
    #[verifier::external_body]
    pub fn generate() -> (r: DhSecret)
        ensures
            r@.len() == 32,
            r@ == x25519_clamp(r@),
    {
        let secret = x25519_dalek::StaticSecret::new(&mut rand_core::OsRng);
        let bytes = secret.to_bytes().to_vec();
        DhSecret { secret, bytes }
    }

    /// `x25519_dalek::PublicKey::from(&StaticSecret)`: the public key of this
    /// secret. Claimed: 32 bytes, `x25519_public_of` the secret.
    #[verifier::external_body]
    pub fn public_key(&self) -> (r: DhPublicKey)
        ensures
            r@ == x25519_public_of(self@),
            r@.len() == 32,
    {
        let key = x25519_dalek::PublicKey::from(&self.secret);
        DhPublicKey { key, bytes: key.to_bytes().to_vec() }
    }

    /// The secret's bytes.
    pub fn to_bytes(&self) -> (r: Vec<u8>)
        ensures
            r@ == self@,
            x25519_secret_form(r@),
    {
        proof {
            use_type_invariant(self);
        }
        let r = self.bytes.clone();
        assert(r@ =~= self.bytes@);
        r
    }

    /// The x25519-dalek secret that this secret holds.
    pub closed spec fn held_secret(&self) -> X25519StaticSecret {
        self.secret
    }

    /// The x25519-dalek secret, for callers outside the library.
    pub fn dalek_secret(&self) -> (r: &X25519StaticSecret)
        ensures
            *r == self.held_secret(),
    {
        &self.secret
    }
}

/// `orion::hazardous::hash::sha2::sha512::Sha512::digest`. Claimed: the
/// 64-byte SHA-512 digest; orion's source fails only on inputs of more than
/// 2^125 bytes, so it succeeds here.
#[verifier::external_body]
pub fn sha512_digest(data: &[u8]) -> (r: Vec<u8>)
    ensures
        r@ == sha512(data@),
        r@.len() == 64,
{
    let digest = orion::hazardous::hash::sha2::sha512::Sha512::digest(data).unwrap();
    digest.as_ref().to_vec()
}

} // verus!
