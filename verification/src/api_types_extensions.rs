//! Signed messages: the signing and verification that each signed message
//! type provides, and what a signature made by the library is.
use crate::crypto::{
    ed25519_point_valid, ed25519_public_of, ed25519_signature, ed25519_verifies, signature_form,
    IdKeyPair, IdPublicKey,
};
use crate::error::BaseError;
use crate::snp::snp_core_types::Signature;
use vstd::prelude::*;

verus! {

/// A message that carries its signer's public key, so it can be verified on its own.
pub trait Signed: Sized {
    /// Signs the message with `signer`.
    fn sign(&mut self, signer: &IdKeyPair) -> Result<(), BaseError>;

    /// Checks the message's signature against the public key it carries.
    fn verify_signature(&self) -> Result<(), BaseError>;
}

/// A message whose verifier's public key comes from elsewhere.
pub trait SignedWithExternalVerifier: Sized {
    /// Signs the message with `signer`.
    fn sign(&mut self, signer: &IdKeyPair) -> Result<(), BaseError>;

    /// Checks the message's signature against `signer`'s public key.
    fn verify_signature(&self, signer: &IdPublicKey) -> Result<(), BaseError>;
}

/// Whether bytes are an ed25519 public key: 32 bytes that are a curve point.
pub open spec fn id_key_valid(bytes: Seq<u8>) -> bool {
    bytes.len() == 32 && ed25519_point_valid(bytes)
}

/// The signature bytes that the key pair `kp` makes over `payload`, and what
/// holds of them: they are in signature form, and they verify under the
/// public key when that key is the one derived from the secret key.
pub open spec fn signature_bytes_made(bytes: Seq<u8>, kp: (Seq<u8>, Seq<u8>), payload: Seq<u8>) -> bool {
    &&& bytes == ed25519_signature(kp.0, kp.1, payload)
    &&& signature_form(bytes)
    &&& kp.1 == ed25519_public_of(kp.0) ==> ed25519_verifies(kp.1, payload, bytes)
}

/// A signature field that holds, under scheme 0, the signature that `kp`
/// makes over `payload`.
pub open spec fn signature_made(sig: Option<Signature>, kp: (Seq<u8>, Seq<u8>), payload: Seq<u8>) -> bool {
    &&& sig is Some
    &&& sig->0.scheme_id == 0
    &&& signature_bytes_made(sig->0.signature@, kp, payload)
}

/// Signs `payload` with `signer` into a scheme-0 signature.
pub fn make_signature(signer: &IdKeyPair, payload: &[u8]) -> (r: Signature)
    ensures
        signature_made(Some(r), signer@, payload@),
{
    let bytes = signer.sign(payload);
    Signature { scheme_id: 0, signature: bytes }
}

} // verus!
