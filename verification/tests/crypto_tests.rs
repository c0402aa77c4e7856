use base::crypto::{sha512_digest, DhSecret, IdKeyPair, IdPublicKey, IdSecretKey, IdSignature};
use base::error::BaseError;
use base::key_pair::KEYPAIR_LENGTH;
use base::snp::snp_core_types::{KeyPair, PrivateKey, PublicKey};

fn hex(s: &str) -> Vec<u8> {
    (0..s.len())
        .step_by(2)
        .map(|i| u8::from_str_radix(&s[i..i + 2], 16).unwrap())
        .collect()
}

const RFC8032_SECRET: &str = "9d61b19deffd5a60ba844af492ec2cc44449c5697b326919703bac031cae7f60";
const RFC8032_PUBLIC: &str = "d75a980182b10ab7d54bfed3c964073a0ee172f3daa62325af021a68f707511a";
const RFC8032_SIGNATURE: &str = "e5564300c360ac729086e2cc806e828a84877f1eb8e5d974d873e065224901555fb8821590a33bacc61e39701cf9b46bd25bf5f0595bbe24655141438e7a100b";

fn rfc8032_pair() -> IdKeyPair {
    let mut bytes = hex(RFC8032_SECRET);
    bytes.extend(hex(RFC8032_PUBLIC));
    IdKeyPair::from_bytes(&bytes).unwrap()
}

#[test]
fn ed25519_signature_matches_rfc8032_vector() {
    let pair = rfc8032_pair();
    assert_eq!(pair.secret_bytes(), hex(RFC8032_SECRET));
    assert_eq!(pair.public_bytes(), hex(RFC8032_PUBLIC));
    assert_eq!(pair.sign(&[]), hex(RFC8032_SIGNATURE));
}

#[test]
fn ed25519_verification_accepts_vector_and_rejects_other_message() {
    let key = IdPublicKey::from_bytes(&hex(RFC8032_PUBLIC)).unwrap();
    let signature = IdSignature::from_bytes(&hex(RFC8032_SIGNATURE)).unwrap();
    assert!(key.verify(&[], &signature));
    assert!(!key.verify(&[1], &signature));
    assert_eq!(key.to_bytes(), hex(RFC8032_PUBLIC));
}

#[test]
fn ed25519_reading_rejects_wrong_lengths() {
    assert!(IdPublicKey::from_bytes(&[0u8; 31]).is_none());
    assert!(IdSignature::from_bytes(&[0u8; 63]).is_none());
    let mut high = vec![0u8; 64];
    high[63] = 0xe0;
    assert!(IdSignature::from_bytes(&high).is_none());
    assert!(IdKeyPair::from_bytes(&[0u8; 63]).is_none());
    assert!(IdSecretKey::from_bytes(&[7u8; 31]).is_none());
    assert_eq!(IdSecretKey::from_bytes(&[7u8; 32]).unwrap().to_bytes(), vec![7u8; 32]);
}

#[test]
fn generated_key_pair_signs_verifiably() {
    let pair = IdKeyPair::generate();
    let key = IdPublicKey::from_bytes(&pair.public_bytes()).unwrap();
    let signature = IdSignature::from_bytes(&pair.sign(b"hello")).unwrap();
    assert!(key.verify(b"hello", &signature));
    assert!(!key.verify(b"hellp", &signature));
}

#[test]
fn x25519_public_key_matches_rfc7748_vector() {
    let secret = DhSecret::from_bytes(&hex(
        "77076d0a7318a57d3c16c17251b26645df4c2f87ebc0992ab177fba51db92c2a",
    ));
    assert_eq!(
        secret.public_key().to_bytes(),
        hex("8520f0098930a754748b7ddcb43ef75a0dbf3a0d26381af4eba4a98eaa9b4e6a")
    );
}

#[test]
fn x25519_secret_is_clamped() {
    let secret = DhSecret::from_bytes(&[0xffu8; 32]);
    let bytes = secret.to_bytes();
    assert_eq!(bytes[0], 0xf8);
    assert_eq!(bytes[31], 0x7f);
    assert_eq!(&bytes[1..31], &[0xffu8; 30][..]);
}

#[test]
fn sha512_of_abc() {
    assert_eq!(
        sha512_digest(b"abc"),
        hex("ddaf35a193617abacc417349ae20413112e6fa4e89a97ea20a9eeee64b55d39a2192992a274fc1a836ba3c23a3feebbd454d4423643ce80e2a9ac94fa54ca49f")
    );
}

#[test]
fn key_pair_converts_to_ed25519_pair() {
    let kp = KeyPair {
        private_key: Some(PrivateKey { key: hex(RFC8032_SECRET) }),
        public_key: Some(PublicKey { key: hex(RFC8032_PUBLIC) }),
    };
    assert_eq!(KEYPAIR_LENGTH, 64);
    let pair = kp.to_ed2559_kaypair();
    assert_eq!(pair.secret_bytes(), hex(RFC8032_SECRET));
    assert_eq!(pair.public_bytes(), hex(RFC8032_PUBLIC));
    assert_eq!(pair.sign(&[]), hex(RFC8032_SIGNATURE));
}

#[test]
fn public_key_conversions() {
    let key = PublicKey { key: hex(RFC8032_PUBLIC) };
    assert_eq!(key.as_pub_key().unwrap().to_bytes(), hex(RFC8032_PUBLIC));
    assert_eq!(key.as_x25519_pub_key().unwrap().to_bytes(), hex(RFC8032_PUBLIC));
    let short = PublicKey { key: vec![1, 2, 3] };
    assert_eq!(short.as_pub_key().err(), Some(BaseError::InvalidPublicKey));
    assert_eq!(short.as_x25519_pub_key().err(), Some(BaseError::InvalidKeySize));
    let address = key.get_address();
    assert_eq!(address.data, hex(RFC8032_PUBLIC)[12..].to_vec());
}

#[test]
fn checked_key_pair_conversion() {
    let kp = KeyPair {
        private_key: Some(PrivateKey { key: hex(RFC8032_SECRET) }),
        public_key: Some(PublicKey { key: hex(RFC8032_PUBLIC) }),
    };
    assert_eq!(kp.to_ed25519_keypair_checked().unwrap().public_bytes(), hex(RFC8032_PUBLIC));
    let missing = KeyPair { private_key: None, public_key: Some(PublicKey { key: hex(RFC8032_PUBLIC) }) };
    assert!(missing.to_ed25519_keypair_checked().is_none());
    let short = KeyPair {
        private_key: Some(PrivateKey { key: vec![1; 31] }),
        public_key: Some(PublicKey { key: hex(RFC8032_PUBLIC) }),
    };
    assert!(short.to_ed25519_keypair_checked().is_none());
}
