use base::api_types_extensions::{Signed, SignedWithExternalVerifier};
use base::crypto::{DhSecret, IdKeyPair, IdPublicKey};
use base::encoding::encode_to_vec;
use base::error::BaseError;
use base::snp::snp_core_types::{
    ChannelContentItem, ClientIdentityBundle, ContentItem, DialupInfo, EntityId,
    PrivateProviderIdentityBundle, ProviderIdentityBundle, PublicKey,
};
use base::snp::snp_payments::Address;

fn dialup() -> DialupInfo {
    DialupInfo {
        end_point: 0,
        api_version: "0.1.0".to_string(),
        ip_address: "127.0.0.1".to_string(),
        port: 5555,
        net_id: 7,
        name: "node".to_string(),
    }
}

fn address() -> Address {
    Address { data: vec![9u8; 20] }
}

fn provider() -> PrivateProviderIdentityBundle {
    PrivateProviderIdentityBundle::new(&dialup(), "provider".to_string(), &address(), 7).unwrap()
}

#[test]
fn new_provider_bundle_is_signed_and_complete() {
    let private = provider();
    let public = private.public_bundle.clone().unwrap();
    assert_eq!(public.verify_signature(), Ok(()));
    assert_eq!(public.net_id, 7);
    assert_eq!(public.dial_up_info.len(), 1);
    assert_eq!(public.dial_up_info[0], dialup());
    assert_eq!(public.address, Some(address()));
    assert_eq!(public.pre_key.as_ref().unwrap().x2dh_version, "0.1.0");
    assert_eq!(public.pre_key.as_ref().unwrap().key_id, 0);
    assert_eq!(public.provider_id.as_ref().unwrap().nickname, "provider");
    assert!(public.one_time_keys.is_empty());
    assert!(private.one_time_keys_pairs.is_empty());
    assert_eq!(private.get_payment_address().unwrap(), address());
    assert_eq!(private.get_provider_id_entity().unwrap().nickname, "provider");
}

#[test]
fn new_provider_bundle_keeps_its_keys() {
    let private = provider();
    let id_pair = private.provider_id_keypair.as_ref().unwrap();
    let secret = private.get_provider_private_key().unwrap();
    assert_eq!(&secret.to_bytes(), &id_pair.private_key.as_ref().unwrap().key);
    let public = private.public_bundle.as_ref().unwrap();
    assert_eq!(
        &public.get_provider_id_public_key().unwrap().key,
        &id_pair.public_key.as_ref().unwrap().key
    );
    let pre_secret = private.get_prekey_as_static_secret().unwrap();
    assert_eq!(
        pre_secret.public_key().to_bytes(),
        public.get_provider_x25519_pre_key().unwrap().to_bytes()
    );
    assert_eq!(
        public.get_provider_id_ed25519_public_key().unwrap().to_bytes(),
        id_pair.public_key.as_ref().unwrap().key
    );
}

#[test]
fn provider_bundle_for_given_keys() {
    let pair = IdKeyPair::generate();
    let pre = DhSecret::generate();
    let private = PrivateProviderIdentityBundle::new_for_id(
        &pair,
        &pre,
        &dialup(),
        "p".to_string(),
        &address(),
        3,
    )
    .unwrap();
    let public = private.public_bundle.as_ref().unwrap();
    assert_eq!(public.verify_signature(), Ok(()));
    assert_eq!(private.pre_key.as_ref().unwrap().key, pre.to_bytes());
    assert_eq!(
        public.pre_key.as_ref().unwrap().key.as_ref().unwrap().key,
        pre.public_key().to_bytes()
    );
    assert_eq!(public.provider_id.as_ref().unwrap().public_key.as_ref().unwrap().key, pair.public_bytes());
}

#[test]
fn tampered_provider_bundle_fails_verification() {
    let mut public = provider().public_bundle.unwrap();
    public.net_id = 8;
    assert_eq!(public.verify_signature(), Err(BaseError::ProviderSignatureMismatch));
    public.provider_signature = None;
    assert_eq!(public.verify_signature(), Err(BaseError::MissingMessageSignature));
}

#[test]
fn private_bundle_accessor_errors() {
    let mut private = provider();
    private.pre_key.as_mut().unwrap().key = vec![1, 2, 3];
    assert_eq!(private.get_prekey_as_static_secret().err(), Some(BaseError::InvalidKeySize));
    private.pre_key = None;
    assert_eq!(private.get_prekey_as_static_secret().err(), Some(BaseError::MissingPrekeyData));
    private.provider_id_keypair.as_mut().unwrap().private_key.as_mut().unwrap().key = vec![1];
    assert_eq!(private.get_provider_private_key().err(), Some(BaseError::InvalidData));
    private.provider_id_keypair.as_mut().unwrap().private_key = None;
    assert_eq!(private.get_provider_private_key().err(), Some(BaseError::MissingPrivateKey));
    private.provider_id_keypair = None;
    assert_eq!(private.get_provider_private_key().err(), Some(BaseError::MissingProviderIdKeyPair));
    private.public_bundle.as_mut().unwrap().address = None;
    assert_eq!(private.get_payment_address().err(), Some(BaseError::MissingAddress));
    private.public_bundle = None;
    assert_eq!(private.get_payment_address().err(), Some(BaseError::MissingBundle));
    assert_eq!(private.get_provider_id_entity().err(), Some(BaseError::MissingPublicBundle));
}

#[test]
fn new_client_bundle_is_signed_and_complete() {
    let provider_bundle = provider().public_bundle.unwrap();
    let pair = IdKeyPair::generate();
    let pre = DhSecret::generate();
    let bundle =
        ClientIdentityBundle::new(&pair, &pre, "alice".to_string(), &provider_bundle, &address())
            .unwrap();
    assert_eq!(bundle.verify_signature(), Ok(()));
    assert_eq!(bundle.provider_bundle, Some(provider_bundle));
    assert_eq!(bundle.net_id, 0);
    assert_eq!(bundle.get_client_entity().unwrap().nickname, "alice");
    assert_eq!(bundle.get_client_id_public_key().unwrap().key, pair.public_bytes());
    assert_eq!(bundle.get_client_pre_key().unwrap().key, pre.public_key().to_bytes());
    assert_eq!(bundle.get_client_x25519_pre_key().unwrap().to_bytes(), pre.public_key().to_bytes());
    assert_eq!(bundle.get_client_id_ed25519_public_key().unwrap().to_bytes(), pair.public_bytes());
    assert_eq!(bundle.pre_key.as_ref().unwrap().x2dh_version, "");
}

#[test]
fn client_bundle_signature_covers_its_fields() {
    let provider_bundle = provider().public_bundle.unwrap();
    let pair = IdKeyPair::generate();
    let mut bundle = ClientIdentityBundle::new(
        &pair,
        &DhSecret::generate(),
        "bob".to_string(),
        &provider_bundle,
        &address(),
    )
    .unwrap();
    bundle.time_stamp += 1;
    assert_eq!(bundle.verify_signature(), Err(BaseError::ClientSignatureMismatch));
    bundle.signature = None;
    bundle.sign(&pair).unwrap();
    assert_eq!(bundle.verify_signature(), Ok(()));
    let other = IdKeyPair::generate();
    bundle.signature = None;
    bundle.sign(&other).unwrap();
    assert_eq!(bundle.verify_signature(), Err(BaseError::ClientSignatureMismatch));
    bundle.client_id.as_mut().unwrap().public_key = Some(PublicKey { key: vec![1, 2] });
    assert_eq!(bundle.verify_signature(), Err(BaseError::InvalidPublicKey));
    bundle.client_id = None;
    assert_eq!(bundle.verify_signature(), Err(BaseError::MissingClientId));
}

#[test]
fn client_bundle_getters_report_missing_data() {
    let bundle = ClientIdentityBundle {
        time_stamp: 0,
        client_id: None,
        address: None,
        provider_bundle: None,
        pre_key: None,
        one_time_keys: vec![],
        profile_image: None,
        signature: None,
        net_id: 0,
    };
    assert_eq!(bundle.get_client_pre_key().err(), Some(BaseError::MissingPrekeyData));
    assert_eq!(bundle.get_client_x25519_pre_key().err(), Some(BaseError::MissingPrekeyData));
    assert_eq!(bundle.get_client_id_public_key().err(), Some(BaseError::MissingProviderIdData));
    assert_eq!(
        bundle.get_client_id_ed25519_public_key().err(),
        Some(BaseError::MissingProviderIdData)
    );
}

#[test]
fn provider_bundle_getters_report_missing_data() {
    let bundle = ProviderIdentityBundle {
        time_stamp: 0,
        provider_id: Some(EntityId { public_key: None, nickname: String::new() }),
        address: None,
        dial_up_info: vec![],
        pre_key: None,
        one_time_keys: vec![],
        profile_image: None,
        current_bond_id: 0,
        provider_signature: None,
        net_id: 0,
    };
    assert_eq!(bundle.get_provider_pre_key().err(), Some(BaseError::MissingPrekeyData));
    assert_eq!(bundle.get_provider_x25519_pre_key().err(), Some(BaseError::MissingPrekeyData));
    assert_eq!(bundle.get_provider_id_public_key().err(), Some(BaseError::MissingPublicKeyData));
    assert_eq!(bundle.verify_signature(), Err(BaseError::MissingPublicKey));
}

#[test]
fn content_item_sign_and_verify() {
    let pair = IdKeyPair::generate();
    let author = EntityId::new(PublicKey { key: pair.public_bytes() }, "alice".to_string());
    let mut item = ContentItem::new_one_to_one_text_message("hi there".to_string(), author, 5);
    assert_eq!(item.get_simple_text_content().unwrap(), "hi there");
    assert_eq!(item.reply_to, 5);
    assert_eq!(item.media_item[0].content, b"hi there".to_vec());
    assert!(item.channel_id.is_empty());
    assert_eq!(item.verify_signature(), Err(BaseError::MissingAuthorSignature));
    item.sign(&pair).unwrap();
    assert_eq!(item.verify_signature(), Ok(()));
    item.price = 1;
    assert!(item.verify_signature().is_err());
}

#[test]
fn channel_text_message_and_channel_item() {
    let author_pair = IdKeyPair::generate();
    let channel_pair = IdKeyPair::generate();
    let author = EntityId::new(PublicKey { key: author_pair.public_bytes() }, "a".to_string());
    let mut item = ContentItem::new_channel_text_message(
        "post".to_string(),
        author,
        vec![1, 2, 3],
        0,
    );
    assert_eq!(item.channel_id, vec![1, 2, 3]);
    item.sign(&author_pair).unwrap();
    let mut channel_item = ChannelContentItem::new(item);
    channel_item.sign(&channel_pair).unwrap();
    let channel_key = IdPublicKey::from_bytes(&channel_pair.public_bytes()).unwrap();
    assert_eq!(channel_item.verify_signature(&channel_key), Ok(()));
    let other_key = IdPublicKey::from_bytes(&author_pair.public_bytes()).unwrap();
    assert!(channel_item.verify_signature(&other_key).is_err());
}

#[test]
fn simple_text_content_errors() {
    let author = EntityId::new(PublicKey { key: vec![1] }, String::new());
    let mut item = ContentItem::new_one_to_one_text_message("x".to_string(), author, 0);
    item.media_item[0].content = vec![0xff, 0xfe];
    assert_eq!(item.get_simple_text_content().err(), Some(BaseError::InvalidUtf8));
    item.media_item.clear();
    assert_eq!(item.get_simple_text_content().err(), Some(BaseError::MissingContent));
}

#[test]
fn entity_id_accessors() {
    let e = EntityId::new(PublicKey { key: vec![4, 5] }, "n".to_string());
    assert_eq!(e.get_id().unwrap(), &vec![4, 5]);
    assert_eq!(e.get_ed_pub_key().err(), Some(BaseError::InvalidPublicKey));
    let none = EntityId { public_key: None, nickname: String::new() };
    assert!(none.get_id().is_err());
}

#[test]
fn public_key_encodes_as_protobuf() {
    let key = PublicKey { key: vec![1, 2, 3] };
    assert_eq!(encode_to_vec(&key), vec![0x0a, 0x03, 1, 2, 3]);
    let empty = PublicKey { key: vec![] };
    assert_eq!(encode_to_vec(&empty), Vec::<u8>::new());
}

#[test]
fn entity_id_encodes_as_protobuf() {
    let e = EntityId::new(PublicKey { key: vec![7] }, "ab".to_string());
    assert_eq!(encode_to_vec(&e), vec![0x0a, 0x03, 0x0a, 0x01, 7, 0x12, 0x02, b'a', b'b']);
}
