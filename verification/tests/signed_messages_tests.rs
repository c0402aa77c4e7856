use base::api_types_extensions::{Signed, SignedWithExternalVerifier};
use base::crypto::{DhSecret, IdKeyPair, IdPublicKey};
use base::error::BaseError;
use base::snp::snp_core_types::{
    ClientIdentityBundle, DialupInfo, EntityId, GroupMemberBundle, PrivateProviderIdentityBundle,
    ProviderNetInfo, ProviderSignedClientIdentityBundle, PublicKey, ServiceTermsBundle,
};
use base::snp::snp_payments::Address;
use base::snp::snp_server_api::{NewSessionRequest, TypedMessage};

fn entity_of(pair: &IdKeyPair, name: &str) -> EntityId {
    EntityId::new(PublicKey { key: pair.public_bytes() }, name.to_string())
}

fn dialup() -> DialupInfo {
    DialupInfo {
        end_point: 1,
        api_version: "0.1.0".to_string(),
        ip_address: "::1".to_string(),
        port: 8080,
        net_id: 1,
        name: "n".to_string(),
    }
}

#[test]
fn service_terms_sign_and_verify() {
    let pair = IdKeyPair::generate();
    let mut terms = ServiceTermsBundle {
        provider_id: Some(entity_of(&pair, "p")),
        service_terms: None,
        signature: None,
    };
    assert_eq!(terms.verify_signature(), Err(BaseError::MissingMessageSignature));
    terms.sign(&pair).unwrap();
    assert_eq!(terms.verify_signature(), Ok(()));
    terms.sign(&pair).unwrap();
    assert_eq!(terms.verify_signature(), Ok(()));
    terms.provider_id = Some(entity_of(&IdKeyPair::generate(), "p"));
    assert_eq!(terms.verify_signature(), Err(BaseError::ProviderSignatureMismatch));
}

#[test]
fn group_member_sign_and_verify() {
    let member = IdKeyPair::generate();
    let mut bundle = GroupMemberBundle {
        user_id: Some(entity_of(&member, "m")),
        group_id: Some(entity_of(&IdKeyPair::generate(), "g")),
        signature: None,
    };
    bundle.sign(&member).unwrap();
    assert_eq!(bundle.verify_signature(), Ok(()));
    assert_eq!(bundle.get_member_id().unwrap(), member.public_bytes());
    bundle.group_id = None;
    assert!(bundle.verify_signature().is_err());
}

#[test]
fn provider_net_info_sign_and_verify() {
    let provider = IdKeyPair::generate();
    let mut info = ProviderNetInfo {
        provider_id: Some(entity_of(&provider, "p")),
        dial_up_info: Some(dialup()),
        signature: None,
    };
    info.sign(&provider).unwrap();
    assert_eq!(info.verify_signature(), Ok(()));
    assert_eq!(info.get_dialup_info().unwrap(), &dialup());
    assert_eq!(info.get_pub_id().unwrap(), &provider.public_bytes()[..]);
    info.dial_up_info.as_mut().unwrap().port = 1;
    assert!(info.verify_signature().is_err());
}

#[test]
fn provider_signed_client_bundle_sign_and_verify() {
    let provider = PrivateProviderIdentityBundle::new(&dialup(), "p".to_string(), &Address { data: vec![1; 20] }, 1)
        .unwrap();
    let provider_pair = provider.provider_id_keypair.as_ref().unwrap().to_ed2559_kaypair();
    let client_pair = IdKeyPair::generate();
    let client = ClientIdentityBundle::new(
        &client_pair,
        &DhSecret::generate(),
        "c".to_string(),
        provider.public_bundle.as_ref().unwrap(),
        &Address { data: vec![2; 20] },
    )
    .unwrap();
    let mut signed = ProviderSignedClientIdentityBundle { client_bundle: Some(client), signature: None };
    assert_eq!(signed.verify_signature(), Err(BaseError::MissingMessageSignature));
    signed.sign(&provider_pair).unwrap();
    assert_eq!(signed.verify_signature(), Ok(()));
    assert_eq!(signed.get_client_entity().unwrap().nickname, "c");
    assert_eq!(signed.get_client_id().unwrap(), client_pair.public_bytes());
    signed.signature = None;
    signed.sign(&client_pair).unwrap();
    assert_eq!(signed.verify_signature(), Err(BaseError::ProviderSignatureMismatch));
}

#[test]
fn typed_message_sign_and_verify() {
    let sender = IdKeyPair::generate();
    let receiver = IdKeyPair::generate();
    let mut msg = TypedMessage {
        time_stamp: 12,
        msg_type: 3,
        message: vec![1, 2, 3],
        receiver: Some(entity_of(&receiver, "r")),
        sender: Some(entity_of(&sender, "s")),
        signature: None,
    };
    assert_eq!(msg.verify_signature(), Err(BaseError::MissingSignature));
    msg.sign(&sender).unwrap();
    assert_eq!(msg.verify_signature(), Ok(()));
    assert_eq!(msg.get_ika().unwrap().to_bytes(), sender.public_bytes());
    assert_eq!(msg.get_receiver_id().unwrap().to_bytes(), receiver.public_bytes());
    msg.message.push(4);
    assert!(msg.verify_signature().is_err());
}

#[test]
fn new_session_request_sign_and_verify() {
    let sender = IdKeyPair::generate();
    let eka = DhSecret::generate().public_key();
    let mut request = NewSessionRequest {
        time_stamp: 5,
        receiver: Some(entity_of(&IdKeyPair::generate(), "r")),
        sender_ephemeral_key: Some(PublicKey { key: eka.to_bytes() }),
        receiver_bundle_id: 1,
        receiver_one_time_prekey_id: 0,
        message: None,
        sender_signature: None,
        net_id: 0,
        protocol_version: "1".to_string(),
    };
    request.sign(&sender).unwrap();
    let sender_key = IdPublicKey::from_bytes(&sender.public_bytes()).unwrap();
    assert_eq!(request.verify_signature(&sender_key), Ok(()));
    assert_eq!(request.get_eka().unwrap().to_bytes(), eka.to_bytes());
    assert_eq!(request.get_dr_session_id().err(), Some(BaseError::MissingMessage));
    let other = IdPublicKey::from_bytes(&IdKeyPair::generate().public_bytes()).unwrap();
    assert_eq!(request.verify_signature(&other), Err(BaseError::SenderSignatureMismatch));
}
