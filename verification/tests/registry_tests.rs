use base::error::BaseError;
use base::rpc_routes::{BlockchainServiceMethod, ProviderCoreServiceMethod, SimpleClientUserServiceMethod};
use base::snp::snp_core_types::{ClientIdentityBundle, ProviderIdentityBundle};
use base::snp::snp_decentralized_storage::{StoreDataRequest, StoredDataType};
use base::snp::snp_server_api::message_type::MessageType;
use base::snp::snp_server_api::TypedMessage;
use base::time_utils::timestamp_parts;
use base::typed_msgs_dispatcher::TypedMessagesDispatcher;

fn typed(msg_type: i32) -> TypedMessage {
    TypedMessage {
        time_stamp: 0,
        msg_type,
        message: vec![],
        receiver: None,
        sender: None,
        signature: None,
    }
}

fn request(data_type: i32) -> StoreDataRequest {
    StoreDataRequest { key: vec![], value: vec![1, 2], data_type, net_info: None }
}

#[test]
fn dispatcher_routes_to_the_subscriber_of_a_type() {
    let mut d: TypedMessagesDispatcher<&str> = TypedMessagesDispatcher::new();
    assert_eq!(d.subscriber_for(&typed(3)).err(), Some(BaseError::NoSubscriber));
    d.subscribe(3, "a").unwrap();
    d.subscribe(4, "b").unwrap();
    assert_eq!(d.subscriber_for(&typed(3)), Ok(&"a"));
    assert_eq!(d.subscriber_for(&typed(4)), Ok(&"b"));
    d.subscribe(3, "c").unwrap();
    assert_eq!(d.subscriber_for(&typed(3)), Ok(&"c"));
    d.unsubscribe(3).unwrap();
    assert_eq!(d.subscriber_for(&typed(3)).err(), Some(BaseError::NoSubscriber));
    assert_eq!(d.subscriber_for(&typed(4)), Ok(&"b"));
    d.unsubscribe(99).unwrap();
    assert_eq!(d.subscriber_for(&typed(4)), Ok(&"b"));
}

#[test]
fn default_dispatcher_is_empty() {
    let d: TypedMessagesDispatcher<u8> = TypedMessagesDispatcher::default();
    assert_eq!(d.subscriber_for(&typed(0)).err(), Some(BaseError::NoSubscriber));
}

#[test]
fn blockchain_routes() {
    let m = BlockchainServiceMethod::GetSealedBlocksCountByEntity;
    assert_eq!(m.path(), "/snp.blockchain.BlockchainService/GetSealedBlocksCountByEntity");
    assert_eq!(BlockchainServiceMethod::from_path(m.path()), Some(m));
    assert_eq!(
        BlockchainServiceMethod::from_path("/snp.blockchain.BlockchainService/SubmitTransaction"),
        Some(BlockchainServiceMethod::SubmitTransaction)
    );
    assert_eq!(BlockchainServiceMethod::from_path("/snp.blockchain.BlockchainService/Nope"), None);
    assert_eq!(BlockchainServiceMethod::from_path(""), None);
}

#[test]
fn provider_core_and_client_routes() {
    assert_eq!(
        ProviderCoreServiceMethod::from_path("/snp.server_api.ProviderCoreService/Message"),
        Some(ProviderCoreServiceMethod::Message)
    );
    assert_eq!(ProviderCoreServiceMethod::from_path("/snp.blockchain.BlockchainService/GetBlock"), None);
    let m = SimpleClientUserServiceMethod::SetBlockchainService;
    assert_eq!(SimpleClientUserServiceMethod::from_path(m.path()), Some(m));
    assert_eq!(
        SimpleClientUserServiceMethod::UserNewPost.path(),
        "/upsetter.simple_client.SimpleClientUserService/UserNewPost"
    );
}

#[test]
fn store_request_validation() {
    assert_eq!(request(0).validate_data(true), Ok(()));
    assert_eq!(request(1).validate_data(true), Ok(()));
    assert_eq!(request(0).validate_data(false), Err(BaseError::InvalidData));
    assert_eq!(request(2).validate_data(true), Err(BaseError::UnexpectedDataType));
    assert_eq!(StoredDataType::ClientBundle.to_i32(), 0);
    assert_eq!(StoredDataType::from_i32(1), Some(StoredDataType::ProviderBundle));
    assert_eq!(StoredDataType::from_i32(2), None);
}

#[test]
fn store_request_bundles() {
    let client = ClientIdentityBundle {
        time_stamp: 1,
        client_id: None,
        address: None,
        provider_bundle: None,
        pre_key: None,
        one_time_keys: vec![],
        profile_image: None,
        signature: None,
        net_id: 0,
    };
    assert_eq!(request(0).get_client_bundle(Some(client.clone())), Ok(client.clone()));
    assert_eq!(request(0).get_client_bundle(None), Err(BaseError::InvalidData));
    assert_eq!(request(1).get_client_bundle(Some(client)), Err(BaseError::InvalidDataType));
    assert_eq!(request(1).get_provider_bundle(None), Err(BaseError::InvalidData));
    let provider: Option<ProviderIdentityBundle> = None;
    assert_eq!(request(0).get_provider_bundle(provider), Err(BaseError::InvalidDataType));
}

#[test]
fn message_type_numbers_and_text() {
    assert_eq!(MessageType::from_i32(0), Some(MessageType::ServiceTermsRequest));
    assert_eq!(MessageType::ServiceTermsRequest.description(), "ServiceTerms request");
    assert_eq!(MessageType::RouteMessageResponse.description(), "RouteMessage request");
    for v in 0..100 {
        if let Some(t) = MessageType::from_i32(v) {
            assert_eq!(t.to_i32(), v);
        }
    }
    assert_eq!(MessageType::from_i32(-1), None);
}

#[test]
fn timestamp_splits_into_seconds_and_nanos() {
    assert_eq!(timestamp_parts(1_500_000_000_123), (1500, 123));
    assert_eq!(timestamp_parts(999_999_999), (0, 999_999_999));
    assert_eq!(timestamp_parts(u64::MAX), (18_446_744_073, 709_551_615));
}
