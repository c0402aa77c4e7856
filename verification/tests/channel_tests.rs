use base::crypto::IdKeyPair;
use base::error::BaseError;
use base::snp::snp_core_types::{
    ChannelData, ChannelSubscriber, DialupInfo, EntityId, GroupMemberBundle, GroupMembersBundle,
    PublicKey,
};

fn entity(id: u8) -> EntityId {
    EntityId { public_key: Some(PublicKey { key: vec![id; 4] }), nickname: format!("e{}", id) }
}

fn subscriber(id: u8, date: u64) -> ChannelSubscriber {
    ChannelSubscriber { user_id: Some(entity(id)), date_subscribed: date, time_next_payment_due: 0 }
}

fn member(id: u8) -> GroupMemberBundle {
    GroupMemberBundle { user_id: Some(entity(id)), group_id: None, signature: None }
}

fn channel(subscribers: Vec<ChannelSubscriber>) -> ChannelData {
    ChannelData {
        bundle: None,
        discoverable: false,
        last_updated: 0,
        blocked_repliers: vec![],
        content_items: vec![],
        sub_requests: vec![],
        subscribers,
        group_members: None,
        channel_key_pair: vec![],
    }
}

#[test]
fn finds_first_subscriber_with_id() {
    let data = channel(vec![subscriber(1, 10), subscriber(2, 20), subscriber(2, 30)]);
    assert_eq!(data.get_subscriber(&[2u8; 4]).unwrap().unwrap().date_subscribed, 20);
    assert_eq!(data.get_subscriber(&[3u8; 4]).unwrap(), None);
    assert!(data.subscribers[0].has_subscriber_id(&[1u8; 4]));
    assert!(!data.subscribers[0].has_subscriber_id(&[2u8; 4]));
    assert_eq!(data.subscribers[1].get_subscriber_id().unwrap(), &vec![2u8; 4]);
}

#[test]
fn channel_data_without_bundle() {
    let data = channel(vec![]);
    assert_eq!(data.get_bundle().err(), Some(BaseError::MissingBundle));
    assert_eq!(data.get_channel_id().err(), Some(BaseError::MissingData));
}

#[test]
fn subscriber_id_errors() {
    let s = ChannelSubscriber { user_id: None, date_subscribed: 0, time_next_payment_due: 0 };
    assert_eq!(s.get_subscriber_id().err(), Some(BaseError::MissingClientId));
    let s = ChannelSubscriber {
        user_id: Some(EntityId { public_key: None, nickname: String::new() }),
        date_subscribed: 0,
        time_next_payment_due: 0,
    };
    assert_eq!(s.get_subscriber_id().err(), Some(BaseError::MissingPubKey));
}

#[test]
fn finds_group_member() {
    let group = GroupMembersBundle {
        created: 0,
        group_id: Some(entity(9)),
        creator_id: Some(entity(8)),
        members: vec![member(1), member(2)],
        group_signature: None,
        creator_signature: None,
    };
    assert_eq!(group.get_member(&[2u8; 4]).unwrap().get_member_id().unwrap(), vec![2u8; 4]);
    assert!(group.get_member(&[5u8; 4]).is_none());
}

#[test]
fn group_sign_sets_both_signatures() {
    let mut group = GroupMembersBundle {
        created: 0,
        group_id: Some(entity(9)),
        creator_id: Some(entity(8)),
        members: vec![member(1)],
        group_signature: None,
        creator_signature: None,
    };
    group.sign(&IdKeyPair::generate(), &IdKeyPair::generate()).unwrap();
    assert_eq!(group.group_signature.as_ref().unwrap().signature.len(), 64);
    assert_eq!(group.creator_signature.as_ref().unwrap().signature.len(), 64);
    assert_eq!(group.members.len(), 1);
}

#[test]
fn member_id_errors() {
    let m = GroupMemberBundle { user_id: None, group_id: None, signature: None };
    assert_eq!(m.get_member_id().err(), Some(BaseError::MissingClientId));
}

#[test]
fn dialup_info_describes_itself() {
    let d = DialupInfo {
        end_point: 0,
        api_version: "1.2".to_string(),
        ip_address: "10.0.0.1".to_string(),
        port: 5555,
        net_id: 0,
        name: "n1".to_string(),
    };
    assert_eq!(d.describe(), "name: n1, address: 10.0.0.1:5555, api version: 1.2, net_id: 0");
    let empty = DialupInfo::new();
    assert_eq!(empty.describe(), "name: , address: :0, api version: , net_id: 0");
    assert_eq!(empty.port, 0);
}
