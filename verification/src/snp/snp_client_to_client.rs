//! Client-to-client messages about channels and paid content items.
use crate::snp::snp_core_types::{
    ChannelContentItem, ChannelSubscriptionRequestData, ContentItem, EntityId,
};
use crate::snp::snp_payments::TransactionId;
use vstd::prelude::*;

verus! {

/// A request to subscribe to a channel or join a group.
#[derive(Clone, PartialEq, Eq, Debug)]
pub struct ChannelSubscriptionRequest {
    pub subscription_request_data: Option<ChannelSubscriptionRequestData>,
}

#[derive(Clone, PartialEq, Eq, Debug)]
pub struct ChannelSubscriptionResponse {
    pub channel_id: Vec<u8>,
    pub subscribed: bool,
    /// a welcome or rejection message
    pub message: String,
}

/// A request to unsubscribe from a channel or leave a group.
#[derive(Clone, PartialEq, Eq, Debug)]
pub struct CancelChannelSubscription {
    pub time_stamp: u64,
    pub channel_id: Vec<u8>,
    pub user: Option<EntityId>,
    pub message: String,
}

#[derive(Clone, PartialEq, Eq, Debug)]
pub struct CancelChannelSubscriptionResponse {
    pub channel_id: Vec<u8>,
}

/// A new channel message, from the channel's creator to its subscribers.
#[derive(Clone, PartialEq, Eq, Debug)]
pub struct NewChannelMessage {
    pub content_item: Option<ChannelContentItem>,
}

/// A request from an author to a channel's owner to post a message.
#[derive(Clone, PartialEq, Eq, Debug)]
pub struct NewChannelMessageRequest {
    pub content_item: Option<ContentItem>,
}

#[derive(Clone, PartialEq, Eq, Debug)]
pub struct NewChannelMessageResponse {}

/// A request for the items a client has for sale.
#[derive(Clone, PartialEq, Eq, Debug)]
pub struct ListPaidItemsRequest {}

#[derive(Clone, PartialEq, Eq, Debug)]
pub struct ListPaidItemsResponse {
    pub content_items: Vec<ContentItem>,
}

/// A request for an item's metadata.
#[derive(Clone, PartialEq, Eq, Debug)]
pub struct GetItemDataRequest {
    pub item_id: u64,
}

#[derive(Clone, PartialEq, Eq, Debug)]
pub struct GetItemDataResponse {
    pub item: Option<ContentItem>,
}

/// A request to buy a paid item.
#[derive(Clone, PartialEq, Eq, Debug)]
pub struct BuyItemRequest {
    pub item_id: u64,
    pub transaction_id: Option<TransactionId>,
}

#[derive(Clone, PartialEq, Eq, Debug)]
pub struct BuyItemResponse {
    /// A `BuyItemResult`, as its number.
    pub result: i32,
    pub receipt_id: u64,
    pub item: Option<ContentItem>,
}

/// The outcome of a request to buy an item.
#[derive(Clone, Copy, PartialEq, Eq, Debug)]
pub enum BuyItemResult {
    InvalidTransaction,
    ItemNotFound,
    Success,
}

} // verus!
