//! The run-time type of a typed message: its number and its description.
use vstd::prelude::*;

verus! {

/// The run-time type of a `TypedMessage`'s payload.
#[derive(Clone, Copy, PartialEq, Eq, Debug)]
pub enum MessageType {
    ServiceTermsRequest,
    ServiceTermsResponse,
    StartServiceRequest,
    StartServiceResponse,
    StopServiceRequest,
    StopServiceResponse,
    ForwardMessageRequest,
    ForwardMessageResponse,
    SubscribeClientMessages,
    RouteMessageRequest,
    RouteMessageResponse,
    TextMessageRequest,
    TextMessageResponse,
    ChannelSubscribeRequest,
    ChannelSubscribeResponse,
    ChannelUnsubscribeRequest,
    ChannelUnsubscribeResponse,
    ChannelMessage,
    ChannelMessageRequest,
    ChannelMessageResponse,
    BuyItemRequest,
    BuyItemResponse,
    ListPaidItemsRequest,
    ListPaidItemsResponse,
    ClientMessagesMetadata,
    DeliverClientMessagesRequest,
    DeliverClientMessagesResponse,
    GetProviderBundleRequest,
    GetProviderBundleResponse,
    GetClientBundleRequest,
    GetClientBundleResponse,
    StoreDataRequest,
    StoreDataResponse,
    ReadDataRequest,
    ReadDataResponse,
    PingNodeRequest,
    PingNodeResponse,
}

/// The number that stands for a message type on the wire.
pub open spec fn message_type_code(t: MessageType) -> i32 {
    match t {
        MessageType::ServiceTermsRequest => 0,
        MessageType::ServiceTermsResponse => 1,
        MessageType::StartServiceRequest => 2,
        MessageType::StartServiceResponse => 3,
        MessageType::StopServiceRequest => 4,
        MessageType::StopServiceResponse => 5,
        MessageType::ForwardMessageRequest => 6,
        MessageType::ForwardMessageResponse => 7,
        MessageType::SubscribeClientMessages => 8,
        MessageType::RouteMessageRequest => 9,
        MessageType::RouteMessageResponse => 10,
        MessageType::TextMessageRequest => 11,
        MessageType::TextMessageResponse => 12,
        MessageType::ChannelSubscribeRequest => 13,
        MessageType::ChannelSubscribeResponse => 14,
        MessageType::ChannelUnsubscribeRequest => 15,
        MessageType::ChannelUnsubscribeResponse => 16,
        MessageType::ChannelMessage => 17,
        MessageType::ChannelMessageRequest => 18,
        MessageType::ChannelMessageResponse => 19,
        MessageType::BuyItemRequest => 20,
        MessageType::BuyItemResponse => 21,
        MessageType::ListPaidItemsRequest => 22,
        MessageType::ListPaidItemsResponse => 23,
        MessageType::ClientMessagesMetadata => 24,
        MessageType::DeliverClientMessagesRequest => 25,
        MessageType::DeliverClientMessagesResponse => 26,
        MessageType::GetProviderBundleRequest => 27,
        MessageType::GetProviderBundleResponse => 28,
        MessageType::GetClientBundleRequest => 29,
        MessageType::GetClientBundleResponse => 30,
        MessageType::StoreDataRequest => 31,
        MessageType::StoreDataResponse => 32,
        MessageType::ReadDataRequest => 33,
        MessageType::ReadDataResponse => 34,
        MessageType::PingNodeRequest => 35,
        MessageType::PingNodeResponse => 36,
    }
}

/// A message type's human-readable description.
pub open spec fn message_type_text(t: MessageType) -> Seq<char> {
    match t {
        MessageType::ServiceTermsRequest => "ServiceTerms request"@,
        MessageType::ServiceTermsResponse => "ServiceTerms response"@,
        MessageType::StartServiceRequest => "StartService request"@,
        MessageType::StartServiceResponse => "StartService response"@,
        MessageType::StopServiceRequest => "StopService request"@,
        MessageType::StopServiceResponse => "StopService response"@,
        MessageType::ForwardMessageRequest => "ForwardMessage request"@,
        MessageType::ForwardMessageResponse => "ForwardMessage response"@,
        MessageType::SubscribeClientMessages => "Subscribe to client messages"@,
        MessageType::RouteMessageRequest => "RouteMessage request"@,
        MessageType::RouteMessageResponse => "RouteMessage request"@,
        MessageType::TextMessageRequest => "TextMessage request"@,
        MessageType::TextMessageResponse => "TextMessage response"@,
        MessageType::ChannelSubscribeRequest => "Subscribe to channel or join group request"@,
        MessageType::ChannelSubscribeResponse => "Subscribe to channel response"@,
        MessageType::ChannelUnsubscribeRequest => "Unsubscribe from channel or leave group request"@,
        MessageType::ChannelUnsubscribeResponse => "Unsubscribe channel response"@,
        MessageType::ChannelMessage => "Channel message"@,
        MessageType::ChannelMessageRequest => "Request to post a reply to a status update or send a group message from a non-channel owner"@,
        MessageType::ChannelMessageResponse => "Response from channel creator"@,
        MessageType::BuyItemRequest => "Buy a paid content item request"@,
        MessageType::BuyItemResponse => "Buy a paid content item response"@,
        MessageType::ListPaidItemsRequest => "List paid items available for sale request"@,
        MessageType::ListPaidItemsResponse => "Returns a list of paid items available for sale by client"@,
        MessageType::ClientMessagesMetadata => "A list of message's metadata that a provider has for a client"@,
        MessageType::DeliverClientMessagesRequest => "A request to deliver messages from a client to its provider"@,
        MessageType::DeliverClientMessagesResponse => "Provider response with client requested messages"@,
        MessageType::GetProviderBundleRequest => "Get a provider identity bundle"@,
        MessageType::GetProviderBundleResponse => "Returns provider bundle if exists in store"@,
        MessageType::GetClientBundleRequest => "Get a client provider-signed identity bundle "@,
        MessageType::GetClientBundleResponse => "Return client provider-signed bundle if exists in store"@,
        MessageType::StoreDataRequest => "Store client data on the provider"@,
        MessageType::StoreDataResponse => "Response to store client data request"@,
        MessageType::ReadDataRequest => "Read previously provider stored client data"@,
        MessageType::ReadDataResponse => "Return previously provider stored client data"@,
        MessageType::PingNodeRequest => "A ping request for node to return its net info"@,
        MessageType::PingNodeResponse => "A ping response, includes signed node net info"@,
    }
}

impl MessageType {
    /// The number that stands for this message type on the wire.
    pub fn to_i32(self) -> (r: i32)
        ensures
            r == message_type_code(self),
    {
        match self {
            MessageType::ServiceTermsRequest => 0,
            MessageType::ServiceTermsResponse => 1,
            MessageType::StartServiceRequest => 2,
            MessageType::StartServiceResponse => 3,
            MessageType::StopServiceRequest => 4,
            MessageType::StopServiceResponse => 5,
            MessageType::ForwardMessageRequest => 6,
            MessageType::ForwardMessageResponse => 7,
            MessageType::SubscribeClientMessages => 8,
            MessageType::RouteMessageRequest => 9,
            MessageType::RouteMessageResponse => 10,
            MessageType::TextMessageRequest => 11,
            MessageType::TextMessageResponse => 12,
            MessageType::ChannelSubscribeRequest => 13,
            MessageType::ChannelSubscribeResponse => 14,
            MessageType::ChannelUnsubscribeRequest => 15,
            MessageType::ChannelUnsubscribeResponse => 16,
            MessageType::ChannelMessage => 17,
            MessageType::ChannelMessageRequest => 18,
            MessageType::ChannelMessageResponse => 19,
            MessageType::BuyItemRequest => 20,
            MessageType::BuyItemResponse => 21,
            MessageType::ListPaidItemsRequest => 22,
            MessageType::ListPaidItemsResponse => 23,
            MessageType::ClientMessagesMetadata => 24,
            MessageType::DeliverClientMessagesRequest => 25,
            MessageType::DeliverClientMessagesResponse => 26,
            MessageType::GetProviderBundleRequest => 27,
            MessageType::GetProviderBundleResponse => 28,
            MessageType::GetClientBundleRequest => 29,
            MessageType::GetClientBundleResponse => 30,
            MessageType::StoreDataRequest => 31,
            MessageType::StoreDataResponse => 32,
            MessageType::ReadDataRequest => 33,
            MessageType::ReadDataResponse => 34,
            MessageType::PingNodeRequest => 35,
            MessageType::PingNodeResponse => 36,
        }
    }

    /// The message type that a number stands for, if any.
    pub fn from_i32(v: i32) -> (r: Option<MessageType>)
        ensures
            r matches Some(t) ==> message_type_code(t) == v,
            r is None <==> !(0 <= v <= 36),
    {
        match v {
            0 => Some(MessageType::ServiceTermsRequest),
            1 => Some(MessageType::ServiceTermsResponse),
            2 => Some(MessageType::StartServiceRequest),
            3 => Some(MessageType::StartServiceResponse),
            4 => Some(MessageType::StopServiceRequest),
            5 => Some(MessageType::StopServiceResponse),
            6 => Some(MessageType::ForwardMessageRequest),
            7 => Some(MessageType::ForwardMessageResponse),
            8 => Some(MessageType::SubscribeClientMessages),
            9 => Some(MessageType::RouteMessageRequest),
            10 => Some(MessageType::RouteMessageResponse),
            11 => Some(MessageType::TextMessageRequest),
            12 => Some(MessageType::TextMessageResponse),
            13 => Some(MessageType::ChannelSubscribeRequest),
            14 => Some(MessageType::ChannelSubscribeResponse),
            15 => Some(MessageType::ChannelUnsubscribeRequest),
            16 => Some(MessageType::ChannelUnsubscribeResponse),
            17 => Some(MessageType::ChannelMessage),
            18 => Some(MessageType::ChannelMessageRequest),
            19 => Some(MessageType::ChannelMessageResponse),
            20 => Some(MessageType::BuyItemRequest),
            21 => Some(MessageType::BuyItemResponse),
            22 => Some(MessageType::ListPaidItemsRequest),
            23 => Some(MessageType::ListPaidItemsResponse),
            24 => Some(MessageType::ClientMessagesMetadata),
            25 => Some(MessageType::DeliverClientMessagesRequest),
            26 => Some(MessageType::DeliverClientMessagesResponse),
            27 => Some(MessageType::GetProviderBundleRequest),
            28 => Some(MessageType::GetProviderBundleResponse),
            29 => Some(MessageType::GetClientBundleRequest),
            30 => Some(MessageType::GetClientBundleResponse),
            31 => Some(MessageType::StoreDataRequest),
            32 => Some(MessageType::StoreDataResponse),
            33 => Some(MessageType::ReadDataRequest),
            34 => Some(MessageType::ReadDataResponse),
            35 => Some(MessageType::PingNodeRequest),
            36 => Some(MessageType::PingNodeResponse),
            _ => None,
        }
    }

    /// A human-readable description of this message type.
    pub fn description(&self) -> (r: &'static str)
        ensures
            r@ == message_type_text(*self),
    {
        match self {
            MessageType::ServiceTermsRequest => "ServiceTerms request",
            MessageType::ServiceTermsResponse => "ServiceTerms response",
            MessageType::StartServiceRequest => "StartService request",
            MessageType::StartServiceResponse => "StartService response",
            MessageType::StopServiceRequest => "StopService request",
            MessageType::StopServiceResponse => "StopService response",
            MessageType::ForwardMessageRequest => "ForwardMessage request",
            MessageType::ForwardMessageResponse => "ForwardMessage response",
            MessageType::SubscribeClientMessages => "Subscribe to client messages",
            MessageType::RouteMessageRequest => "RouteMessage request",
            MessageType::RouteMessageResponse => "RouteMessage request",
            MessageType::TextMessageRequest => "TextMessage request",
            MessageType::TextMessageResponse => "TextMessage response",
            MessageType::ChannelSubscribeRequest => "Subscribe to channel or join group request",
            MessageType::ChannelSubscribeResponse => "Subscribe to channel response",
            MessageType::ChannelUnsubscribeRequest => "Unsubscribe from channel or leave group request",
            MessageType::ChannelUnsubscribeResponse => "Unsubscribe channel response",
            MessageType::ChannelMessage => "Channel message",
            MessageType::ChannelMessageRequest => "Request to post a reply to a status update or send a group message from a non-channel owner",
            MessageType::ChannelMessageResponse => "Response from channel creator",
            MessageType::BuyItemRequest => "Buy a paid content item request",
            MessageType::BuyItemResponse => "Buy a paid content item response",
            MessageType::ListPaidItemsRequest => "List paid items available for sale request",
            MessageType::ListPaidItemsResponse => "Returns a list of paid items available for sale by client",
            MessageType::ClientMessagesMetadata => "A list of message's metadata that a provider has for a client",
            MessageType::DeliverClientMessagesRequest => "A request to deliver messages from a client to its provider",
            MessageType::DeliverClientMessagesResponse => "Provider response with client requested messages",
            MessageType::GetProviderBundleRequest => "Get a provider identity bundle",
            MessageType::GetProviderBundleResponse => "Returns provider bundle if exists in store",
            MessageType::GetClientBundleRequest => "Get a client provider-signed identity bundle ",
            MessageType::GetClientBundleResponse => "Return client provider-signed bundle if exists in store",
            MessageType::StoreDataRequest => "Store client data on the provider",
            MessageType::StoreDataResponse => "Response to store client data request",
            MessageType::ReadDataRequest => "Read previously provider stored client data",
            MessageType::ReadDataResponse => "Return previously provider stored client data",
            MessageType::PingNodeRequest => "A ping request for node to return its net info",
            MessageType::PingNodeResponse => "A ping response, includes signed node net info",
        }
    }
}

/// The message types in the order that the protocol declares them.
pub open spec fn message_types_in_order() -> Seq<MessageType> {
    seq![
        MessageType::ServiceTermsRequest,
        MessageType::ServiceTermsResponse,
        MessageType::StartServiceRequest,
        MessageType::StartServiceResponse,
        MessageType::StopServiceRequest,
        MessageType::StopServiceResponse,
        MessageType::ForwardMessageRequest,
        MessageType::ForwardMessageResponse,
        MessageType::SubscribeClientMessages,
        MessageType::RouteMessageRequest,
        MessageType::RouteMessageResponse,
        MessageType::TextMessageRequest,
        MessageType::TextMessageResponse,
        MessageType::ChannelSubscribeRequest,
        MessageType::ChannelSubscribeResponse,
        MessageType::ChannelUnsubscribeRequest,
        MessageType::ChannelUnsubscribeResponse,
        MessageType::ChannelMessage,
        MessageType::ChannelMessageRequest,
        MessageType::ChannelMessageResponse,
        MessageType::BuyItemRequest,
        MessageType::BuyItemResponse,
        MessageType::ListPaidItemsRequest,
        MessageType::ListPaidItemsResponse,
        MessageType::ClientMessagesMetadata,
        MessageType::DeliverClientMessagesRequest,
        MessageType::DeliverClientMessagesResponse,
        MessageType::GetProviderBundleRequest,
        MessageType::GetProviderBundleResponse,
        MessageType::GetClientBundleRequest,
        MessageType::GetClientBundleResponse,
        MessageType::StoreDataRequest,
        MessageType::StoreDataResponse,
        MessageType::ReadDataRequest,
        MessageType::ReadDataResponse,
        MessageType::PingNodeRequest,
        MessageType::PingNodeResponse,
    ]
}

/// The response type that answers a request type, for the types that come
/// as a request and its response.
pub open spec fn response_to(t: MessageType) -> Option<MessageType> {
    match t {
        MessageType::ServiceTermsRequest => Some(MessageType::ServiceTermsResponse),
        MessageType::StartServiceRequest => Some(MessageType::StartServiceResponse),
        MessageType::StopServiceRequest => Some(MessageType::StopServiceResponse),
        MessageType::ForwardMessageRequest => Some(MessageType::ForwardMessageResponse),
        MessageType::RouteMessageRequest => Some(MessageType::RouteMessageResponse),
        MessageType::TextMessageRequest => Some(MessageType::TextMessageResponse),
        MessageType::ChannelSubscribeRequest => Some(MessageType::ChannelSubscribeResponse),
        MessageType::ChannelUnsubscribeRequest => Some(MessageType::ChannelUnsubscribeResponse),
        MessageType::ChannelMessageRequest => Some(MessageType::ChannelMessageResponse),
        MessageType::BuyItemRequest => Some(MessageType::BuyItemResponse),
        MessageType::ListPaidItemsRequest => Some(MessageType::ListPaidItemsResponse),
        MessageType::DeliverClientMessagesRequest => Some(MessageType::DeliverClientMessagesResponse),
        MessageType::GetProviderBundleRequest => Some(MessageType::GetProviderBundleResponse),
        MessageType::GetClientBundleRequest => Some(MessageType::GetClientBundleResponse),
        MessageType::StoreDataRequest => Some(MessageType::StoreDataResponse),
        MessageType::ReadDataRequest => Some(MessageType::ReadDataResponse),
        MessageType::PingNodeRequest => Some(MessageType::PingNodeResponse),
        _ => None,
    }
}

/// A message type's number is its place in the protocol's declaration of
/// the message types, counting from 0; every message type is declared.
pub proof fn lemma_message_type_numbers_follow_declaration_order()
    ensures
        message_types_in_order().len() == 37,
        forall|i: int| 0 <= i < 37 ==> message_type_code(#[trigger] message_types_in_order()[i]) == i,
        forall|t: MessageType| #[trigger] message_types_in_order().contains(t),
{
    let order = message_types_in_order();
    assert forall|i: int| 0 <= i < 37 implies message_type_code(#[trigger] order[i]) == i by {
        if i == 0 {
            assert(order[0] == MessageType::ServiceTermsRequest);
        } else if i == 1 {
            assert(order[1] == MessageType::ServiceTermsResponse);
        } else if i == 2 {
            assert(order[2] == MessageType::StartServiceRequest);
        } else if i == 3 {
            assert(order[3] == MessageType::StartServiceResponse);
        } else if i == 4 {
            assert(order[4] == MessageType::StopServiceRequest);
        } else if i == 5 {
            assert(order[5] == MessageType::StopServiceResponse);
        } else if i == 6 {
            assert(order[6] == MessageType::ForwardMessageRequest);
        } else if i == 7 {
            assert(order[7] == MessageType::ForwardMessageResponse);
        } else if i == 8 {
            assert(order[8] == MessageType::SubscribeClientMessages);
        } else if i == 9 {
            assert(order[9] == MessageType::RouteMessageRequest);
        } else if i == 10 {
            assert(order[10] == MessageType::RouteMessageResponse);
        } else if i == 11 {
            assert(order[11] == MessageType::TextMessageRequest);
        } else if i == 12 {
            assert(order[12] == MessageType::TextMessageResponse);
        } else if i == 13 {
            assert(order[13] == MessageType::ChannelSubscribeRequest);
        } else if i == 14 {
            assert(order[14] == MessageType::ChannelSubscribeResponse);
        } else if i == 15 {
            assert(order[15] == MessageType::ChannelUnsubscribeRequest);
        } else if i == 16 {
            assert(order[16] == MessageType::ChannelUnsubscribeResponse);
        } else if i == 17 {
            assert(order[17] == MessageType::ChannelMessage);
        } else if i == 18 {
            assert(order[18] == MessageType::ChannelMessageRequest);
        } else if i == 19 {
            assert(order[19] == MessageType::ChannelMessageResponse);
        } else if i == 20 {
            assert(order[20] == MessageType::BuyItemRequest);
        } else if i == 21 {
            assert(order[21] == MessageType::BuyItemResponse);
        } else if i == 22 {
            assert(order[22] == MessageType::ListPaidItemsRequest);
        } else if i == 23 {
            assert(order[23] == MessageType::ListPaidItemsResponse);
        } else if i == 24 {
            assert(order[24] == MessageType::ClientMessagesMetadata);
        } else if i == 25 {
            assert(order[25] == MessageType::DeliverClientMessagesRequest);
        } else if i == 26 {
            assert(order[26] == MessageType::DeliverClientMessagesResponse);
        } else if i == 27 {
            assert(order[27] == MessageType::GetProviderBundleRequest);
        } else if i == 28 {
            assert(order[28] == MessageType::GetProviderBundleResponse);
        } else if i == 29 {
            assert(order[29] == MessageType::GetClientBundleRequest);
        } else if i == 30 {
            assert(order[30] == MessageType::GetClientBundleResponse);
        } else if i == 31 {
            assert(order[31] == MessageType::StoreDataRequest);
        } else if i == 32 {
            assert(order[32] == MessageType::StoreDataResponse);
        } else if i == 33 {
            assert(order[33] == MessageType::ReadDataRequest);
        } else if i == 34 {
            assert(order[34] == MessageType::ReadDataResponse);
        } else if i == 35 {
            assert(order[35] == MessageType::PingNodeRequest);
        } else if i == 36 {
            assert(order[36] == MessageType::PingNodeResponse);
        }
    }
    assert forall|t: MessageType| #[trigger] order.contains(t) by {
        match t {
            MessageType::ServiceTermsRequest => assert(order[0] == t),
            MessageType::ServiceTermsResponse => assert(order[1] == t),
            MessageType::StartServiceRequest => assert(order[2] == t),
            MessageType::StartServiceResponse => assert(order[3] == t),
            MessageType::StopServiceRequest => assert(order[4] == t),
            MessageType::StopServiceResponse => assert(order[5] == t),
            MessageType::ForwardMessageRequest => assert(order[6] == t),
            MessageType::ForwardMessageResponse => assert(order[7] == t),
            MessageType::SubscribeClientMessages => assert(order[8] == t),
            MessageType::RouteMessageRequest => assert(order[9] == t),
            MessageType::RouteMessageResponse => assert(order[10] == t),
            MessageType::TextMessageRequest => assert(order[11] == t),
            MessageType::TextMessageResponse => assert(order[12] == t),
            MessageType::ChannelSubscribeRequest => assert(order[13] == t),
            MessageType::ChannelSubscribeResponse => assert(order[14] == t),
            MessageType::ChannelUnsubscribeRequest => assert(order[15] == t),
            MessageType::ChannelUnsubscribeResponse => assert(order[16] == t),
            MessageType::ChannelMessage => assert(order[17] == t),
            MessageType::ChannelMessageRequest => assert(order[18] == t),
            MessageType::ChannelMessageResponse => assert(order[19] == t),
            MessageType::BuyItemRequest => assert(order[20] == t),
            MessageType::BuyItemResponse => assert(order[21] == t),
            MessageType::ListPaidItemsRequest => assert(order[22] == t),
            MessageType::ListPaidItemsResponse => assert(order[23] == t),
            MessageType::ClientMessagesMetadata => assert(order[24] == t),
            MessageType::DeliverClientMessagesRequest => assert(order[25] == t),
            MessageType::DeliverClientMessagesResponse => assert(order[26] == t),
            MessageType::GetProviderBundleRequest => assert(order[27] == t),
            MessageType::GetProviderBundleResponse => assert(order[28] == t),
            MessageType::GetClientBundleRequest => assert(order[29] == t),
            MessageType::GetClientBundleResponse => assert(order[30] == t),
            MessageType::StoreDataRequest => assert(order[31] == t),
            MessageType::StoreDataResponse => assert(order[32] == t),
            MessageType::ReadDataRequest => assert(order[33] == t),
            MessageType::ReadDataResponse => assert(order[34] == t),
            MessageType::PingNodeRequest => assert(order[35] == t),
            MessageType::PingNodeResponse => assert(order[36] == t),
        }
    }
}

/// A response's number follows its request's.
pub proof fn lemma_response_number_follows_request()
    ensures
        forall|t: MessageType|
            #[trigger] response_to(t) is Some ==> message_type_code(response_to(t)->0)
                == message_type_code(t) + 1,
{
}

} // verus!
