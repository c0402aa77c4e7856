//! Core data types and rules of the SNP protocol: identity bundles, channels,
//! content items, payments and blockchain transactions, their protobuf
//! encodings, and the signing and verification of each signed message.
pub mod encoding;
pub mod error;
pub mod model;
pub mod snp;

pub mod byte_seq;
pub mod crypto;
pub mod system;
pub mod text;

pub mod account;
pub mod address;
pub mod api_types_extensions;
pub mod channel_bundle;
pub mod channel_data;
pub mod channel_subscriber;
pub mod client_identity_bundle;
pub mod content_item;
pub mod dialup_info;
pub mod entity_id;
pub mod forward_message_payload;
pub mod group_members_bundle;
pub mod key_pair;
pub mod message;
pub mod new_session_request;
pub mod provider_identity_bundle;
pub mod provider_net_info;
pub mod provider_private_identity_bundle;
pub mod provider_signed_client_identity_bundle;
pub mod public_key;
pub mod rpc_routes;
pub mod service_terms_bundle;
pub mod store_data_request;
pub mod time_utils;
pub mod transaction;
pub mod typed_message;
pub mod typed_msgs_dispatcher;
pub mod wire_laws;
