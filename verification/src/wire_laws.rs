//! What each message's encoding carries: a message changed in only one field
//! encodes differently, so a signature over the encoding covers that field.
use crate::encoding::{bool_field, bytes_field, delimited, encoded, i32_field, lemma_bytes_field_injective, lemma_i32_field_injective, lemma_middle_cancel_contra, lemma_optional_field_injective, lemma_string_field_injective, lemma_u32_field_injective, lemma_u64_field_injective, optional_field, repeated_field, string_field, u32_field, u64_field, ProtoMessage};
use crate::snp::snp_blockchain::{ClientBundleTransactionData, PaymentTransactionData, ProviderBundleTransactionData, TransactionFee};
use crate::snp::snp_core_types::{ChannelBundle, ChannelContentItem, ClientIdentityBundle, ContentItem, DialupInfo, EntityId, GroupMemberBundle, GroupMembersBundle, MediaItem, PreKey, ProviderIdentityBundle, ProviderNetInfo, ProviderSignedClientIdentityBundle, PublicKey, ServiceTermsBundle, Signature};
use crate::snp::snp_payments::{Address, Amount, ServiceTerms};
use crate::snp::snp_server_api::{DrSessionHeader, Message, NewSessionRequest, TypedMessage};
use vstd::prelude::*;
use vstd::seq_lib::lemma_concat_associative;

verus! {
/// A public key's encoding carries each of its fields named here:
/// changed in only one of them, it encodes differently.
pub proof fn lemma_public_key_encoding_carries_fields(x: PublicKey)
    ensures
        forall|t: Vec<u8>| t@ != x.key@ ==> (PublicKey { key: t, ..x }).wire() != x.wire(),
{
    assert forall|t: Vec<u8>| t@ != x.key@ implies (PublicKey { key: t, ..x }).wire() != x.wire() by {
        lemma_public_key_encoding_carries_fields_key(x, t);
    }
}

/// A pre key's encoding carries each of its fields named here:
/// changed in only one of them, it encodes differently.
pub proof fn lemma_pre_key_encoding_carries_fields(x: PreKey)
    ensures
        forall|t: String| t@ != x.x2dh_version@ ==> (PreKey { x2dh_version: t, ..x }).wire() != x.wire(),
        forall|t: Option<PublicKey>| encoded(t) != encoded(x.key) ==> (PreKey { key: t, ..x }).wire() != x.wire(),
        forall|t: u64| t != x.key_id ==> (PreKey { key_id: t, ..x }).wire() != x.wire(),
{
    assert forall|t: String| t@ != x.x2dh_version@ implies (PreKey { x2dh_version: t, ..x }).wire() != x.wire() by {
        lemma_pre_key_encoding_carries_fields_x2dh_version(x, t);
    }
    assert forall|t: Option<PublicKey>| encoded(t) != encoded(x.key) implies (PreKey { key: t, ..x }).wire() != x.wire() by {
        lemma_pre_key_encoding_carries_fields_key(x, t);
    }
    assert forall|t: u64| t != x.key_id implies (PreKey { key_id: t, ..x }).wire() != x.wire() by {
        lemma_pre_key_encoding_carries_fields_key_id(x, t);
    }
}

/// A entity id's encoding carries each of its fields named here:
/// changed in only one of them, it encodes differently.
pub proof fn lemma_entity_id_encoding_carries_fields(x: EntityId)
    ensures
        forall|t: Option<PublicKey>| encoded(t) != encoded(x.public_key) ==> (EntityId { public_key: t, ..x }).wire() != x.wire(),
        forall|t: String| t@ != x.nickname@ ==> (EntityId { nickname: t, ..x }).wire() != x.wire(),
{
    assert forall|t: Option<PublicKey>| encoded(t) != encoded(x.public_key) implies (EntityId { public_key: t, ..x }).wire() != x.wire() by {
        lemma_entity_id_encoding_carries_fields_public_key(x, t);
    }
    assert forall|t: String| t@ != x.nickname@ implies (EntityId { nickname: t, ..x }).wire() != x.wire() by {
        lemma_entity_id_encoding_carries_fields_nickname(x, t);
    }
}

/// A signature's encoding carries each of its fields named here:
/// changed in only one of them, it encodes differently.
pub proof fn lemma_signature_encoding_carries_fields(x: Signature)
    ensures
        forall|t: u32| t != x.scheme_id ==> (Signature { scheme_id: t, ..x }).wire() != x.wire(),
        forall|t: Vec<u8>| t@ != x.signature@ ==> (Signature { signature: t, ..x }).wire() != x.wire(),
{
    assert forall|t: u32| t != x.scheme_id implies (Signature { scheme_id: t, ..x }).wire() != x.wire() by {
        lemma_signature_encoding_carries_fields_scheme_id(x, t);
    }
    assert forall|t: Vec<u8>| t@ != x.signature@ implies (Signature { signature: t, ..x }).wire() != x.wire() by {
        lemma_signature_encoding_carries_fields_signature(x, t);
    }
}

/// A content item's encoding carries its other fields too:
/// changed in only one of them, it encodes differently.
pub proof fn lemma_content_item_encoding_carries_other_fields(x: ContentItem)
    ensures
        forall|t: Option<EntityId>| encoded(t) != encoded(x.author) ==> (ContentItem { author: t, ..x }).wire() != x.wire(),
        forall|t: String| t@ != x.name@ ==> (ContentItem { name: t, ..x }).wire() != x.wire(),
        forall|t: Option<Signature>| encoded(t) != encoded(x.signature) ==> (ContentItem { signature: t, ..x }).wire() != x.wire(),
{
    assert forall|t: Option<EntityId>| encoded(t) != encoded(x.author) implies (ContentItem { author: t, ..x }).wire() != x.wire() by {
        lemma_content_item_encoding_carries_other_fields_author(x, t);
    }
    assert forall|t: String| t@ != x.name@ implies (ContentItem { name: t, ..x }).wire() != x.wire() by {
        lemma_content_item_encoding_carries_other_fields_name(x, t);
    }
    assert forall|t: Option<Signature>| encoded(t) != encoded(x.signature) implies (ContentItem { signature: t, ..x }).wire() != x.wire() by {
        lemma_content_item_encoding_carries_other_fields_signature(x, t);
    }
}

/// A media item's encoding carries each of its fields named here:
/// changed in only one of them, it encodes differently.
pub proof fn lemma_media_item_encoding_carries_fields(x: MediaItem)
    ensures
        forall|t: u32| t != x.id ==> (MediaItem { id: t, ..x }).wire() != x.wire(),
        forall|t: String| t@ != x.name@ ==> (MediaItem { name: t, ..x }).wire() != x.wire(),
        forall|t: i32| t != x.mime_type ==> (MediaItem { mime_type: t, ..x }).wire() != x.wire(),
        forall|t: i32| t != x.compression ==> (MediaItem { compression: t, ..x }).wire() != x.wire(),
        forall|t: Vec<u8>| t@ != x.content@ ==> (MediaItem { content: t, ..x }).wire() != x.wire(),
{
    assert forall|t: u32| t != x.id implies (MediaItem { id: t, ..x }).wire() != x.wire() by {
        lemma_media_item_encoding_carries_fields_id(x, t);
    }
    assert forall|t: String| t@ != x.name@ implies (MediaItem { name: t, ..x }).wire() != x.wire() by {
        lemma_media_item_encoding_carries_fields_name(x, t);
    }
    assert forall|t: i32| t != x.mime_type implies (MediaItem { mime_type: t, ..x }).wire() != x.wire() by {
        lemma_media_item_encoding_carries_fields_mime_type(x, t);
    }
    assert forall|t: i32| t != x.compression implies (MediaItem { compression: t, ..x }).wire() != x.wire() by {
        lemma_media_item_encoding_carries_fields_compression(x, t);
    }
    assert forall|t: Vec<u8>| t@ != x.content@ implies (MediaItem { content: t, ..x }).wire() != x.wire() by {
        lemma_media_item_encoding_carries_fields_content(x, t);
    }
}

/// A service terms bundle's encoding carries each of its fields named here:
/// changed in only one of them, it encodes differently.
pub proof fn lemma_service_terms_bundle_encoding_carries_fields(x: ServiceTermsBundle)
    ensures
        forall|t: Option<EntityId>| encoded(t) != encoded(x.provider_id) ==> (ServiceTermsBundle { provider_id: t, ..x }).wire() != x.wire(),
        forall|t: Option<ServiceTerms>| encoded(t) != encoded(x.service_terms) ==> (ServiceTermsBundle { service_terms: t, ..x }).wire() != x.wire(),
        forall|t: Option<Signature>| encoded(t) != encoded(x.signature) ==> (ServiceTermsBundle { signature: t, ..x }).wire() != x.wire(),
{
    assert forall|t: Option<EntityId>| encoded(t) != encoded(x.provider_id) implies (ServiceTermsBundle { provider_id: t, ..x }).wire() != x.wire() by {
        lemma_service_terms_bundle_encoding_carries_fields_provider_id(x, t);
    }
    assert forall|t: Option<ServiceTerms>| encoded(t) != encoded(x.service_terms) implies (ServiceTermsBundle { service_terms: t, ..x }).wire() != x.wire() by {
        lemma_service_terms_bundle_encoding_carries_fields_service_terms(x, t);
    }
    assert forall|t: Option<Signature>| encoded(t) != encoded(x.signature) implies (ServiceTermsBundle { signature: t, ..x }).wire() != x.wire() by {
        lemma_service_terms_bundle_encoding_carries_fields_signature(x, t);
    }
}

/// A provider identity bundle's encoding carries each of its fields named here:
/// changed in only one of them, it encodes differently.
pub proof fn lemma_provider_identity_bundle_encoding_carries_fields(x: ProviderIdentityBundle)
    ensures
        forall|t: u64| t != x.time_stamp ==> (ProviderIdentityBundle { time_stamp: t, ..x }).wire() != x.wire(),
        forall|t: Option<EntityId>| encoded(t) != encoded(x.provider_id) ==> (ProviderIdentityBundle { provider_id: t, ..x }).wire() != x.wire(),
        forall|t: Option<Address>| encoded(t) != encoded(x.address) ==> (ProviderIdentityBundle { address: t, ..x }).wire() != x.wire(),
        forall|t: Option<PreKey>| encoded(t) != encoded(x.pre_key) ==> (ProviderIdentityBundle { pre_key: t, ..x }).wire() != x.wire(),
        forall|t: Option<MediaItem>| encoded(t) != encoded(x.profile_image) ==> (ProviderIdentityBundle { profile_image: t, ..x }).wire() != x.wire(),
        forall|t: u64| t != x.current_bond_id ==> (ProviderIdentityBundle { current_bond_id: t, ..x }).wire() != x.wire(),
        forall|t: Option<Signature>| encoded(t) != encoded(x.provider_signature) ==> (ProviderIdentityBundle { provider_signature: t, ..x }).wire() != x.wire(),
        forall|t: u32| t != x.net_id ==> (ProviderIdentityBundle { net_id: t, ..x }).wire() != x.wire(),
{
    assert forall|t: u64| t != x.time_stamp implies (ProviderIdentityBundle { time_stamp: t, ..x }).wire() != x.wire() by {
        lemma_provider_identity_bundle_encoding_carries_fields_time_stamp(x, t);
    }
    assert forall|t: Option<EntityId>| encoded(t) != encoded(x.provider_id) implies (ProviderIdentityBundle { provider_id: t, ..x }).wire() != x.wire() by {
        lemma_provider_identity_bundle_encoding_carries_fields_provider_id(x, t);
    }
    assert forall|t: Option<Address>| encoded(t) != encoded(x.address) implies (ProviderIdentityBundle { address: t, ..x }).wire() != x.wire() by {
        lemma_provider_identity_bundle_encoding_carries_fields_address(x, t);
    }
    assert forall|t: Option<PreKey>| encoded(t) != encoded(x.pre_key) implies (ProviderIdentityBundle { pre_key: t, ..x }).wire() != x.wire() by {
        lemma_provider_identity_bundle_encoding_carries_fields_pre_key(x, t);
    }
    assert forall|t: Option<MediaItem>| encoded(t) != encoded(x.profile_image) implies (ProviderIdentityBundle { profile_image: t, ..x }).wire() != x.wire() by {
        lemma_provider_identity_bundle_encoding_carries_fields_profile_image(x, t);
    }
    assert forall|t: u64| t != x.current_bond_id implies (ProviderIdentityBundle { current_bond_id: t, ..x }).wire() != x.wire() by {
        lemma_provider_identity_bundle_encoding_carries_fields_current_bond_id(x, t);
    }
    assert forall|t: Option<Signature>| encoded(t) != encoded(x.provider_signature) implies (ProviderIdentityBundle { provider_signature: t, ..x }).wire() != x.wire() by {
        lemma_provider_identity_bundle_encoding_carries_fields_provider_signature(x, t);
    }
    assert forall|t: u32| t != x.net_id implies (ProviderIdentityBundle { net_id: t, ..x }).wire() != x.wire() by {
        lemma_provider_identity_bundle_encoding_carries_fields_net_id(x, t);
    }
}

/// A client identity bundle's encoding carries each of its fields named here:
/// changed in only one of them, it encodes differently.
pub proof fn lemma_client_identity_bundle_encoding_carries_fields(x: ClientIdentityBundle)
    ensures
        forall|t: u64| t != x.time_stamp ==> (ClientIdentityBundle { time_stamp: t, ..x }).wire() != x.wire(),
        forall|t: Option<EntityId>| encoded(t) != encoded(x.client_id) ==> (ClientIdentityBundle { client_id: t, ..x }).wire() != x.wire(),
        forall|t: Option<Address>| encoded(t) != encoded(x.address) ==> (ClientIdentityBundle { address: t, ..x }).wire() != x.wire(),
        forall|t: Option<ProviderIdentityBundle>| encoded(t) != encoded(x.provider_bundle) ==> (ClientIdentityBundle { provider_bundle: t, ..x }).wire() != x.wire(),
        forall|t: Option<PreKey>| encoded(t) != encoded(x.pre_key) ==> (ClientIdentityBundle { pre_key: t, ..x }).wire() != x.wire(),
        forall|t: Option<MediaItem>| encoded(t) != encoded(x.profile_image) ==> (ClientIdentityBundle { profile_image: t, ..x }).wire() != x.wire(),
        forall|t: Option<Signature>| encoded(t) != encoded(x.signature) ==> (ClientIdentityBundle { signature: t, ..x }).wire() != x.wire(),
        forall|t: u32| t != x.net_id ==> (ClientIdentityBundle { net_id: t, ..x }).wire() != x.wire(),
{
    assert forall|t: u64| t != x.time_stamp implies (ClientIdentityBundle { time_stamp: t, ..x }).wire() != x.wire() by {
        lemma_client_identity_bundle_encoding_carries_fields_time_stamp(x, t);
    }
    assert forall|t: Option<EntityId>| encoded(t) != encoded(x.client_id) implies (ClientIdentityBundle { client_id: t, ..x }).wire() != x.wire() by {
        lemma_client_identity_bundle_encoding_carries_fields_client_id(x, t);
    }
    assert forall|t: Option<Address>| encoded(t) != encoded(x.address) implies (ClientIdentityBundle { address: t, ..x }).wire() != x.wire() by {
        lemma_client_identity_bundle_encoding_carries_fields_address(x, t);
    }
    assert forall|t: Option<ProviderIdentityBundle>| encoded(t) != encoded(x.provider_bundle) implies (ClientIdentityBundle { provider_bundle: t, ..x }).wire() != x.wire() by {
        lemma_client_identity_bundle_encoding_carries_fields_provider_bundle(x, t);
    }
    assert forall|t: Option<PreKey>| encoded(t) != encoded(x.pre_key) implies (ClientIdentityBundle { pre_key: t, ..x }).wire() != x.wire() by {
        lemma_client_identity_bundle_encoding_carries_fields_pre_key(x, t);
    }
    assert forall|t: Option<MediaItem>| encoded(t) != encoded(x.profile_image) implies (ClientIdentityBundle { profile_image: t, ..x }).wire() != x.wire() by {
        lemma_client_identity_bundle_encoding_carries_fields_profile_image(x, t);
    }
    assert forall|t: Option<Signature>| encoded(t) != encoded(x.signature) implies (ClientIdentityBundle { signature: t, ..x }).wire() != x.wire() by {
        lemma_client_identity_bundle_encoding_carries_fields_signature(x, t);
    }
    assert forall|t: u32| t != x.net_id implies (ClientIdentityBundle { net_id: t, ..x }).wire() != x.wire() by {
        lemma_client_identity_bundle_encoding_carries_fields_net_id(x, t);
    }
}

/// A provider signed client identity bundle's encoding carries each of its fields named here:
/// changed in only one of them, it encodes differently.
pub proof fn lemma_provider_signed_client_identity_bundle_encoding_carries_fields(x: ProviderSignedClientIdentityBundle)
    ensures
        forall|t: Option<ClientIdentityBundle>| encoded(t) != encoded(x.client_bundle) ==> (ProviderSignedClientIdentityBundle { client_bundle: t, ..x }).wire() != x.wire(),
        forall|t: Option<Signature>| encoded(t) != encoded(x.signature) ==> (ProviderSignedClientIdentityBundle { signature: t, ..x }).wire() != x.wire(),
{
    assert forall|t: Option<ClientIdentityBundle>| encoded(t) != encoded(x.client_bundle) implies (ProviderSignedClientIdentityBundle { client_bundle: t, ..x }).wire() != x.wire() by {
        lemma_provider_signed_client_identity_bundle_encoding_carries_fields_client_bundle(x, t);
    }
    assert forall|t: Option<Signature>| encoded(t) != encoded(x.signature) implies (ProviderSignedClientIdentityBundle { signature: t, ..x }).wire() != x.wire() by {
        lemma_provider_signed_client_identity_bundle_encoding_carries_fields_signature(x, t);
    }
}

/// A dialup info's encoding carries each of its fields named here:
/// changed in only one of them, it encodes differently.
pub proof fn lemma_dialup_info_encoding_carries_fields(x: DialupInfo)
    ensures
        forall|t: i32| t != x.end_point ==> (DialupInfo { end_point: t, ..x }).wire() != x.wire(),
        forall|t: String| t@ != x.api_version@ ==> (DialupInfo { api_version: t, ..x }).wire() != x.wire(),
        forall|t: String| t@ != x.ip_address@ ==> (DialupInfo { ip_address: t, ..x }).wire() != x.wire(),
        forall|t: u32| t != x.port ==> (DialupInfo { port: t, ..x }).wire() != x.wire(),
        forall|t: u32| t != x.net_id ==> (DialupInfo { net_id: t, ..x }).wire() != x.wire(),
        forall|t: String| t@ != x.name@ ==> (DialupInfo { name: t, ..x }).wire() != x.wire(),
{
    assert forall|t: i32| t != x.end_point implies (DialupInfo { end_point: t, ..x }).wire() != x.wire() by {
        lemma_dialup_info_encoding_carries_fields_end_point(x, t);
    }
    assert forall|t: String| t@ != x.api_version@ implies (DialupInfo { api_version: t, ..x }).wire() != x.wire() by {
        lemma_dialup_info_encoding_carries_fields_api_version(x, t);
    }
    assert forall|t: String| t@ != x.ip_address@ implies (DialupInfo { ip_address: t, ..x }).wire() != x.wire() by {
        lemma_dialup_info_encoding_carries_fields_ip_address(x, t);
    }
    assert forall|t: u32| t != x.port implies (DialupInfo { port: t, ..x }).wire() != x.wire() by {
        lemma_dialup_info_encoding_carries_fields_port(x, t);
    }
    assert forall|t: u32| t != x.net_id implies (DialupInfo { net_id: t, ..x }).wire() != x.wire() by {
        lemma_dialup_info_encoding_carries_fields_net_id(x, t);
    }
    assert forall|t: String| t@ != x.name@ implies (DialupInfo { name: t, ..x }).wire() != x.wire() by {
        lemma_dialup_info_encoding_carries_fields_name(x, t);
    }
}

/// A provider net info's encoding carries each of its fields named here:
/// changed in only one of them, it encodes differently.
pub proof fn lemma_provider_net_info_encoding_carries_fields(x: ProviderNetInfo)
    ensures
        forall|t: Option<EntityId>| encoded(t) != encoded(x.provider_id) ==> (ProviderNetInfo { provider_id: t, ..x }).wire() != x.wire(),
        forall|t: Option<DialupInfo>| encoded(t) != encoded(x.dial_up_info) ==> (ProviderNetInfo { dial_up_info: t, ..x }).wire() != x.wire(),
        forall|t: Option<Signature>| encoded(t) != encoded(x.signature) ==> (ProviderNetInfo { signature: t, ..x }).wire() != x.wire(),
{
    assert forall|t: Option<EntityId>| encoded(t) != encoded(x.provider_id) implies (ProviderNetInfo { provider_id: t, ..x }).wire() != x.wire() by {
        lemma_provider_net_info_encoding_carries_fields_provider_id(x, t);
    }
    assert forall|t: Option<DialupInfo>| encoded(t) != encoded(x.dial_up_info) implies (ProviderNetInfo { dial_up_info: t, ..x }).wire() != x.wire() by {
        lemma_provider_net_info_encoding_carries_fields_dial_up_info(x, t);
    }
    assert forall|t: Option<Signature>| encoded(t) != encoded(x.signature) implies (ProviderNetInfo { signature: t, ..x }).wire() != x.wire() by {
        lemma_provider_net_info_encoding_carries_fields_signature(x, t);
    }
}

/// A channel bundle's encoding carries each of its fields named here:
/// changed in only one of them, it encodes differently.
pub proof fn lemma_channel_bundle_encoding_carries_fields(x: ChannelBundle)
    ensures
        forall|t: Option<EntityId>| encoded(t) != encoded(x.channel_id) ==> (ChannelBundle { channel_id: t, ..x }).wire() != x.wire(),
        forall|t: Option<EntityId>| encoded(t) != encoded(x.creator_id) ==> (ChannelBundle { creator_id: t, ..x }).wire() != x.wire(),
        forall|t: i32| t != x.channel_type ==> (ChannelBundle { channel_type: t, ..x }).wire() != x.wire(),
        forall|t: u64| t != x.created ==> (ChannelBundle { created: t, ..x }).wire() != x.wire(),
        forall|t: String| t@ != x.description@ ==> (ChannelBundle { description: t, ..x }).wire() != x.wire(),
        forall|t: String| t@ != x.acceptable_content_policy@ ==> (ChannelBundle { acceptable_content_policy: t, ..x }).wire() != x.wire(),
        forall|t: Option<MediaItem>| encoded(t) != encoded(x.logo) ==> (ChannelBundle { logo: t, ..x }).wire() != x.wire(),
        forall|t: Option<Address>| encoded(t) != encoded(x.payable_address) ==> (ChannelBundle { payable_address: t, ..x }).wire() != x.wire(),
        forall|t: Option<Amount>| encoded(t) != encoded(x.subscription_fee) ==> (ChannelBundle { subscription_fee: t, ..x }).wire() != x.wire(),
        forall|t: Option<Signature>| encoded(t) != encoded(x.signature) ==> (ChannelBundle { signature: t, ..x }).wire() != x.wire(),
        forall|t: Option<Signature>| encoded(t) != encoded(x.creator_signature) ==> (ChannelBundle { creator_signature: t, ..x }).wire() != x.wire(),
        forall|t: i32| t != x.pricing_model ==> (ChannelBundle { pricing_model: t, ..x }).wire() != x.wire(),
{
    assert forall|t: Option<EntityId>| encoded(t) != encoded(x.channel_id) implies (ChannelBundle { channel_id: t, ..x }).wire() != x.wire() by {
        lemma_channel_bundle_encoding_carries_fields_channel_id(x, t);
    }
    assert forall|t: Option<EntityId>| encoded(t) != encoded(x.creator_id) implies (ChannelBundle { creator_id: t, ..x }).wire() != x.wire() by {
        lemma_channel_bundle_encoding_carries_fields_creator_id(x, t);
    }
    assert forall|t: i32| t != x.channel_type implies (ChannelBundle { channel_type: t, ..x }).wire() != x.wire() by {
        lemma_channel_bundle_encoding_carries_fields_channel_type(x, t);
    }
    assert forall|t: u64| t != x.created implies (ChannelBundle { created: t, ..x }).wire() != x.wire() by {
        lemma_channel_bundle_encoding_carries_fields_created(x, t);
    }
    assert forall|t: String| t@ != x.description@ implies (ChannelBundle { description: t, ..x }).wire() != x.wire() by {
        lemma_channel_bundle_encoding_carries_fields_description(x, t);
    }
    assert forall|t: String| t@ != x.acceptable_content_policy@ implies (ChannelBundle { acceptable_content_policy: t, ..x }).wire() != x.wire() by {
        lemma_channel_bundle_encoding_carries_fields_acceptable_content_policy(x, t);
    }
    assert forall|t: Option<MediaItem>| encoded(t) != encoded(x.logo) implies (ChannelBundle { logo: t, ..x }).wire() != x.wire() by {
        lemma_channel_bundle_encoding_carries_fields_logo(x, t);
    }
    assert forall|t: Option<Address>| encoded(t) != encoded(x.payable_address) implies (ChannelBundle { payable_address: t, ..x }).wire() != x.wire() by {
        lemma_channel_bundle_encoding_carries_fields_payable_address(x, t);
    }
    assert forall|t: Option<Amount>| encoded(t) != encoded(x.subscription_fee) implies (ChannelBundle { subscription_fee: t, ..x }).wire() != x.wire() by {
        lemma_channel_bundle_encoding_carries_fields_subscription_fee(x, t);
    }
    assert forall|t: Option<Signature>| encoded(t) != encoded(x.signature) implies (ChannelBundle { signature: t, ..x }).wire() != x.wire() by {
        lemma_channel_bundle_encoding_carries_fields_signature(x, t);
    }
    assert forall|t: Option<Signature>| encoded(t) != encoded(x.creator_signature) implies (ChannelBundle { creator_signature: t, ..x }).wire() != x.wire() by {
        lemma_channel_bundle_encoding_carries_fields_creator_signature(x, t);
    }
    assert forall|t: i32| t != x.pricing_model implies (ChannelBundle { pricing_model: t, ..x }).wire() != x.wire() by {
        lemma_channel_bundle_encoding_carries_fields_pricing_model(x, t);
    }
}

/// A channel content item's encoding carries each of its fields named here:
/// changed in only one of them, it encodes differently.
pub proof fn lemma_channel_content_item_encoding_carries_fields(x: ChannelContentItem)
    ensures
        forall|t: Option<ContentItem>| encoded(t) != encoded(x.content_item) ==> (ChannelContentItem { content_item: t, ..x }).wire() != x.wire(),
        forall|t: Option<Signature>| encoded(t) != encoded(x.signature) ==> (ChannelContentItem { signature: t, ..x }).wire() != x.wire(),
{
    assert forall|t: Option<ContentItem>| encoded(t) != encoded(x.content_item) implies (ChannelContentItem { content_item: t, ..x }).wire() != x.wire() by {
        lemma_channel_content_item_encoding_carries_fields_content_item(x, t);
    }
    assert forall|t: Option<Signature>| encoded(t) != encoded(x.signature) implies (ChannelContentItem { signature: t, ..x }).wire() != x.wire() by {
        lemma_channel_content_item_encoding_carries_fields_signature(x, t);
    }
}

/// A group member bundle's encoding carries each of its fields named here:
/// changed in only one of them, it encodes differently.
pub proof fn lemma_group_member_bundle_encoding_carries_fields(x: GroupMemberBundle)
    ensures
        forall|t: Option<EntityId>| encoded(t) != encoded(x.user_id) ==> (GroupMemberBundle { user_id: t, ..x }).wire() != x.wire(),
        forall|t: Option<EntityId>| encoded(t) != encoded(x.group_id) ==> (GroupMemberBundle { group_id: t, ..x }).wire() != x.wire(),
        forall|t: Option<Signature>| encoded(t) != encoded(x.signature) ==> (GroupMemberBundle { signature: t, ..x }).wire() != x.wire(),
{
    assert forall|t: Option<EntityId>| encoded(t) != encoded(x.user_id) implies (GroupMemberBundle { user_id: t, ..x }).wire() != x.wire() by {
        lemma_group_member_bundle_encoding_carries_fields_user_id(x, t);
    }
    assert forall|t: Option<EntityId>| encoded(t) != encoded(x.group_id) implies (GroupMemberBundle { group_id: t, ..x }).wire() != x.wire() by {
        lemma_group_member_bundle_encoding_carries_fields_group_id(x, t);
    }
    assert forall|t: Option<Signature>| encoded(t) != encoded(x.signature) implies (GroupMemberBundle { signature: t, ..x }).wire() != x.wire() by {
        lemma_group_member_bundle_encoding_carries_fields_signature(x, t);
    }
}

/// A group members bundle's encoding carries each of its fields named here:
/// changed in only one of them, it encodes differently.
pub proof fn lemma_group_members_bundle_encoding_carries_fields(x: GroupMembersBundle)
    ensures
        forall|t: u64| t != x.created ==> (GroupMembersBundle { created: t, ..x }).wire() != x.wire(),
        forall|t: Option<EntityId>| encoded(t) != encoded(x.group_id) ==> (GroupMembersBundle { group_id: t, ..x }).wire() != x.wire(),
        forall|t: Option<EntityId>| encoded(t) != encoded(x.creator_id) ==> (GroupMembersBundle { creator_id: t, ..x }).wire() != x.wire(),
        forall|t: Option<Signature>| encoded(t) != encoded(x.group_signature) ==> (GroupMembersBundle { group_signature: t, ..x }).wire() != x.wire(),
        forall|t: Option<Signature>| encoded(t) != encoded(x.creator_signature) ==> (GroupMembersBundle { creator_signature: t, ..x }).wire() != x.wire(),
{
    assert forall|t: u64| t != x.created implies (GroupMembersBundle { created: t, ..x }).wire() != x.wire() by {
        lemma_group_members_bundle_encoding_carries_fields_created(x, t);
    }
    assert forall|t: Option<EntityId>| encoded(t) != encoded(x.group_id) implies (GroupMembersBundle { group_id: t, ..x }).wire() != x.wire() by {
        lemma_group_members_bundle_encoding_carries_fields_group_id(x, t);
    }
    assert forall|t: Option<EntityId>| encoded(t) != encoded(x.creator_id) implies (GroupMembersBundle { creator_id: t, ..x }).wire() != x.wire() by {
        lemma_group_members_bundle_encoding_carries_fields_creator_id(x, t);
    }
    assert forall|t: Option<Signature>| encoded(t) != encoded(x.group_signature) implies (GroupMembersBundle { group_signature: t, ..x }).wire() != x.wire() by {
        lemma_group_members_bundle_encoding_carries_fields_group_signature(x, t);
    }
    assert forall|t: Option<Signature>| encoded(t) != encoded(x.creator_signature) implies (GroupMembersBundle { creator_signature: t, ..x }).wire() != x.wire() by {
        lemma_group_members_bundle_encoding_carries_fields_creator_signature(x, t);
    }
}

/// A address's encoding carries each of its fields named here:
/// changed in only one of them, it encodes differently.
pub proof fn lemma_address_encoding_carries_fields(x: Address)
    ensures
        forall|t: Vec<u8>| t@ != x.data@ ==> (Address { data: t, ..x }).wire() != x.wire(),
{
    assert forall|t: Vec<u8>| t@ != x.data@ implies (Address { data: t, ..x }).wire() != x.wire() by {
        lemma_address_encoding_carries_fields_data(x, t);
    }
}

/// A amount's encoding carries each of its fields named here:
/// changed in only one of them, it encodes differently.
pub proof fn lemma_amount_encoding_carries_fields(x: Amount)
    ensures
        forall|t: u64| t != x.value ==> (Amount { value: t, ..x }).wire() != x.wire(),
        forall|t: i32| t != x.coin_type ==> (Amount { coin_type: t, ..x }).wire() != x.wire(),
{
    assert forall|t: u64| t != x.value implies (Amount { value: t, ..x }).wire() != x.wire() by {
        lemma_amount_encoding_carries_fields_value(x, t);
    }
    assert forall|t: i32| t != x.coin_type implies (Amount { coin_type: t, ..x }).wire() != x.wire() by {
        lemma_amount_encoding_carries_fields_coin_type(x, t);
    }
}

/// A service terms's encoding carries each of its fields named here:
/// changed in only one of them, it encodes differently.
pub proof fn lemma_service_terms_encoding_carries_fields(x: ServiceTerms)
    ensures
        forall|t: u64| t != x.id ==> (ServiceTerms { id: t, ..x }).wire() != x.wire(),
        forall|t: u64| t != x.created ==> (ServiceTerms { created: t, ..x }).wire() != x.wire(),
        forall|t: u64| t != x.valid_until ==> (ServiceTerms { valid_until: t, ..x }).wire() != x.wire(),
        forall|t: i32| t != x.pricing_model ==> (ServiceTerms { pricing_model: t, ..x }).wire() != x.wire(),
        forall|t: Vec<u8>| t@ != x.user_id@ ==> (ServiceTerms { user_id: t, ..x }).wire() != x.wire(),
        forall|t: u32| t != x.free_trial_period ==> (ServiceTerms { free_trial_period: t, ..x }).wire() != x.wire(),
        forall|t: Option<Amount>| encoded(t) != encoded(x.min_balance) ==> (ServiceTerms { min_balance: t, ..x }).wire() != x.wire(),
        forall|t: Option<Amount>| encoded(t) != encoded(x.max_balance) ==> (ServiceTerms { max_balance: t, ..x }).wire() != x.wire(),
        forall|t: Option<Amount>| encoded(t) != encoded(x.balance) ==> (ServiceTerms { balance: t, ..x }).wire() != x.wire(),
        forall|t: Option<Amount>| encoded(t) != encoded(x.routing_msg_base_cost) ==> (ServiceTerms { routing_msg_base_cost: t, ..x }).wire() != x.wire(),
        forall|t: Option<Amount>| encoded(t) != encoded(x.routing_msg_cost_per_byte) ==> (ServiceTerms { routing_msg_cost_per_byte: t, ..x }).wire() != x.wire(),
        forall|t: Option<Amount>| encoded(t) != encoded(x.data_store_per_byte) ==> (ServiceTerms { data_store_per_byte: t, ..x }).wire() != x.wire(),
        forall|t: Option<Amount>| encoded(t) != encoded(x.registration_fee) ==> (ServiceTerms { registration_fee: t, ..x }).wire() != x.wire(),
        forall|t: Option<Amount>| encoded(t) != encoded(x.monthly_fixed_fee) ==> (ServiceTerms { monthly_fixed_fee: t, ..x }).wire() != x.wire(),
        forall|t: u64| t != x.max_user_storage_space ==> (ServiceTerms { max_user_storage_space: t, ..x }).wire() != x.wire(),
        forall|t: u64| t != x.max_file_size ==> (ServiceTerms { max_file_size: t, ..x }).wire() != x.wire(),
        forall|t: Option<Address>| encoded(t) != encoded(x.payable_account) ==> (ServiceTerms { payable_account: t, ..x }).wire() != x.wire(),
{
    assert forall|t: u64| t != x.id implies (ServiceTerms { id: t, ..x }).wire() != x.wire() by {
        lemma_service_terms_encoding_carries_fields_id(x, t);
    }
    assert forall|t: u64| t != x.created implies (ServiceTerms { created: t, ..x }).wire() != x.wire() by {
        lemma_service_terms_encoding_carries_fields_created(x, t);
    }
    assert forall|t: u64| t != x.valid_until implies (ServiceTerms { valid_until: t, ..x }).wire() != x.wire() by {
        lemma_service_terms_encoding_carries_fields_valid_until(x, t);
    }
    assert forall|t: i32| t != x.pricing_model implies (ServiceTerms { pricing_model: t, ..x }).wire() != x.wire() by {
        lemma_service_terms_encoding_carries_fields_pricing_model(x, t);
    }
    assert forall|t: Vec<u8>| t@ != x.user_id@ implies (ServiceTerms { user_id: t, ..x }).wire() != x.wire() by {
        lemma_service_terms_encoding_carries_fields_user_id(x, t);
    }
    assert forall|t: u32| t != x.free_trial_period implies (ServiceTerms { free_trial_period: t, ..x }).wire() != x.wire() by {
        lemma_service_terms_encoding_carries_fields_free_trial_period(x, t);
    }
    assert forall|t: Option<Amount>| encoded(t) != encoded(x.min_balance) implies (ServiceTerms { min_balance: t, ..x }).wire() != x.wire() by {
        lemma_service_terms_encoding_carries_fields_min_balance(x, t);
    }
    assert forall|t: Option<Amount>| encoded(t) != encoded(x.max_balance) implies (ServiceTerms { max_balance: t, ..x }).wire() != x.wire() by {
        lemma_service_terms_encoding_carries_fields_max_balance(x, t);
    }
    assert forall|t: Option<Amount>| encoded(t) != encoded(x.balance) implies (ServiceTerms { balance: t, ..x }).wire() != x.wire() by {
        lemma_service_terms_encoding_carries_fields_balance(x, t);
    }
    assert forall|t: Option<Amount>| encoded(t) != encoded(x.routing_msg_base_cost) implies (ServiceTerms { routing_msg_base_cost: t, ..x }).wire() != x.wire() by {
        lemma_service_terms_encoding_carries_fields_routing_msg_base_cost(x, t);
    }
    assert forall|t: Option<Amount>| encoded(t) != encoded(x.routing_msg_cost_per_byte) implies (ServiceTerms { routing_msg_cost_per_byte: t, ..x }).wire() != x.wire() by {
        lemma_service_terms_encoding_carries_fields_routing_msg_cost_per_byte(x, t);
    }
    assert forall|t: Option<Amount>| encoded(t) != encoded(x.data_store_per_byte) implies (ServiceTerms { data_store_per_byte: t, ..x }).wire() != x.wire() by {
        lemma_service_terms_encoding_carries_fields_data_store_per_byte(x, t);
    }
    assert forall|t: Option<Amount>| encoded(t) != encoded(x.registration_fee) implies (ServiceTerms { registration_fee: t, ..x }).wire() != x.wire() by {
        lemma_service_terms_encoding_carries_fields_registration_fee(x, t);
    }
    assert forall|t: Option<Amount>| encoded(t) != encoded(x.monthly_fixed_fee) implies (ServiceTerms { monthly_fixed_fee: t, ..x }).wire() != x.wire() by {
        lemma_service_terms_encoding_carries_fields_monthly_fixed_fee(x, t);
    }
    assert forall|t: u64| t != x.max_user_storage_space implies (ServiceTerms { max_user_storage_space: t, ..x }).wire() != x.wire() by {
        lemma_service_terms_encoding_carries_fields_max_user_storage_space(x, t);
    }
    assert forall|t: u64| t != x.max_file_size implies (ServiceTerms { max_file_size: t, ..x }).wire() != x.wire() by {
        lemma_service_terms_encoding_carries_fields_max_file_size(x, t);
    }
    assert forall|t: Option<Address>| encoded(t) != encoded(x.payable_account) implies (ServiceTerms { payable_account: t, ..x }).wire() != x.wire() by {
        lemma_service_terms_encoding_carries_fields_payable_account(x, t);
    }
}

/// A transaction fee's encoding carries each of its fields named here:
/// changed in only one of them, it encodes differently.
pub proof fn lemma_transaction_fee_encoding_carries_fields(x: TransactionFee)
    ensures
        forall|t: Option<Amount>| encoded(t) != encoded(x.amount) ==> (TransactionFee { amount: t, ..x }).wire() != x.wire(),
        forall|t: Vec<u8>| t@ != x.payer_public_key@ ==> (TransactionFee { payer_public_key: t, ..x }).wire() != x.wire(),
{
    assert forall|t: Option<Amount>| encoded(t) != encoded(x.amount) implies (TransactionFee { amount: t, ..x }).wire() != x.wire() by {
        lemma_transaction_fee_encoding_carries_fields_amount(x, t);
    }
    assert forall|t: Vec<u8>| t@ != x.payer_public_key@ implies (TransactionFee { payer_public_key: t, ..x }).wire() != x.wire() by {
        lemma_transaction_fee_encoding_carries_fields_payer_public_key(x, t);
    }
}

/// A payment transaction data's encoding carries each of its fields named here:
/// changed in only one of them, it encodes differently.
pub proof fn lemma_payment_transaction_data_encoding_carries_fields(x: PaymentTransactionData)
    ensures
        forall|t: Option<Address>| encoded(t) != encoded(x.receiver) ==> (PaymentTransactionData { receiver: t, ..x }).wire() != x.wire(),
        forall|t: Option<Amount>| encoded(t) != encoded(x.coins) ==> (PaymentTransactionData { coins: t, ..x }).wire() != x.wire(),
        forall|t: u64| t != x.id ==> (PaymentTransactionData { id: t, ..x }).wire() != x.wire(),
{
    assert forall|t: Option<Address>| encoded(t) != encoded(x.receiver) implies (PaymentTransactionData { receiver: t, ..x }).wire() != x.wire() by {
        lemma_payment_transaction_data_encoding_carries_fields_receiver(x, t);
    }
    assert forall|t: Option<Amount>| encoded(t) != encoded(x.coins) implies (PaymentTransactionData { coins: t, ..x }).wire() != x.wire() by {
        lemma_payment_transaction_data_encoding_carries_fields_coins(x, t);
    }
    assert forall|t: u64| t != x.id implies (PaymentTransactionData { id: t, ..x }).wire() != x.wire() by {
        lemma_payment_transaction_data_encoding_carries_fields_id(x, t);
    }
}

/// A provider bundle transaction data's encoding carries each of its fields named here:
/// changed in only one of them, it encodes differently.
pub proof fn lemma_provider_bundle_transaction_data_encoding_carries_fields(x: ProviderBundleTransactionData)
    ensures
        forall|t: Option<ProviderIdentityBundle>| encoded(t) != encoded(x.provider_bundle) ==> (ProviderBundleTransactionData { provider_bundle: t, ..x }).wire() != x.wire(),
{
    assert forall|t: Option<ProviderIdentityBundle>| encoded(t) != encoded(x.provider_bundle) implies (ProviderBundleTransactionData { provider_bundle: t, ..x }).wire() != x.wire() by {
        lemma_provider_bundle_transaction_data_encoding_carries_fields_provider_bundle(x, t);
    }
}

/// A client bundle transaction data's encoding carries each of its fields named here:
/// changed in only one of them, it encodes differently.
pub proof fn lemma_client_bundle_transaction_data_encoding_carries_fields(x: ClientBundleTransactionData)
    ensures
        forall|t: Option<ProviderSignedClientIdentityBundle>| encoded(t) != encoded(x.client_bundle) ==> (ClientBundleTransactionData { client_bundle: t, ..x }).wire() != x.wire(),
{
    assert forall|t: Option<ProviderSignedClientIdentityBundle>| encoded(t) != encoded(x.client_bundle) implies (ClientBundleTransactionData { client_bundle: t, ..x }).wire() != x.wire() by {
        lemma_client_bundle_transaction_data_encoding_carries_fields_client_bundle(x, t);
    }
}

/// A dr session header's encoding carries each of its fields named here:
/// changed in only one of them, it encodes differently.
pub proof fn lemma_dr_session_header_encoding_carries_fields(x: DrSessionHeader)
    ensures
        forall|t: u64| t != x.session_id ==> (DrSessionHeader { session_id: t, ..x }).wire() != x.wire(),
        forall|t: Option<PublicKey>| encoded(t) != encoded(x.dr_pub_key) ==> (DrSessionHeader { dr_pub_key: t, ..x }).wire() != x.wire(),
        forall|t: u32| t != x.prev_count ==> (DrSessionHeader { prev_count: t, ..x }).wire() != x.wire(),
        forall|t: u32| t != x.count ==> (DrSessionHeader { count: t, ..x }).wire() != x.wire(),
{
    assert forall|t: u64| t != x.session_id implies (DrSessionHeader { session_id: t, ..x }).wire() != x.wire() by {
        lemma_dr_session_header_encoding_carries_fields_session_id(x, t);
    }
    assert forall|t: Option<PublicKey>| encoded(t) != encoded(x.dr_pub_key) implies (DrSessionHeader { dr_pub_key: t, ..x }).wire() != x.wire() by {
        lemma_dr_session_header_encoding_carries_fields_dr_pub_key(x, t);
    }
    assert forall|t: u32| t != x.prev_count implies (DrSessionHeader { prev_count: t, ..x }).wire() != x.wire() by {
        lemma_dr_session_header_encoding_carries_fields_prev_count(x, t);
    }
    assert forall|t: u32| t != x.count implies (DrSessionHeader { count: t, ..x }).wire() != x.wire() by {
        lemma_dr_session_header_encoding_carries_fields_count(x, t);
    }
}

/// A message's encoding carries each of its fields named here:
/// changed in only one of them, it encodes differently.
pub proof fn lemma_message_encoding_carries_fields(x: Message)
    ensures
        forall|t: Option<DrSessionHeader>| encoded(t) != encoded(x.header) ==> (Message { header: t, ..x }).wire() != x.wire(),
        forall|t: Vec<u8>| t@ != x.enc_typed_msg@ ==> (Message { enc_typed_msg: t, ..x }).wire() != x.wire(),
{
    assert forall|t: Option<DrSessionHeader>| encoded(t) != encoded(x.header) implies (Message { header: t, ..x }).wire() != x.wire() by {
        lemma_message_encoding_carries_fields_header(x, t);
    }
    assert forall|t: Vec<u8>| t@ != x.enc_typed_msg@ implies (Message { enc_typed_msg: t, ..x }).wire() != x.wire() by {
        lemma_message_encoding_carries_fields_enc_typed_msg(x, t);
    }
}

/// A typed message's encoding carries its other fields too:
/// changed in only one of them, it encodes differently.
pub proof fn lemma_typed_message_encoding_carries_other_fields(x: TypedMessage)
    ensures
        forall|t: Option<EntityId>| encoded(t) != encoded(x.receiver) ==> (TypedMessage { receiver: t, ..x }).wire() != x.wire(),
        forall|t: Option<EntityId>| encoded(t) != encoded(x.sender) ==> (TypedMessage { sender: t, ..x }).wire() != x.wire(),
        forall|t: Option<Signature>| encoded(t) != encoded(x.signature) ==> (TypedMessage { signature: t, ..x }).wire() != x.wire(),
{
    assert forall|t: Option<EntityId>| encoded(t) != encoded(x.receiver) implies (TypedMessage { receiver: t, ..x }).wire() != x.wire() by {
        lemma_typed_message_encoding_carries_other_fields_receiver(x, t);
    }
    assert forall|t: Option<EntityId>| encoded(t) != encoded(x.sender) implies (TypedMessage { sender: t, ..x }).wire() != x.wire() by {
        lemma_typed_message_encoding_carries_other_fields_sender(x, t);
    }
    assert forall|t: Option<Signature>| encoded(t) != encoded(x.signature) implies (TypedMessage { signature: t, ..x }).wire() != x.wire() by {
        lemma_typed_message_encoding_carries_other_fields_signature(x, t);
    }
}

/// A new session request's encoding carries each of its fields named here:
/// changed in only one of them, it encodes differently.
pub proof fn lemma_new_session_request_encoding_carries_fields(x: NewSessionRequest)
    ensures
        forall|t: u64| t != x.time_stamp ==> (NewSessionRequest { time_stamp: t, ..x }).wire() != x.wire(),
        forall|t: Option<EntityId>| encoded(t) != encoded(x.receiver) ==> (NewSessionRequest { receiver: t, ..x }).wire() != x.wire(),
        forall|t: Option<PublicKey>| encoded(t) != encoded(x.sender_ephemeral_key) ==> (NewSessionRequest { sender_ephemeral_key: t, ..x }).wire() != x.wire(),
        forall|t: u64| t != x.receiver_bundle_id ==> (NewSessionRequest { receiver_bundle_id: t, ..x }).wire() != x.wire(),
        forall|t: u64| t != x.receiver_one_time_prekey_id ==> (NewSessionRequest { receiver_one_time_prekey_id: t, ..x }).wire() != x.wire(),
        forall|t: Option<Message>| encoded(t) != encoded(x.message) ==> (NewSessionRequest { message: t, ..x }).wire() != x.wire(),
        forall|t: Option<Signature>| encoded(t) != encoded(x.sender_signature) ==> (NewSessionRequest { sender_signature: t, ..x }).wire() != x.wire(),
        forall|t: u32| t != x.net_id ==> (NewSessionRequest { net_id: t, ..x }).wire() != x.wire(),
        forall|t: String| t@ != x.protocol_version@ ==> (NewSessionRequest { protocol_version: t, ..x }).wire() != x.wire(),
{
    assert forall|t: u64| t != x.time_stamp implies (NewSessionRequest { time_stamp: t, ..x }).wire() != x.wire() by {
        lemma_new_session_request_encoding_carries_fields_time_stamp(x, t);
    }
    assert forall|t: Option<EntityId>| encoded(t) != encoded(x.receiver) implies (NewSessionRequest { receiver: t, ..x }).wire() != x.wire() by {
        lemma_new_session_request_encoding_carries_fields_receiver(x, t);
    }
    assert forall|t: Option<PublicKey>| encoded(t) != encoded(x.sender_ephemeral_key) implies (NewSessionRequest { sender_ephemeral_key: t, ..x }).wire() != x.wire() by {
        lemma_new_session_request_encoding_carries_fields_sender_ephemeral_key(x, t);
    }
    assert forall|t: u64| t != x.receiver_bundle_id implies (NewSessionRequest { receiver_bundle_id: t, ..x }).wire() != x.wire() by {
        lemma_new_session_request_encoding_carries_fields_receiver_bundle_id(x, t);
    }
    assert forall|t: u64| t != x.receiver_one_time_prekey_id implies (NewSessionRequest { receiver_one_time_prekey_id: t, ..x }).wire() != x.wire() by {
        lemma_new_session_request_encoding_carries_fields_receiver_one_time_prekey_id(x, t);
    }
    assert forall|t: Option<Message>| encoded(t) != encoded(x.message) implies (NewSessionRequest { message: t, ..x }).wire() != x.wire() by {
        lemma_new_session_request_encoding_carries_fields_message(x, t);
    }
    assert forall|t: Option<Signature>| encoded(t) != encoded(x.sender_signature) implies (NewSessionRequest { sender_signature: t, ..x }).wire() != x.wire() by {
        lemma_new_session_request_encoding_carries_fields_sender_signature(x, t);
    }
    assert forall|t: u32| t != x.net_id implies (NewSessionRequest { net_id: t, ..x }).wire() != x.wire() by {
        lemma_new_session_request_encoding_carries_fields_net_id(x, t);
    }
    assert forall|t: String| t@ != x.protocol_version@ implies (NewSessionRequest { protocol_version: t, ..x }).wire() != x.wire() by {
        lemma_new_session_request_encoding_carries_fields_protocol_version(x, t);
    }
}

/// Changing only `key` changes the encoding.
proof fn lemma_public_key_encoding_carries_fields_key(x: PublicKey, t: Vec<u8>)
    requires
        t@ != x.key@,
    ensures
        (PublicKey { key: t, ..x }).wire() != x.wire(),
{
    let n = (PublicKey { key: t, ..x });
    let fx = bytes_field(1, x.key@);
    let fn_ = bytes_field(1, n.key@);
    let p = Seq::<u8>::empty();
    let s = Seq::<u8>::empty();
    assert(p + fx =~= fx);
    assert(p + fn_ =~= fn_);
    assert(p + fx + s =~= p + fx);
    assert(p + fn_ + s =~= p + fn_);
    assert(x.wire() == p + fx + s);
    assert(n.wire() == p + fn_ + s);
    if fn_ == fx {
        lemma_bytes_field_injective(1, n.key@, x.key@);
    } else {
        lemma_middle_cancel_contra(p, fn_, fx, s);
    }
}

/// Changing only `x2dh_version` changes the encoding.
proof fn lemma_pre_key_encoding_carries_fields_x2dh_version(x: PreKey, t: String)
    requires
        t@ != x.x2dh_version@,
    ensures
        (PreKey { x2dh_version: t, ..x }).wire() != x.wire(),
{
    let n = (PreKey { x2dh_version: t, ..x });
    let fx = string_field(1, x.x2dh_version@);
    let a1 = optional_field(2, x.key);
    let a2 = u64_field(3, x.key_id);
    let fn_ = string_field(1, n.x2dh_version@);
    let p = Seq::<u8>::empty();
    let s = a1 + a2;
    assert(p + fx =~= fx);
    assert(p + fn_ =~= fn_);
    lemma_concat_associative(p + fx, a1, a2);
    lemma_concat_associative(p + fn_, a1, a2);
    assert(x.wire() == p + fx + s);
    assert(n.wire() == p + fn_ + s);
    if fn_ == fx {
        lemma_string_field_injective(1, n.x2dh_version@, x.x2dh_version@);
    } else {
        lemma_middle_cancel_contra(p, fn_, fx, s);
    }
}

/// Changing only `key` changes the encoding.
proof fn lemma_pre_key_encoding_carries_fields_key(x: PreKey, t: Option<PublicKey>)
    requires
        encoded(t) != encoded(x.key),
    ensures
        (PreKey { key: t, ..x }).wire() != x.wire(),
{
    let n = (PreKey { key: t, ..x });
    let a0 = string_field(1, x.x2dh_version@);
    let fx = optional_field(2, x.key);
    let a2 = u64_field(3, x.key_id);
    let fn_ = optional_field(2, n.key);
    let p = a0;
    let s = a2;
    assert(x.wire() == p + fx + s);
    assert(n.wire() == p + fn_ + s);
    if fn_ == fx {
        lemma_optional_field_injective(2, n.key, x.key);
    } else {
        lemma_middle_cancel_contra(p, fn_, fx, s);
    }
}

/// Changing only `key_id` changes the encoding.
proof fn lemma_pre_key_encoding_carries_fields_key_id(x: PreKey, t: u64)
    requires
        t != x.key_id,
    ensures
        (PreKey { key_id: t, ..x }).wire() != x.wire(),
{
    let n = (PreKey { key_id: t, ..x });
    let a0 = string_field(1, x.x2dh_version@);
    let a1 = optional_field(2, x.key);
    let fx = u64_field(3, x.key_id);
    let fn_ = u64_field(3, n.key_id);
    let p = a0 + a1;
    let s = Seq::<u8>::empty();
    assert(p + fx + s =~= p + fx);
    assert(p + fn_ + s =~= p + fn_);
    assert(x.wire() == p + fx + s);
    assert(n.wire() == p + fn_ + s);
    if fn_ == fx {
        lemma_u64_field_injective(3, n.key_id, x.key_id);
    } else {
        lemma_middle_cancel_contra(p, fn_, fx, s);
    }
}

/// Changing only `public_key` changes the encoding.
proof fn lemma_entity_id_encoding_carries_fields_public_key(x: EntityId, t: Option<PublicKey>)
    requires
        encoded(t) != encoded(x.public_key),
    ensures
        (EntityId { public_key: t, ..x }).wire() != x.wire(),
{
    let n = (EntityId { public_key: t, ..x });
    let fx = optional_field(1, x.public_key);
    let a1 = string_field(2, x.nickname@);
    let fn_ = optional_field(1, n.public_key);
    let p = Seq::<u8>::empty();
    let s = a1;
    assert(p + fx =~= fx);
    assert(p + fn_ =~= fn_);
    assert(x.wire() == p + fx + s);
    assert(n.wire() == p + fn_ + s);
    if fn_ == fx {
        lemma_optional_field_injective(1, n.public_key, x.public_key);
    } else {
        lemma_middle_cancel_contra(p, fn_, fx, s);
    }
}

/// Changing only `nickname` changes the encoding.
proof fn lemma_entity_id_encoding_carries_fields_nickname(x: EntityId, t: String)
    requires
        t@ != x.nickname@,
    ensures
        (EntityId { nickname: t, ..x }).wire() != x.wire(),
{
    let n = (EntityId { nickname: t, ..x });
    let a0 = optional_field(1, x.public_key);
    let fx = string_field(2, x.nickname@);
    let fn_ = string_field(2, n.nickname@);
    let p = a0;
    let s = Seq::<u8>::empty();
    assert(p + fx + s =~= p + fx);
    assert(p + fn_ + s =~= p + fn_);
    assert(x.wire() == p + fx + s);
    assert(n.wire() == p + fn_ + s);
    if fn_ == fx {
        lemma_string_field_injective(2, n.nickname@, x.nickname@);
    } else {
        lemma_middle_cancel_contra(p, fn_, fx, s);
    }
}

/// Changing only `scheme_id` changes the encoding.
proof fn lemma_signature_encoding_carries_fields_scheme_id(x: Signature, t: u32)
    requires
        t != x.scheme_id,
    ensures
        (Signature { scheme_id: t, ..x }).wire() != x.wire(),
{
    let n = (Signature { scheme_id: t, ..x });
    let fx = u32_field(1, x.scheme_id);
    let a1 = bytes_field(2, x.signature@);
    let fn_ = u32_field(1, n.scheme_id);
    let p = Seq::<u8>::empty();
    let s = a1;
    assert(p + fx =~= fx);
    assert(p + fn_ =~= fn_);
    assert(x.wire() == p + fx + s);
    assert(n.wire() == p + fn_ + s);
    if fn_ == fx {
        lemma_u32_field_injective(1, n.scheme_id, x.scheme_id);
    } else {
        lemma_middle_cancel_contra(p, fn_, fx, s);
    }
}

/// Changing only `signature` changes the encoding.
proof fn lemma_signature_encoding_carries_fields_signature(x: Signature, t: Vec<u8>)
    requires
        t@ != x.signature@,
    ensures
        (Signature { signature: t, ..x }).wire() != x.wire(),
{
    let n = (Signature { signature: t, ..x });
    let a0 = u32_field(1, x.scheme_id);
    let fx = bytes_field(2, x.signature@);
    let fn_ = bytes_field(2, n.signature@);
    let p = a0;
    let s = Seq::<u8>::empty();
    assert(p + fx + s =~= p + fx);
    assert(p + fn_ + s =~= p + fn_);
    assert(x.wire() == p + fx + s);
    assert(n.wire() == p + fn_ + s);
    if fn_ == fx {
        lemma_bytes_field_injective(2, n.signature@, x.signature@);
    } else {
        lemma_middle_cancel_contra(p, fn_, fx, s);
    }
}

/// Changing only `author` changes the encoding.
proof fn lemma_content_item_encoding_carries_other_fields_author(x: ContentItem, t: Option<EntityId>)
    requires
        encoded(t) != encoded(x.author),
    ensures
        (ContentItem { author: t, ..x }).wire() != x.wire(),
{
    let n = (ContentItem { author: t, ..x });
    let a0 = u64_field(1, x.id);
    let a1 = bytes_field(2, x.channel_id@);
    let a2 = u64_field(3, x.created);
    let fx = optional_field(4, x.author);
    let a4 = u64_field(5, x.ttl);
    let a5 = u64_field(6, x.price);
    let a6 = string_field(7, x.name@);
    let a7 = repeated_field(8, x.media_item@);
    let a8 = u64_field(9, x.reply_to);
    let a9 = optional_field(10, x.signature);
    let fn_ = optional_field(4, n.author);
    let p = a0 + a1 + a2;
    let s = a4 + a5 + a6 + a7 + a8 + a9;
    lemma_concat_associative(p + fx, a4, a5);
    lemma_concat_associative(p + fn_, a4, a5);
    lemma_concat_associative(p + fx, a4 + a5, a6);
    lemma_concat_associative(p + fn_, a4 + a5, a6);
    lemma_concat_associative(p + fx, a4 + a5 + a6, a7);
    lemma_concat_associative(p + fn_, a4 + a5 + a6, a7);
    lemma_concat_associative(p + fx, a4 + a5 + a6 + a7, a8);
    lemma_concat_associative(p + fn_, a4 + a5 + a6 + a7, a8);
    lemma_concat_associative(p + fx, a4 + a5 + a6 + a7 + a8, a9);
    lemma_concat_associative(p + fn_, a4 + a5 + a6 + a7 + a8, a9);
    assert(x.wire() == p + fx + s);
    assert(n.wire() == p + fn_ + s);
    if fn_ == fx {
        lemma_optional_field_injective(4, n.author, x.author);
    } else {
        lemma_middle_cancel_contra(p, fn_, fx, s);
    }
}

/// Changing only `name` changes the encoding.
proof fn lemma_content_item_encoding_carries_other_fields_name(x: ContentItem, t: String)
    requires
        t@ != x.name@,
    ensures
        (ContentItem { name: t, ..x }).wire() != x.wire(),
{
    let n = (ContentItem { name: t, ..x });
    let a0 = u64_field(1, x.id);
    let a1 = bytes_field(2, x.channel_id@);
    let a2 = u64_field(3, x.created);
    let a3 = optional_field(4, x.author);
    let a4 = u64_field(5, x.ttl);
    let a5 = u64_field(6, x.price);
    let fx = string_field(7, x.name@);
    let a7 = repeated_field(8, x.media_item@);
    let a8 = u64_field(9, x.reply_to);
    let a9 = optional_field(10, x.signature);
    let fn_ = string_field(7, n.name@);
    let p = a0 + a1 + a2 + a3 + a4 + a5;
    let s = a7 + a8 + a9;
    lemma_concat_associative(p + fx, a7, a8);
    lemma_concat_associative(p + fn_, a7, a8);
    lemma_concat_associative(p + fx, a7 + a8, a9);
    lemma_concat_associative(p + fn_, a7 + a8, a9);
    assert(x.wire() == p + fx + s);
    assert(n.wire() == p + fn_ + s);
    if fn_ == fx {
        lemma_string_field_injective(7, n.name@, x.name@);
    } else {
        lemma_middle_cancel_contra(p, fn_, fx, s);
    }
}

/// Changing only `signature` changes the encoding.
proof fn lemma_content_item_encoding_carries_other_fields_signature(x: ContentItem, t: Option<Signature>)
    requires
        encoded(t) != encoded(x.signature),
    ensures
        (ContentItem { signature: t, ..x }).wire() != x.wire(),
{
    let n = (ContentItem { signature: t, ..x });
    let a0 = u64_field(1, x.id);
    let a1 = bytes_field(2, x.channel_id@);
    let a2 = u64_field(3, x.created);
    let a3 = optional_field(4, x.author);
    let a4 = u64_field(5, x.ttl);
    let a5 = u64_field(6, x.price);
    let a6 = string_field(7, x.name@);
    let a7 = repeated_field(8, x.media_item@);
    let a8 = u64_field(9, x.reply_to);
    let fx = optional_field(10, x.signature);
    let fn_ = optional_field(10, n.signature);
    let p = a0 + a1 + a2 + a3 + a4 + a5 + a6 + a7 + a8;
    let s = Seq::<u8>::empty();
    assert(p + fx + s =~= p + fx);
    assert(p + fn_ + s =~= p + fn_);
    assert(x.wire() == p + fx + s);
    assert(n.wire() == p + fn_ + s);
    if fn_ == fx {
        lemma_optional_field_injective(10, n.signature, x.signature);
    } else {
        lemma_middle_cancel_contra(p, fn_, fx, s);
    }
}

/// Changing only `id` changes the encoding.
proof fn lemma_media_item_encoding_carries_fields_id(x: MediaItem, t: u32)
    requires
        t != x.id,
    ensures
        (MediaItem { id: t, ..x }).wire() != x.wire(),
{
    let n = (MediaItem { id: t, ..x });
    let fx = u32_field(1, x.id);
    let a1 = string_field(2, x.name@);
    let a2 = i32_field(3, x.mime_type);
    let a3 = i32_field(4, x.compression);
    let a4 = bytes_field(5, x.content@);
    let fn_ = u32_field(1, n.id);
    let p = Seq::<u8>::empty();
    let s = a1 + a2 + a3 + a4;
    assert(p + fx =~= fx);
    assert(p + fn_ =~= fn_);
    lemma_concat_associative(p + fx, a1, a2);
    lemma_concat_associative(p + fn_, a1, a2);
    lemma_concat_associative(p + fx, a1 + a2, a3);
    lemma_concat_associative(p + fn_, a1 + a2, a3);
    lemma_concat_associative(p + fx, a1 + a2 + a3, a4);
    lemma_concat_associative(p + fn_, a1 + a2 + a3, a4);
    assert(x.wire() == p + fx + s);
    assert(n.wire() == p + fn_ + s);
    if fn_ == fx {
        lemma_u32_field_injective(1, n.id, x.id);
    } else {
        lemma_middle_cancel_contra(p, fn_, fx, s);
    }
}

/// Changing only `name` changes the encoding.
proof fn lemma_media_item_encoding_carries_fields_name(x: MediaItem, t: String)
    requires
        t@ != x.name@,
    ensures
        (MediaItem { name: t, ..x }).wire() != x.wire(),
{
    let n = (MediaItem { name: t, ..x });
    let a0 = u32_field(1, x.id);
    let fx = string_field(2, x.name@);
    let a2 = i32_field(3, x.mime_type);
    let a3 = i32_field(4, x.compression);
    let a4 = bytes_field(5, x.content@);
    let fn_ = string_field(2, n.name@);
    let p = a0;
    let s = a2 + a3 + a4;
    lemma_concat_associative(p + fx, a2, a3);
    lemma_concat_associative(p + fn_, a2, a3);
    lemma_concat_associative(p + fx, a2 + a3, a4);
    lemma_concat_associative(p + fn_, a2 + a3, a4);
    assert(x.wire() == p + fx + s);
    assert(n.wire() == p + fn_ + s);
    if fn_ == fx {
        lemma_string_field_injective(2, n.name@, x.name@);
    } else {
        lemma_middle_cancel_contra(p, fn_, fx, s);
    }
}

/// Changing only `mime_type` changes the encoding.
proof fn lemma_media_item_encoding_carries_fields_mime_type(x: MediaItem, t: i32)
    requires
        t != x.mime_type,
    ensures
        (MediaItem { mime_type: t, ..x }).wire() != x.wire(),
{
    let n = (MediaItem { mime_type: t, ..x });
    let a0 = u32_field(1, x.id);
    let a1 = string_field(2, x.name@);
    let fx = i32_field(3, x.mime_type);
    let a3 = i32_field(4, x.compression);
    let a4 = bytes_field(5, x.content@);
    let fn_ = i32_field(3, n.mime_type);
    let p = a0 + a1;
    let s = a3 + a4;
    lemma_concat_associative(p + fx, a3, a4);
    lemma_concat_associative(p + fn_, a3, a4);
    assert(x.wire() == p + fx + s);
    assert(n.wire() == p + fn_ + s);
    if fn_ == fx {
        lemma_i32_field_injective(3, n.mime_type, x.mime_type);
    } else {
        lemma_middle_cancel_contra(p, fn_, fx, s);
    }
}

/// Changing only `compression` changes the encoding.
proof fn lemma_media_item_encoding_carries_fields_compression(x: MediaItem, t: i32)
    requires
        t != x.compression,
    ensures
        (MediaItem { compression: t, ..x }).wire() != x.wire(),
{
    let n = (MediaItem { compression: t, ..x });
    let a0 = u32_field(1, x.id);
    let a1 = string_field(2, x.name@);
    let a2 = i32_field(3, x.mime_type);
    let fx = i32_field(4, x.compression);
    let a4 = bytes_field(5, x.content@);
    let fn_ = i32_field(4, n.compression);
    let p = a0 + a1 + a2;
    let s = a4;
    assert(x.wire() == p + fx + s);
    assert(n.wire() == p + fn_ + s);
    if fn_ == fx {
        lemma_i32_field_injective(4, n.compression, x.compression);
    } else {
        lemma_middle_cancel_contra(p, fn_, fx, s);
    }
}

/// Changing only `content` changes the encoding.
proof fn lemma_media_item_encoding_carries_fields_content(x: MediaItem, t: Vec<u8>)
    requires
        t@ != x.content@,
    ensures
        (MediaItem { content: t, ..x }).wire() != x.wire(),
{
    let n = (MediaItem { content: t, ..x });
    let a0 = u32_field(1, x.id);
    let a1 = string_field(2, x.name@);
    let a2 = i32_field(3, x.mime_type);
    let a3 = i32_field(4, x.compression);
    let fx = bytes_field(5, x.content@);
    let fn_ = bytes_field(5, n.content@);
    let p = a0 + a1 + a2 + a3;
    let s = Seq::<u8>::empty();
    assert(p + fx + s =~= p + fx);
    assert(p + fn_ + s =~= p + fn_);
    assert(x.wire() == p + fx + s);
    assert(n.wire() == p + fn_ + s);
    if fn_ == fx {
        lemma_bytes_field_injective(5, n.content@, x.content@);
    } else {
        lemma_middle_cancel_contra(p, fn_, fx, s);
    }
}

/// Changing only `provider_id` changes the encoding.
proof fn lemma_service_terms_bundle_encoding_carries_fields_provider_id(x: ServiceTermsBundle, t: Option<EntityId>)
    requires
        encoded(t) != encoded(x.provider_id),
    ensures
        (ServiceTermsBundle { provider_id: t, ..x }).wire() != x.wire(),
{
    let n = (ServiceTermsBundle { provider_id: t, ..x });
    let fx = optional_field(1, x.provider_id);
    let a1 = optional_field(2, x.service_terms);
    let a2 = optional_field(3, x.signature);
    let fn_ = optional_field(1, n.provider_id);
    let p = Seq::<u8>::empty();
    let s = a1 + a2;
    assert(p + fx =~= fx);
    assert(p + fn_ =~= fn_);
    lemma_concat_associative(p + fx, a1, a2);
    lemma_concat_associative(p + fn_, a1, a2);
    assert(x.wire() == p + fx + s);
    assert(n.wire() == p + fn_ + s);
    if fn_ == fx {
        lemma_optional_field_injective(1, n.provider_id, x.provider_id);
    } else {
        lemma_middle_cancel_contra(p, fn_, fx, s);
    }
}

/// Changing only `service_terms` changes the encoding.
proof fn lemma_service_terms_bundle_encoding_carries_fields_service_terms(x: ServiceTermsBundle, t: Option<ServiceTerms>)
    requires
        encoded(t) != encoded(x.service_terms),
    ensures
        (ServiceTermsBundle { service_terms: t, ..x }).wire() != x.wire(),
{
    let n = (ServiceTermsBundle { service_terms: t, ..x });
    let a0 = optional_field(1, x.provider_id);
    let fx = optional_field(2, x.service_terms);
    let a2 = optional_field(3, x.signature);
    let fn_ = optional_field(2, n.service_terms);
    let p = a0;
    let s = a2;
    assert(x.wire() == p + fx + s);
    assert(n.wire() == p + fn_ + s);
    if fn_ == fx {
        lemma_optional_field_injective(2, n.service_terms, x.service_terms);
    } else {
        lemma_middle_cancel_contra(p, fn_, fx, s);
    }
}

/// Changing only `signature` changes the encoding.
proof fn lemma_service_terms_bundle_encoding_carries_fields_signature(x: ServiceTermsBundle, t: Option<Signature>)
    requires
        encoded(t) != encoded(x.signature),
    ensures
        (ServiceTermsBundle { signature: t, ..x }).wire() != x.wire(),
{
    let n = (ServiceTermsBundle { signature: t, ..x });
    let a0 = optional_field(1, x.provider_id);
    let a1 = optional_field(2, x.service_terms);
    let fx = optional_field(3, x.signature);
    let fn_ = optional_field(3, n.signature);
    let p = a0 + a1;
    let s = Seq::<u8>::empty();
    assert(p + fx + s =~= p + fx);
    assert(p + fn_ + s =~= p + fn_);
    assert(x.wire() == p + fx + s);
    assert(n.wire() == p + fn_ + s);
    if fn_ == fx {
        lemma_optional_field_injective(3, n.signature, x.signature);
    } else {
        lemma_middle_cancel_contra(p, fn_, fx, s);
    }
}

/// Changing only `time_stamp` changes the encoding.
proof fn lemma_provider_identity_bundle_encoding_carries_fields_time_stamp(x: ProviderIdentityBundle, t: u64)
    requires
        t != x.time_stamp,
    ensures
        (ProviderIdentityBundle { time_stamp: t, ..x }).wire() != x.wire(),
{
    let n = (ProviderIdentityBundle { time_stamp: t, ..x });
    let fx = u64_field(1, x.time_stamp);
    let a1 = optional_field(2, x.provider_id);
    let a2 = optional_field(3, x.address);
    let a3 = repeated_field(4, x.dial_up_info@);
    let a4 = optional_field(5, x.pre_key);
    let a5 = repeated_field(6, x.one_time_keys@);
    let a6 = optional_field(7, x.profile_image);
    let a7 = u64_field(8, x.current_bond_id);
    let a8 = optional_field(10, x.provider_signature);
    let a9 = u32_field(11, x.net_id);
    let fn_ = u64_field(1, n.time_stamp);
    let p = Seq::<u8>::empty();
    let s = a1 + a2 + a3 + a4 + a5 + a6 + a7 + a8 + a9;
    assert(p + fx =~= fx);
    assert(p + fn_ =~= fn_);
    lemma_concat_associative(p + fx, a1, a2);
    lemma_concat_associative(p + fn_, a1, a2);
    lemma_concat_associative(p + fx, a1 + a2, a3);
    lemma_concat_associative(p + fn_, a1 + a2, a3);
    lemma_concat_associative(p + fx, a1 + a2 + a3, a4);
    lemma_concat_associative(p + fn_, a1 + a2 + a3, a4);
    lemma_concat_associative(p + fx, a1 + a2 + a3 + a4, a5);
    lemma_concat_associative(p + fn_, a1 + a2 + a3 + a4, a5);
    lemma_concat_associative(p + fx, a1 + a2 + a3 + a4 + a5, a6);
    lemma_concat_associative(p + fn_, a1 + a2 + a3 + a4 + a5, a6);
    lemma_concat_associative(p + fx, a1 + a2 + a3 + a4 + a5 + a6, a7);
    lemma_concat_associative(p + fn_, a1 + a2 + a3 + a4 + a5 + a6, a7);
    lemma_concat_associative(p + fx, a1 + a2 + a3 + a4 + a5 + a6 + a7, a8);
    lemma_concat_associative(p + fn_, a1 + a2 + a3 + a4 + a5 + a6 + a7, a8);
    lemma_concat_associative(p + fx, a1 + a2 + a3 + a4 + a5 + a6 + a7 + a8, a9);
    lemma_concat_associative(p + fn_, a1 + a2 + a3 + a4 + a5 + a6 + a7 + a8, a9);
    assert(x.wire() == p + fx + s);
    assert(n.wire() == p + fn_ + s);
    if fn_ == fx {
        lemma_u64_field_injective(1, n.time_stamp, x.time_stamp);
    } else {
        lemma_middle_cancel_contra(p, fn_, fx, s);
    }
}

/// Changing only `provider_id` changes the encoding.
proof fn lemma_provider_identity_bundle_encoding_carries_fields_provider_id(x: ProviderIdentityBundle, t: Option<EntityId>)
    requires
        encoded(t) != encoded(x.provider_id),
    ensures
        (ProviderIdentityBundle { provider_id: t, ..x }).wire() != x.wire(),
{
    let n = (ProviderIdentityBundle { provider_id: t, ..x });
    let a0 = u64_field(1, x.time_stamp);
    let fx = optional_field(2, x.provider_id);
    let a2 = optional_field(3, x.address);
    let a3 = repeated_field(4, x.dial_up_info@);
    let a4 = optional_field(5, x.pre_key);
    let a5 = repeated_field(6, x.one_time_keys@);
    let a6 = optional_field(7, x.profile_image);
    let a7 = u64_field(8, x.current_bond_id);
    let a8 = optional_field(10, x.provider_signature);
    let a9 = u32_field(11, x.net_id);
    let fn_ = optional_field(2, n.provider_id);
    let p = a0;
    let s = a2 + a3 + a4 + a5 + a6 + a7 + a8 + a9;
    lemma_concat_associative(p + fx, a2, a3);
    lemma_concat_associative(p + fn_, a2, a3);
    lemma_concat_associative(p + fx, a2 + a3, a4);
    lemma_concat_associative(p + fn_, a2 + a3, a4);
    lemma_concat_associative(p + fx, a2 + a3 + a4, a5);
    lemma_concat_associative(p + fn_, a2 + a3 + a4, a5);
    lemma_concat_associative(p + fx, a2 + a3 + a4 + a5, a6);
    lemma_concat_associative(p + fn_, a2 + a3 + a4 + a5, a6);
    lemma_concat_associative(p + fx, a2 + a3 + a4 + a5 + a6, a7);
    lemma_concat_associative(p + fn_, a2 + a3 + a4 + a5 + a6, a7);
    lemma_concat_associative(p + fx, a2 + a3 + a4 + a5 + a6 + a7, a8);
    lemma_concat_associative(p + fn_, a2 + a3 + a4 + a5 + a6 + a7, a8);
    lemma_concat_associative(p + fx, a2 + a3 + a4 + a5 + a6 + a7 + a8, a9);
    lemma_concat_associative(p + fn_, a2 + a3 + a4 + a5 + a6 + a7 + a8, a9);
    assert(x.wire() == p + fx + s);
    assert(n.wire() == p + fn_ + s);
    if fn_ == fx {
        lemma_optional_field_injective(2, n.provider_id, x.provider_id);
    } else {
        lemma_middle_cancel_contra(p, fn_, fx, s);
    }
}

/// Changing only `address` changes the encoding.
proof fn lemma_provider_identity_bundle_encoding_carries_fields_address(x: ProviderIdentityBundle, t: Option<Address>)
    requires
        encoded(t) != encoded(x.address),
    ensures
        (ProviderIdentityBundle { address: t, ..x }).wire() != x.wire(),
{
    let n = (ProviderIdentityBundle { address: t, ..x });
    let a0 = u64_field(1, x.time_stamp);
    let a1 = optional_field(2, x.provider_id);
    let fx = optional_field(3, x.address);
    let a3 = repeated_field(4, x.dial_up_info@);
    let a4 = optional_field(5, x.pre_key);
    let a5 = repeated_field(6, x.one_time_keys@);
    let a6 = optional_field(7, x.profile_image);
    let a7 = u64_field(8, x.current_bond_id);
    let a8 = optional_field(10, x.provider_signature);
    let a9 = u32_field(11, x.net_id);
    let fn_ = optional_field(3, n.address);
    let p = a0 + a1;
    let s = a3 + a4 + a5 + a6 + a7 + a8 + a9;
    lemma_concat_associative(p + fx, a3, a4);
    lemma_concat_associative(p + fn_, a3, a4);
    lemma_concat_associative(p + fx, a3 + a4, a5);
    lemma_concat_associative(p + fn_, a3 + a4, a5);
    lemma_concat_associative(p + fx, a3 + a4 + a5, a6);
    lemma_concat_associative(p + fn_, a3 + a4 + a5, a6);
    lemma_concat_associative(p + fx, a3 + a4 + a5 + a6, a7);
    lemma_concat_associative(p + fn_, a3 + a4 + a5 + a6, a7);
    lemma_concat_associative(p + fx, a3 + a4 + a5 + a6 + a7, a8);
    lemma_concat_associative(p + fn_, a3 + a4 + a5 + a6 + a7, a8);
    lemma_concat_associative(p + fx, a3 + a4 + a5 + a6 + a7 + a8, a9);
    lemma_concat_associative(p + fn_, a3 + a4 + a5 + a6 + a7 + a8, a9);
    assert(x.wire() == p + fx + s);
    assert(n.wire() == p + fn_ + s);
    if fn_ == fx {
        lemma_optional_field_injective(3, n.address, x.address);
    } else {
        lemma_middle_cancel_contra(p, fn_, fx, s);
    }
}

/// Changing only `pre_key` changes the encoding.
proof fn lemma_provider_identity_bundle_encoding_carries_fields_pre_key(x: ProviderIdentityBundle, t: Option<PreKey>)
    requires
        encoded(t) != encoded(x.pre_key),
    ensures
        (ProviderIdentityBundle { pre_key: t, ..x }).wire() != x.wire(),
{
    let n = (ProviderIdentityBundle { pre_key: t, ..x });
    let a0 = u64_field(1, x.time_stamp);
    let a1 = optional_field(2, x.provider_id);
    let a2 = optional_field(3, x.address);
    let a3 = repeated_field(4, x.dial_up_info@);
    let fx = optional_field(5, x.pre_key);
    let a5 = repeated_field(6, x.one_time_keys@);
    let a6 = optional_field(7, x.profile_image);
    let a7 = u64_field(8, x.current_bond_id);
    let a8 = optional_field(10, x.provider_signature);
    let a9 = u32_field(11, x.net_id);
    let fn_ = optional_field(5, n.pre_key);
    let p = a0 + a1 + a2 + a3;
    let s = a5 + a6 + a7 + a8 + a9;
    lemma_concat_associative(p + fx, a5, a6);
    lemma_concat_associative(p + fn_, a5, a6);
    lemma_concat_associative(p + fx, a5 + a6, a7);
    lemma_concat_associative(p + fn_, a5 + a6, a7);
    lemma_concat_associative(p + fx, a5 + a6 + a7, a8);
    lemma_concat_associative(p + fn_, a5 + a6 + a7, a8);
    lemma_concat_associative(p + fx, a5 + a6 + a7 + a8, a9);
    lemma_concat_associative(p + fn_, a5 + a6 + a7 + a8, a9);
    assert(x.wire() == p + fx + s);
    assert(n.wire() == p + fn_ + s);
    if fn_ == fx {
        lemma_optional_field_injective(5, n.pre_key, x.pre_key);
    } else {
        lemma_middle_cancel_contra(p, fn_, fx, s);
    }
}

/// Changing only `profile_image` changes the encoding.
proof fn lemma_provider_identity_bundle_encoding_carries_fields_profile_image(x: ProviderIdentityBundle, t: Option<MediaItem>)
    requires
        encoded(t) != encoded(x.profile_image),
    ensures
        (ProviderIdentityBundle { profile_image: t, ..x }).wire() != x.wire(),
{
    let n = (ProviderIdentityBundle { profile_image: t, ..x });
    let a0 = u64_field(1, x.time_stamp);
    let a1 = optional_field(2, x.provider_id);
    let a2 = optional_field(3, x.address);
    let a3 = repeated_field(4, x.dial_up_info@);
    let a4 = optional_field(5, x.pre_key);
    let a5 = repeated_field(6, x.one_time_keys@);
    let fx = optional_field(7, x.profile_image);
    let a7 = u64_field(8, x.current_bond_id);
    let a8 = optional_field(10, x.provider_signature);
    let a9 = u32_field(11, x.net_id);
    let fn_ = optional_field(7, n.profile_image);
    let p = a0 + a1 + a2 + a3 + a4 + a5;
    let s = a7 + a8 + a9;
    lemma_concat_associative(p + fx, a7, a8);
    lemma_concat_associative(p + fn_, a7, a8);
    lemma_concat_associative(p + fx, a7 + a8, a9);
    lemma_concat_associative(p + fn_, a7 + a8, a9);
    assert(x.wire() == p + fx + s);
    assert(n.wire() == p + fn_ + s);
    if fn_ == fx {
        lemma_optional_field_injective(7, n.profile_image, x.profile_image);
    } else {
        lemma_middle_cancel_contra(p, fn_, fx, s);
    }
}

/// Changing only `current_bond_id` changes the encoding.
proof fn lemma_provider_identity_bundle_encoding_carries_fields_current_bond_id(x: ProviderIdentityBundle, t: u64)
    requires
        t != x.current_bond_id,
    ensures
        (ProviderIdentityBundle { current_bond_id: t, ..x }).wire() != x.wire(),
{
    let n = (ProviderIdentityBundle { current_bond_id: t, ..x });
    let a0 = u64_field(1, x.time_stamp);
    let a1 = optional_field(2, x.provider_id);
    let a2 = optional_field(3, x.address);
    let a3 = repeated_field(4, x.dial_up_info@);
    let a4 = optional_field(5, x.pre_key);
    let a5 = repeated_field(6, x.one_time_keys@);
    let a6 = optional_field(7, x.profile_image);
    let fx = u64_field(8, x.current_bond_id);
    let a8 = optional_field(10, x.provider_signature);
    let a9 = u32_field(11, x.net_id);
    let fn_ = u64_field(8, n.current_bond_id);
    let p = a0 + a1 + a2 + a3 + a4 + a5 + a6;
    let s = a8 + a9;
    lemma_concat_associative(p + fx, a8, a9);
    lemma_concat_associative(p + fn_, a8, a9);
    assert(x.wire() == p + fx + s);
    assert(n.wire() == p + fn_ + s);
    if fn_ == fx {
        lemma_u64_field_injective(8, n.current_bond_id, x.current_bond_id);
    } else {
        lemma_middle_cancel_contra(p, fn_, fx, s);
    }
}

/// Changing only `provider_signature` changes the encoding.
proof fn lemma_provider_identity_bundle_encoding_carries_fields_provider_signature(x: ProviderIdentityBundle, t: Option<Signature>)
    requires
        encoded(t) != encoded(x.provider_signature),
    ensures
        (ProviderIdentityBundle { provider_signature: t, ..x }).wire() != x.wire(),
{
    let n = (ProviderIdentityBundle { provider_signature: t, ..x });
    let a0 = u64_field(1, x.time_stamp);
    let a1 = optional_field(2, x.provider_id);
    let a2 = optional_field(3, x.address);
    let a3 = repeated_field(4, x.dial_up_info@);
    let a4 = optional_field(5, x.pre_key);
    let a5 = repeated_field(6, x.one_time_keys@);
    let a6 = optional_field(7, x.profile_image);
    let a7 = u64_field(8, x.current_bond_id);
    let fx = optional_field(10, x.provider_signature);
    let a9 = u32_field(11, x.net_id);
    let fn_ = optional_field(10, n.provider_signature);
    let p = a0 + a1 + a2 + a3 + a4 + a5 + a6 + a7;
    let s = a9;
    assert(x.wire() == p + fx + s);
    assert(n.wire() == p + fn_ + s);
    if fn_ == fx {
        lemma_optional_field_injective(10, n.provider_signature, x.provider_signature);
    } else {
        lemma_middle_cancel_contra(p, fn_, fx, s);
    }
}

/// Changing only `net_id` changes the encoding.
proof fn lemma_provider_identity_bundle_encoding_carries_fields_net_id(x: ProviderIdentityBundle, t: u32)
    requires
        t != x.net_id,
    ensures
        (ProviderIdentityBundle { net_id: t, ..x }).wire() != x.wire(),
{
    let n = (ProviderIdentityBundle { net_id: t, ..x });
    let a0 = u64_field(1, x.time_stamp);
    let a1 = optional_field(2, x.provider_id);
    let a2 = optional_field(3, x.address);
    let a3 = repeated_field(4, x.dial_up_info@);
    let a4 = optional_field(5, x.pre_key);
    let a5 = repeated_field(6, x.one_time_keys@);
    let a6 = optional_field(7, x.profile_image);
    let a7 = u64_field(8, x.current_bond_id);
    let a8 = optional_field(10, x.provider_signature);
    let fx = u32_field(11, x.net_id);
    let fn_ = u32_field(11, n.net_id);
    let p = a0 + a1 + a2 + a3 + a4 + a5 + a6 + a7 + a8;
    let s = Seq::<u8>::empty();
    assert(p + fx + s =~= p + fx);
    assert(p + fn_ + s =~= p + fn_);
    assert(x.wire() == p + fx + s);
    assert(n.wire() == p + fn_ + s);
    if fn_ == fx {
        lemma_u32_field_injective(11, n.net_id, x.net_id);
    } else {
        lemma_middle_cancel_contra(p, fn_, fx, s);
    }
}

/// Changing only `time_stamp` changes the encoding.
proof fn lemma_client_identity_bundle_encoding_carries_fields_time_stamp(x: ClientIdentityBundle, t: u64)
    requires
        t != x.time_stamp,
    ensures
        (ClientIdentityBundle { time_stamp: t, ..x }).wire() != x.wire(),
{
    let n = (ClientIdentityBundle { time_stamp: t, ..x });
    let fx = u64_field(1, x.time_stamp);
    let a1 = optional_field(2, x.client_id);
    let a2 = optional_field(3, x.address);
    let a3 = optional_field(4, x.provider_bundle);
    let a4 = optional_field(5, x.pre_key);
    let a5 = repeated_field(6, x.one_time_keys@);
    let a6 = optional_field(7, x.profile_image);
    let a7 = optional_field(8, x.signature);
    let a8 = u32_field(9, x.net_id);
    let fn_ = u64_field(1, n.time_stamp);
    let p = Seq::<u8>::empty();
    let s = a1 + a2 + a3 + a4 + a5 + a6 + a7 + a8;
    assert(p + fx =~= fx);
    assert(p + fn_ =~= fn_);
    lemma_concat_associative(p + fx, a1, a2);
    lemma_concat_associative(p + fn_, a1, a2);
    lemma_concat_associative(p + fx, a1 + a2, a3);
    lemma_concat_associative(p + fn_, a1 + a2, a3);
    lemma_concat_associative(p + fx, a1 + a2 + a3, a4);
    lemma_concat_associative(p + fn_, a1 + a2 + a3, a4);
    lemma_concat_associative(p + fx, a1 + a2 + a3 + a4, a5);
    lemma_concat_associative(p + fn_, a1 + a2 + a3 + a4, a5);
    lemma_concat_associative(p + fx, a1 + a2 + a3 + a4 + a5, a6);
    lemma_concat_associative(p + fn_, a1 + a2 + a3 + a4 + a5, a6);
    lemma_concat_associative(p + fx, a1 + a2 + a3 + a4 + a5 + a6, a7);
    lemma_concat_associative(p + fn_, a1 + a2 + a3 + a4 + a5 + a6, a7);
    lemma_concat_associative(p + fx, a1 + a2 + a3 + a4 + a5 + a6 + a7, a8);
    lemma_concat_associative(p + fn_, a1 + a2 + a3 + a4 + a5 + a6 + a7, a8);
    assert(x.wire() == p + fx + s);
    assert(n.wire() == p + fn_ + s);
    if fn_ == fx {
        lemma_u64_field_injective(1, n.time_stamp, x.time_stamp);
    } else {
        lemma_middle_cancel_contra(p, fn_, fx, s);
    }
}

/// Changing only `client_id` changes the encoding.
proof fn lemma_client_identity_bundle_encoding_carries_fields_client_id(x: ClientIdentityBundle, t: Option<EntityId>)
    requires
        encoded(t) != encoded(x.client_id),
    ensures
        (ClientIdentityBundle { client_id: t, ..x }).wire() != x.wire(),
{
    let n = (ClientIdentityBundle { client_id: t, ..x });
    let a0 = u64_field(1, x.time_stamp);
    let fx = optional_field(2, x.client_id);
    let a2 = optional_field(3, x.address);
    let a3 = optional_field(4, x.provider_bundle);
    let a4 = optional_field(5, x.pre_key);
    let a5 = repeated_field(6, x.one_time_keys@);
    let a6 = optional_field(7, x.profile_image);
    let a7 = optional_field(8, x.signature);
    let a8 = u32_field(9, x.net_id);
    let fn_ = optional_field(2, n.client_id);
    let p = a0;
    let s = a2 + a3 + a4 + a5 + a6 + a7 + a8;
    lemma_concat_associative(p + fx, a2, a3);
    lemma_concat_associative(p + fn_, a2, a3);
    lemma_concat_associative(p + fx, a2 + a3, a4);
    lemma_concat_associative(p + fn_, a2 + a3, a4);
    lemma_concat_associative(p + fx, a2 + a3 + a4, a5);
    lemma_concat_associative(p + fn_, a2 + a3 + a4, a5);
    lemma_concat_associative(p + fx, a2 + a3 + a4 + a5, a6);
    lemma_concat_associative(p + fn_, a2 + a3 + a4 + a5, a6);
    lemma_concat_associative(p + fx, a2 + a3 + a4 + a5 + a6, a7);
    lemma_concat_associative(p + fn_, a2 + a3 + a4 + a5 + a6, a7);
    lemma_concat_associative(p + fx, a2 + a3 + a4 + a5 + a6 + a7, a8);
    lemma_concat_associative(p + fn_, a2 + a3 + a4 + a5 + a6 + a7, a8);
    assert(x.wire() == p + fx + s);
    assert(n.wire() == p + fn_ + s);
    if fn_ == fx {
        lemma_optional_field_injective(2, n.client_id, x.client_id);
    } else {
        lemma_middle_cancel_contra(p, fn_, fx, s);
    }
}

/// Changing only `address` changes the encoding.
proof fn lemma_client_identity_bundle_encoding_carries_fields_address(x: ClientIdentityBundle, t: Option<Address>)
    requires
        encoded(t) != encoded(x.address),
    ensures
        (ClientIdentityBundle { address: t, ..x }).wire() != x.wire(),
{
    let n = (ClientIdentityBundle { address: t, ..x });
    let a0 = u64_field(1, x.time_stamp);
    let a1 = optional_field(2, x.client_id);
    let fx = optional_field(3, x.address);
    let a3 = optional_field(4, x.provider_bundle);
    let a4 = optional_field(5, x.pre_key);
    let a5 = repeated_field(6, x.one_time_keys@);
    let a6 = optional_field(7, x.profile_image);
    let a7 = optional_field(8, x.signature);
    let a8 = u32_field(9, x.net_id);
    let fn_ = optional_field(3, n.address);
    let p = a0 + a1;
    let s = a3 + a4 + a5 + a6 + a7 + a8;
    lemma_concat_associative(p + fx, a3, a4);
    lemma_concat_associative(p + fn_, a3, a4);
    lemma_concat_associative(p + fx, a3 + a4, a5);
    lemma_concat_associative(p + fn_, a3 + a4, a5);
    lemma_concat_associative(p + fx, a3 + a4 + a5, a6);
    lemma_concat_associative(p + fn_, a3 + a4 + a5, a6);
    lemma_concat_associative(p + fx, a3 + a4 + a5 + a6, a7);
    lemma_concat_associative(p + fn_, a3 + a4 + a5 + a6, a7);
    lemma_concat_associative(p + fx, a3 + a4 + a5 + a6 + a7, a8);
    lemma_concat_associative(p + fn_, a3 + a4 + a5 + a6 + a7, a8);
    assert(x.wire() == p + fx + s);
    assert(n.wire() == p + fn_ + s);
    if fn_ == fx {
        lemma_optional_field_injective(3, n.address, x.address);
    } else {
        lemma_middle_cancel_contra(p, fn_, fx, s);
    }
}

/// Changing only `provider_bundle` changes the encoding.
proof fn lemma_client_identity_bundle_encoding_carries_fields_provider_bundle(x: ClientIdentityBundle, t: Option<ProviderIdentityBundle>)
    requires
        encoded(t) != encoded(x.provider_bundle),
    ensures
        (ClientIdentityBundle { provider_bundle: t, ..x }).wire() != x.wire(),
{
    let n = (ClientIdentityBundle { provider_bundle: t, ..x });
    let a0 = u64_field(1, x.time_stamp);
    let a1 = optional_field(2, x.client_id);
    let a2 = optional_field(3, x.address);
    let fx = optional_field(4, x.provider_bundle);
    let a4 = optional_field(5, x.pre_key);
    let a5 = repeated_field(6, x.one_time_keys@);
    let a6 = optional_field(7, x.profile_image);
    let a7 = optional_field(8, x.signature);
    let a8 = u32_field(9, x.net_id);
    let fn_ = optional_field(4, n.provider_bundle);
    let p = a0 + a1 + a2;
    let s = a4 + a5 + a6 + a7 + a8;
    lemma_concat_associative(p + fx, a4, a5);
    lemma_concat_associative(p + fn_, a4, a5);
    lemma_concat_associative(p + fx, a4 + a5, a6);
    lemma_concat_associative(p + fn_, a4 + a5, a6);
    lemma_concat_associative(p + fx, a4 + a5 + a6, a7);
    lemma_concat_associative(p + fn_, a4 + a5 + a6, a7);
    lemma_concat_associative(p + fx, a4 + a5 + a6 + a7, a8);
    lemma_concat_associative(p + fn_, a4 + a5 + a6 + a7, a8);
    assert(x.wire() == p + fx + s);
    assert(n.wire() == p + fn_ + s);
    if fn_ == fx {
        lemma_optional_field_injective(4, n.provider_bundle, x.provider_bundle);
    } else {
        lemma_middle_cancel_contra(p, fn_, fx, s);
    }
}

/// Changing only `pre_key` changes the encoding.
proof fn lemma_client_identity_bundle_encoding_carries_fields_pre_key(x: ClientIdentityBundle, t: Option<PreKey>)
    requires
        encoded(t) != encoded(x.pre_key),
    ensures
        (ClientIdentityBundle { pre_key: t, ..x }).wire() != x.wire(),
{
    let n = (ClientIdentityBundle { pre_key: t, ..x });
    let a0 = u64_field(1, x.time_stamp);
    let a1 = optional_field(2, x.client_id);
    let a2 = optional_field(3, x.address);
    let a3 = optional_field(4, x.provider_bundle);
    let fx = optional_field(5, x.pre_key);
    let a5 = repeated_field(6, x.one_time_keys@);
    let a6 = optional_field(7, x.profile_image);
    let a7 = optional_field(8, x.signature);
    let a8 = u32_field(9, x.net_id);
    let fn_ = optional_field(5, n.pre_key);
    let p = a0 + a1 + a2 + a3;
    let s = a5 + a6 + a7 + a8;
    lemma_concat_associative(p + fx, a5, a6);
    lemma_concat_associative(p + fn_, a5, a6);
    lemma_concat_associative(p + fx, a5 + a6, a7);
    lemma_concat_associative(p + fn_, a5 + a6, a7);
    lemma_concat_associative(p + fx, a5 + a6 + a7, a8);
    lemma_concat_associative(p + fn_, a5 + a6 + a7, a8);
    assert(x.wire() == p + fx + s);
    assert(n.wire() == p + fn_ + s);
    if fn_ == fx {
        lemma_optional_field_injective(5, n.pre_key, x.pre_key);
    } else {
        lemma_middle_cancel_contra(p, fn_, fx, s);
    }
}

/// Changing only `profile_image` changes the encoding.
proof fn lemma_client_identity_bundle_encoding_carries_fields_profile_image(x: ClientIdentityBundle, t: Option<MediaItem>)
    requires
        encoded(t) != encoded(x.profile_image),
    ensures
        (ClientIdentityBundle { profile_image: t, ..x }).wire() != x.wire(),
{
    let n = (ClientIdentityBundle { profile_image: t, ..x });
    let a0 = u64_field(1, x.time_stamp);
    let a1 = optional_field(2, x.client_id);
    let a2 = optional_field(3, x.address);
    let a3 = optional_field(4, x.provider_bundle);
    let a4 = optional_field(5, x.pre_key);
    let a5 = repeated_field(6, x.one_time_keys@);
    let fx = optional_field(7, x.profile_image);
    let a7 = optional_field(8, x.signature);
    let a8 = u32_field(9, x.net_id);
    let fn_ = optional_field(7, n.profile_image);
    let p = a0 + a1 + a2 + a3 + a4 + a5;
    let s = a7 + a8;
    lemma_concat_associative(p + fx, a7, a8);
    lemma_concat_associative(p + fn_, a7, a8);
    assert(x.wire() == p + fx + s);
    assert(n.wire() == p + fn_ + s);
    if fn_ == fx {
        lemma_optional_field_injective(7, n.profile_image, x.profile_image);
    } else {
        lemma_middle_cancel_contra(p, fn_, fx, s);
    }
}

/// Changing only `signature` changes the encoding.
proof fn lemma_client_identity_bundle_encoding_carries_fields_signature(x: ClientIdentityBundle, t: Option<Signature>)
    requires
        encoded(t) != encoded(x.signature),
    ensures
        (ClientIdentityBundle { signature: t, ..x }).wire() != x.wire(),
{
    let n = (ClientIdentityBundle { signature: t, ..x });
    let a0 = u64_field(1, x.time_stamp);
    let a1 = optional_field(2, x.client_id);
    let a2 = optional_field(3, x.address);
    let a3 = optional_field(4, x.provider_bundle);
    let a4 = optional_field(5, x.pre_key);
    let a5 = repeated_field(6, x.one_time_keys@);
    let a6 = optional_field(7, x.profile_image);
    let fx = optional_field(8, x.signature);
    let a8 = u32_field(9, x.net_id);
    let fn_ = optional_field(8, n.signature);
    let p = a0 + a1 + a2 + a3 + a4 + a5 + a6;
    let s = a8;
    assert(x.wire() == p + fx + s);
    assert(n.wire() == p + fn_ + s);
    if fn_ == fx {
        lemma_optional_field_injective(8, n.signature, x.signature);
    } else {
        lemma_middle_cancel_contra(p, fn_, fx, s);
    }
}

/// Changing only `net_id` changes the encoding.
proof fn lemma_client_identity_bundle_encoding_carries_fields_net_id(x: ClientIdentityBundle, t: u32)
    requires
        t != x.net_id,
    ensures
        (ClientIdentityBundle { net_id: t, ..x }).wire() != x.wire(),
{
    let n = (ClientIdentityBundle { net_id: t, ..x });
    let a0 = u64_field(1, x.time_stamp);
    let a1 = optional_field(2, x.client_id);
    let a2 = optional_field(3, x.address);
    let a3 = optional_field(4, x.provider_bundle);
    let a4 = optional_field(5, x.pre_key);
    let a5 = repeated_field(6, x.one_time_keys@);
    let a6 = optional_field(7, x.profile_image);
    let a7 = optional_field(8, x.signature);
    let fx = u32_field(9, x.net_id);
    let fn_ = u32_field(9, n.net_id);
    let p = a0 + a1 + a2 + a3 + a4 + a5 + a6 + a7;
    let s = Seq::<u8>::empty();
    assert(p + fx + s =~= p + fx);
    assert(p + fn_ + s =~= p + fn_);
    assert(x.wire() == p + fx + s);
    assert(n.wire() == p + fn_ + s);
    if fn_ == fx {
        lemma_u32_field_injective(9, n.net_id, x.net_id);
    } else {
        lemma_middle_cancel_contra(p, fn_, fx, s);
    }
}

/// Changing only `client_bundle` changes the encoding.
proof fn lemma_provider_signed_client_identity_bundle_encoding_carries_fields_client_bundle(x: ProviderSignedClientIdentityBundle, t: Option<ClientIdentityBundle>)
    requires
        encoded(t) != encoded(x.client_bundle),
    ensures
        (ProviderSignedClientIdentityBundle { client_bundle: t, ..x }).wire() != x.wire(),
{
    let n = (ProviderSignedClientIdentityBundle { client_bundle: t, ..x });
    let fx = optional_field(1, x.client_bundle);
    let a1 = optional_field(2, x.signature);
    let fn_ = optional_field(1, n.client_bundle);
    let p = Seq::<u8>::empty();
    let s = a1;
    assert(p + fx =~= fx);
    assert(p + fn_ =~= fn_);
    assert(x.wire() == p + fx + s);
    assert(n.wire() == p + fn_ + s);
    if fn_ == fx {
        lemma_optional_field_injective(1, n.client_bundle, x.client_bundle);
    } else {
        lemma_middle_cancel_contra(p, fn_, fx, s);
    }
}

/// Changing only `signature` changes the encoding.
proof fn lemma_provider_signed_client_identity_bundle_encoding_carries_fields_signature(x: ProviderSignedClientIdentityBundle, t: Option<Signature>)
    requires
        encoded(t) != encoded(x.signature),
    ensures
        (ProviderSignedClientIdentityBundle { signature: t, ..x }).wire() != x.wire(),
{
    let n = (ProviderSignedClientIdentityBundle { signature: t, ..x });
    let a0 = optional_field(1, x.client_bundle);
    let fx = optional_field(2, x.signature);
    let fn_ = optional_field(2, n.signature);
    let p = a0;
    let s = Seq::<u8>::empty();
    assert(p + fx + s =~= p + fx);
    assert(p + fn_ + s =~= p + fn_);
    assert(x.wire() == p + fx + s);
    assert(n.wire() == p + fn_ + s);
    if fn_ == fx {
        lemma_optional_field_injective(2, n.signature, x.signature);
    } else {
        lemma_middle_cancel_contra(p, fn_, fx, s);
    }
}

/// Changing only `end_point` changes the encoding.
proof fn lemma_dialup_info_encoding_carries_fields_end_point(x: DialupInfo, t: i32)
    requires
        t != x.end_point,
    ensures
        (DialupInfo { end_point: t, ..x }).wire() != x.wire(),
{
    let n = (DialupInfo { end_point: t, ..x });
    let fx = i32_field(1, x.end_point);
    let a1 = string_field(2, x.api_version@);
    let a2 = string_field(3, x.ip_address@);
    let a3 = u32_field(4, x.port);
    let a4 = u32_field(5, x.net_id);
    let a5 = string_field(6, x.name@);
    let fn_ = i32_field(1, n.end_point);
    let p = Seq::<u8>::empty();
    let s = a1 + a2 + a3 + a4 + a5;
    assert(p + fx =~= fx);
    assert(p + fn_ =~= fn_);
    lemma_concat_associative(p + fx, a1, a2);
    lemma_concat_associative(p + fn_, a1, a2);
    lemma_concat_associative(p + fx, a1 + a2, a3);
    lemma_concat_associative(p + fn_, a1 + a2, a3);
    lemma_concat_associative(p + fx, a1 + a2 + a3, a4);
    lemma_concat_associative(p + fn_, a1 + a2 + a3, a4);
    lemma_concat_associative(p + fx, a1 + a2 + a3 + a4, a5);
    lemma_concat_associative(p + fn_, a1 + a2 + a3 + a4, a5);
    assert(x.wire() == p + fx + s);
    assert(n.wire() == p + fn_ + s);
    if fn_ == fx {
        lemma_i32_field_injective(1, n.end_point, x.end_point);
    } else {
        lemma_middle_cancel_contra(p, fn_, fx, s);
    }
}

/// Changing only `api_version` changes the encoding.
proof fn lemma_dialup_info_encoding_carries_fields_api_version(x: DialupInfo, t: String)
    requires
        t@ != x.api_version@,
    ensures
        (DialupInfo { api_version: t, ..x }).wire() != x.wire(),
{
    let n = (DialupInfo { api_version: t, ..x });
    let a0 = i32_field(1, x.end_point);
    let fx = string_field(2, x.api_version@);
    let a2 = string_field(3, x.ip_address@);
    let a3 = u32_field(4, x.port);
    let a4 = u32_field(5, x.net_id);
    let a5 = string_field(6, x.name@);
    let fn_ = string_field(2, n.api_version@);
    let p = a0;
    let s = a2 + a3 + a4 + a5;
    lemma_concat_associative(p + fx, a2, a3);
    lemma_concat_associative(p + fn_, a2, a3);
    lemma_concat_associative(p + fx, a2 + a3, a4);
    lemma_concat_associative(p + fn_, a2 + a3, a4);
    lemma_concat_associative(p + fx, a2 + a3 + a4, a5);
    lemma_concat_associative(p + fn_, a2 + a3 + a4, a5);
    assert(x.wire() == p + fx + s);
    assert(n.wire() == p + fn_ + s);
    if fn_ == fx {
        lemma_string_field_injective(2, n.api_version@, x.api_version@);
    } else {
        lemma_middle_cancel_contra(p, fn_, fx, s);
    }
}

/// Changing only `ip_address` changes the encoding.
proof fn lemma_dialup_info_encoding_carries_fields_ip_address(x: DialupInfo, t: String)
    requires
        t@ != x.ip_address@,
    ensures
        (DialupInfo { ip_address: t, ..x }).wire() != x.wire(),
{
    let n = (DialupInfo { ip_address: t, ..x });
    let a0 = i32_field(1, x.end_point);
    let a1 = string_field(2, x.api_version@);
    let fx = string_field(3, x.ip_address@);
    let a3 = u32_field(4, x.port);
    let a4 = u32_field(5, x.net_id);
    let a5 = string_field(6, x.name@);
    let fn_ = string_field(3, n.ip_address@);
    let p = a0 + a1;
    let s = a3 + a4 + a5;
    lemma_concat_associative(p + fx, a3, a4);
    lemma_concat_associative(p + fn_, a3, a4);
    lemma_concat_associative(p + fx, a3 + a4, a5);
    lemma_concat_associative(p + fn_, a3 + a4, a5);
    assert(x.wire() == p + fx + s);
    assert(n.wire() == p + fn_ + s);
    if fn_ == fx {
        lemma_string_field_injective(3, n.ip_address@, x.ip_address@);
    } else {
        lemma_middle_cancel_contra(p, fn_, fx, s);
    }
}

/// Changing only `port` changes the encoding.
proof fn lemma_dialup_info_encoding_carries_fields_port(x: DialupInfo, t: u32)
    requires
        t != x.port,
    ensures
        (DialupInfo { port: t, ..x }).wire() != x.wire(),
{
    let n = (DialupInfo { port: t, ..x });
    let a0 = i32_field(1, x.end_point);
    let a1 = string_field(2, x.api_version@);
    let a2 = string_field(3, x.ip_address@);
    let fx = u32_field(4, x.port);
    let a4 = u32_field(5, x.net_id);
    let a5 = string_field(6, x.name@);
    let fn_ = u32_field(4, n.port);
    let p = a0 + a1 + a2;
    let s = a4 + a5;
    lemma_concat_associative(p + fx, a4, a5);
    lemma_concat_associative(p + fn_, a4, a5);
    assert(x.wire() == p + fx + s);
    assert(n.wire() == p + fn_ + s);
    if fn_ == fx {
        lemma_u32_field_injective(4, n.port, x.port);
    } else {
        lemma_middle_cancel_contra(p, fn_, fx, s);
    }
}

/// Changing only `net_id` changes the encoding.
proof fn lemma_dialup_info_encoding_carries_fields_net_id(x: DialupInfo, t: u32)
    requires
        t != x.net_id,
    ensures
        (DialupInfo { net_id: t, ..x }).wire() != x.wire(),
{
    let n = (DialupInfo { net_id: t, ..x });
    let a0 = i32_field(1, x.end_point);
    let a1 = string_field(2, x.api_version@);
    let a2 = string_field(3, x.ip_address@);
    let a3 = u32_field(4, x.port);
    let fx = u32_field(5, x.net_id);
    let a5 = string_field(6, x.name@);
    let fn_ = u32_field(5, n.net_id);
    let p = a0 + a1 + a2 + a3;
    let s = a5;
    assert(x.wire() == p + fx + s);
    assert(n.wire() == p + fn_ + s);
    if fn_ == fx {
        lemma_u32_field_injective(5, n.net_id, x.net_id);
    } else {
        lemma_middle_cancel_contra(p, fn_, fx, s);
    }
}

/// Changing only `name` changes the encoding.
proof fn lemma_dialup_info_encoding_carries_fields_name(x: DialupInfo, t: String)
    requires
        t@ != x.name@,
    ensures
        (DialupInfo { name: t, ..x }).wire() != x.wire(),
{
    let n = (DialupInfo { name: t, ..x });
    let a0 = i32_field(1, x.end_point);
    let a1 = string_field(2, x.api_version@);
    let a2 = string_field(3, x.ip_address@);
    let a3 = u32_field(4, x.port);
    let a4 = u32_field(5, x.net_id);
    let fx = string_field(6, x.name@);
    let fn_ = string_field(6, n.name@);
    let p = a0 + a1 + a2 + a3 + a4;
    let s = Seq::<u8>::empty();
    assert(p + fx + s =~= p + fx);
    assert(p + fn_ + s =~= p + fn_);
    assert(x.wire() == p + fx + s);
    assert(n.wire() == p + fn_ + s);
    if fn_ == fx {
        lemma_string_field_injective(6, n.name@, x.name@);
    } else {
        lemma_middle_cancel_contra(p, fn_, fx, s);
    }
}

/// Changing only `provider_id` changes the encoding.
proof fn lemma_provider_net_info_encoding_carries_fields_provider_id(x: ProviderNetInfo, t: Option<EntityId>)
    requires
        encoded(t) != encoded(x.provider_id),
    ensures
        (ProviderNetInfo { provider_id: t, ..x }).wire() != x.wire(),
{
    let n = (ProviderNetInfo { provider_id: t, ..x });
    let fx = optional_field(1, x.provider_id);
    let a1 = optional_field(2, x.dial_up_info);
    let a2 = optional_field(3, x.signature);
    let fn_ = optional_field(1, n.provider_id);
    let p = Seq::<u8>::empty();
    let s = a1 + a2;
    assert(p + fx =~= fx);
    assert(p + fn_ =~= fn_);
    lemma_concat_associative(p + fx, a1, a2);
    lemma_concat_associative(p + fn_, a1, a2);
    assert(x.wire() == p + fx + s);
    assert(n.wire() == p + fn_ + s);
    if fn_ == fx {
        lemma_optional_field_injective(1, n.provider_id, x.provider_id);
    } else {
        lemma_middle_cancel_contra(p, fn_, fx, s);
    }
}

/// Changing only `dial_up_info` changes the encoding.
proof fn lemma_provider_net_info_encoding_carries_fields_dial_up_info(x: ProviderNetInfo, t: Option<DialupInfo>)
    requires
        encoded(t) != encoded(x.dial_up_info),
    ensures
        (ProviderNetInfo { dial_up_info: t, ..x }).wire() != x.wire(),
{
    let n = (ProviderNetInfo { dial_up_info: t, ..x });
    let a0 = optional_field(1, x.provider_id);
    let fx = optional_field(2, x.dial_up_info);
    let a2 = optional_field(3, x.signature);
    let fn_ = optional_field(2, n.dial_up_info);
    let p = a0;
    let s = a2;
    assert(x.wire() == p + fx + s);
    assert(n.wire() == p + fn_ + s);
    if fn_ == fx {
        lemma_optional_field_injective(2, n.dial_up_info, x.dial_up_info);
    } else {
        lemma_middle_cancel_contra(p, fn_, fx, s);
    }
}

/// Changing only `signature` changes the encoding.
proof fn lemma_provider_net_info_encoding_carries_fields_signature(x: ProviderNetInfo, t: Option<Signature>)
    requires
        encoded(t) != encoded(x.signature),
    ensures
        (ProviderNetInfo { signature: t, ..x }).wire() != x.wire(),
{
    let n = (ProviderNetInfo { signature: t, ..x });
    let a0 = optional_field(1, x.provider_id);
    let a1 = optional_field(2, x.dial_up_info);
    let fx = optional_field(3, x.signature);
    let fn_ = optional_field(3, n.signature);
    let p = a0 + a1;
    let s = Seq::<u8>::empty();
    assert(p + fx + s =~= p + fx);
    assert(p + fn_ + s =~= p + fn_);
    assert(x.wire() == p + fx + s);
    assert(n.wire() == p + fn_ + s);
    if fn_ == fx {
        lemma_optional_field_injective(3, n.signature, x.signature);
    } else {
        lemma_middle_cancel_contra(p, fn_, fx, s);
    }
}

/// Changing only `channel_id` changes the encoding.
proof fn lemma_channel_bundle_encoding_carries_fields_channel_id(x: ChannelBundle, t: Option<EntityId>)
    requires
        encoded(t) != encoded(x.channel_id),
    ensures
        (ChannelBundle { channel_id: t, ..x }).wire() != x.wire(),
{
    let n = (ChannelBundle { channel_id: t, ..x });
    let fx = optional_field(1, x.channel_id);
    let a1 = optional_field(2, x.creator_id);
    let a2 = i32_field(3, x.channel_type);
    let a3 = u64_field(4, x.created);
    let a4 = string_field(5, x.description@);
    let a5 = string_field(6, x.acceptable_content_policy@);
    let a6 = optional_field(7, x.logo);
    let a7 = optional_field(8, x.payable_address);
    let a8 = optional_field(9, x.subscription_fee);
    let a9 = optional_field(10, x.signature);
    let a10 = optional_field(11, x.creator_signature);
    let a11 = i32_field(12, x.pricing_model);
    let fn_ = optional_field(1, n.channel_id);
    let p = Seq::<u8>::empty();
    let s = a1 + a2 + a3 + a4 + a5 + a6 + a7 + a8 + a9 + a10 + a11;
    assert(p + fx =~= fx);
    assert(p + fn_ =~= fn_);
    lemma_concat_associative(p + fx, a1, a2);
    lemma_concat_associative(p + fn_, a1, a2);
    lemma_concat_associative(p + fx, a1 + a2, a3);
    lemma_concat_associative(p + fn_, a1 + a2, a3);
    lemma_concat_associative(p + fx, a1 + a2 + a3, a4);
    lemma_concat_associative(p + fn_, a1 + a2 + a3, a4);
    lemma_concat_associative(p + fx, a1 + a2 + a3 + a4, a5);
    lemma_concat_associative(p + fn_, a1 + a2 + a3 + a4, a5);
    lemma_concat_associative(p + fx, a1 + a2 + a3 + a4 + a5, a6);
    lemma_concat_associative(p + fn_, a1 + a2 + a3 + a4 + a5, a6);
    lemma_concat_associative(p + fx, a1 + a2 + a3 + a4 + a5 + a6, a7);
    lemma_concat_associative(p + fn_, a1 + a2 + a3 + a4 + a5 + a6, a7);
    lemma_concat_associative(p + fx, a1 + a2 + a3 + a4 + a5 + a6 + a7, a8);
    lemma_concat_associative(p + fn_, a1 + a2 + a3 + a4 + a5 + a6 + a7, a8);
    lemma_concat_associative(p + fx, a1 + a2 + a3 + a4 + a5 + a6 + a7 + a8, a9);
    lemma_concat_associative(p + fn_, a1 + a2 + a3 + a4 + a5 + a6 + a7 + a8, a9);
    lemma_concat_associative(p + fx, a1 + a2 + a3 + a4 + a5 + a6 + a7 + a8 + a9, a10);
    lemma_concat_associative(p + fn_, a1 + a2 + a3 + a4 + a5 + a6 + a7 + a8 + a9, a10);
    lemma_concat_associative(p + fx, a1 + a2 + a3 + a4 + a5 + a6 + a7 + a8 + a9 + a10, a11);
    lemma_concat_associative(p + fn_, a1 + a2 + a3 + a4 + a5 + a6 + a7 + a8 + a9 + a10, a11);
    assert(x.wire() == p + fx + s);
    assert(n.wire() == p + fn_ + s);
    if fn_ == fx {
        lemma_optional_field_injective(1, n.channel_id, x.channel_id);
    } else {
        lemma_middle_cancel_contra(p, fn_, fx, s);
    }
}

/// Changing only `creator_id` changes the encoding.
proof fn lemma_channel_bundle_encoding_carries_fields_creator_id(x: ChannelBundle, t: Option<EntityId>)
    requires
        encoded(t) != encoded(x.creator_id),
    ensures
        (ChannelBundle { creator_id: t, ..x }).wire() != x.wire(),
{
    let n = (ChannelBundle { creator_id: t, ..x });
    let a0 = optional_field(1, x.channel_id);
    let fx = optional_field(2, x.creator_id);
    let a2 = i32_field(3, x.channel_type);
    let a3 = u64_field(4, x.created);
    let a4 = string_field(5, x.description@);
    let a5 = string_field(6, x.acceptable_content_policy@);
    let a6 = optional_field(7, x.logo);
    let a7 = optional_field(8, x.payable_address);
    let a8 = optional_field(9, x.subscription_fee);
    let a9 = optional_field(10, x.signature);
    let a10 = optional_field(11, x.creator_signature);
    let a11 = i32_field(12, x.pricing_model);
    let fn_ = optional_field(2, n.creator_id);
    let p = a0;
    let s = a2 + a3 + a4 + a5 + a6 + a7 + a8 + a9 + a10 + a11;
    lemma_concat_associative(p + fx, a2, a3);
    lemma_concat_associative(p + fn_, a2, a3);
    lemma_concat_associative(p + fx, a2 + a3, a4);
    lemma_concat_associative(p + fn_, a2 + a3, a4);
    lemma_concat_associative(p + fx, a2 + a3 + a4, a5);
    lemma_concat_associative(p + fn_, a2 + a3 + a4, a5);
    lemma_concat_associative(p + fx, a2 + a3 + a4 + a5, a6);
    lemma_concat_associative(p + fn_, a2 + a3 + a4 + a5, a6);
    lemma_concat_associative(p + fx, a2 + a3 + a4 + a5 + a6, a7);
    lemma_concat_associative(p + fn_, a2 + a3 + a4 + a5 + a6, a7);
    lemma_concat_associative(p + fx, a2 + a3 + a4 + a5 + a6 + a7, a8);
    lemma_concat_associative(p + fn_, a2 + a3 + a4 + a5 + a6 + a7, a8);
    lemma_concat_associative(p + fx, a2 + a3 + a4 + a5 + a6 + a7 + a8, a9);
    lemma_concat_associative(p + fn_, a2 + a3 + a4 + a5 + a6 + a7 + a8, a9);
    lemma_concat_associative(p + fx, a2 + a3 + a4 + a5 + a6 + a7 + a8 + a9, a10);
    lemma_concat_associative(p + fn_, a2 + a3 + a4 + a5 + a6 + a7 + a8 + a9, a10);
    lemma_concat_associative(p + fx, a2 + a3 + a4 + a5 + a6 + a7 + a8 + a9 + a10, a11);
    lemma_concat_associative(p + fn_, a2 + a3 + a4 + a5 + a6 + a7 + a8 + a9 + a10, a11);
    assert(x.wire() == p + fx + s);
    assert(n.wire() == p + fn_ + s);
    if fn_ == fx {
        lemma_optional_field_injective(2, n.creator_id, x.creator_id);
    } else {
        lemma_middle_cancel_contra(p, fn_, fx, s);
    }
}

/// Changing only `channel_type` changes the encoding.
proof fn lemma_channel_bundle_encoding_carries_fields_channel_type(x: ChannelBundle, t: i32)
    requires
        t != x.channel_type,
    ensures
        (ChannelBundle { channel_type: t, ..x }).wire() != x.wire(),
{
    let n = (ChannelBundle { channel_type: t, ..x });
    let a0 = optional_field(1, x.channel_id);
    let a1 = optional_field(2, x.creator_id);
    let fx = i32_field(3, x.channel_type);
    let a3 = u64_field(4, x.created);
    let a4 = string_field(5, x.description@);
    let a5 = string_field(6, x.acceptable_content_policy@);
    let a6 = optional_field(7, x.logo);
    let a7 = optional_field(8, x.payable_address);
    let a8 = optional_field(9, x.subscription_fee);
    let a9 = optional_field(10, x.signature);
    let a10 = optional_field(11, x.creator_signature);
    let a11 = i32_field(12, x.pricing_model);
    let fn_ = i32_field(3, n.channel_type);
    let p = a0 + a1;
    let s = a3 + a4 + a5 + a6 + a7 + a8 + a9 + a10 + a11;
    lemma_concat_associative(p + fx, a3, a4);
    lemma_concat_associative(p + fn_, a3, a4);
    lemma_concat_associative(p + fx, a3 + a4, a5);
    lemma_concat_associative(p + fn_, a3 + a4, a5);
    lemma_concat_associative(p + fx, a3 + a4 + a5, a6);
    lemma_concat_associative(p + fn_, a3 + a4 + a5, a6);
    lemma_concat_associative(p + fx, a3 + a4 + a5 + a6, a7);
    lemma_concat_associative(p + fn_, a3 + a4 + a5 + a6, a7);
    lemma_concat_associative(p + fx, a3 + a4 + a5 + a6 + a7, a8);
    lemma_concat_associative(p + fn_, a3 + a4 + a5 + a6 + a7, a8);
    lemma_concat_associative(p + fx, a3 + a4 + a5 + a6 + a7 + a8, a9);
    lemma_concat_associative(p + fn_, a3 + a4 + a5 + a6 + a7 + a8, a9);
    lemma_concat_associative(p + fx, a3 + a4 + a5 + a6 + a7 + a8 + a9, a10);
    lemma_concat_associative(p + fn_, a3 + a4 + a5 + a6 + a7 + a8 + a9, a10);
    lemma_concat_associative(p + fx, a3 + a4 + a5 + a6 + a7 + a8 + a9 + a10, a11);
    lemma_concat_associative(p + fn_, a3 + a4 + a5 + a6 + a7 + a8 + a9 + a10, a11);
    assert(x.wire() == p + fx + s);
    assert(n.wire() == p + fn_ + s);
    if fn_ == fx {
        lemma_i32_field_injective(3, n.channel_type, x.channel_type);
    } else {
        lemma_middle_cancel_contra(p, fn_, fx, s);
    }
}

/// Changing only `created` changes the encoding.
proof fn lemma_channel_bundle_encoding_carries_fields_created(x: ChannelBundle, t: u64)
    requires
        t != x.created,
    ensures
        (ChannelBundle { created: t, ..x }).wire() != x.wire(),
{
    let n = (ChannelBundle { created: t, ..x });
    let a0 = optional_field(1, x.channel_id);
    let a1 = optional_field(2, x.creator_id);
    let a2 = i32_field(3, x.channel_type);
    let fx = u64_field(4, x.created);
    let a4 = string_field(5, x.description@);
    let a5 = string_field(6, x.acceptable_content_policy@);
    let a6 = optional_field(7, x.logo);
    let a7 = optional_field(8, x.payable_address);
    let a8 = optional_field(9, x.subscription_fee);
    let a9 = optional_field(10, x.signature);
    let a10 = optional_field(11, x.creator_signature);
    let a11 = i32_field(12, x.pricing_model);
    let fn_ = u64_field(4, n.created);
    let p = a0 + a1 + a2;
    let s = a4 + a5 + a6 + a7 + a8 + a9 + a10 + a11;
    lemma_concat_associative(p + fx, a4, a5);
    lemma_concat_associative(p + fn_, a4, a5);
    lemma_concat_associative(p + fx, a4 + a5, a6);
    lemma_concat_associative(p + fn_, a4 + a5, a6);
    lemma_concat_associative(p + fx, a4 + a5 + a6, a7);
    lemma_concat_associative(p + fn_, a4 + a5 + a6, a7);
    lemma_concat_associative(p + fx, a4 + a5 + a6 + a7, a8);
    lemma_concat_associative(p + fn_, a4 + a5 + a6 + a7, a8);
    lemma_concat_associative(p + fx, a4 + a5 + a6 + a7 + a8, a9);
    lemma_concat_associative(p + fn_, a4 + a5 + a6 + a7 + a8, a9);
    lemma_concat_associative(p + fx, a4 + a5 + a6 + a7 + a8 + a9, a10);
    lemma_concat_associative(p + fn_, a4 + a5 + a6 + a7 + a8 + a9, a10);
    lemma_concat_associative(p + fx, a4 + a5 + a6 + a7 + a8 + a9 + a10, a11);
    lemma_concat_associative(p + fn_, a4 + a5 + a6 + a7 + a8 + a9 + a10, a11);
    assert(x.wire() == p + fx + s);
    assert(n.wire() == p + fn_ + s);
    if fn_ == fx {
        lemma_u64_field_injective(4, n.created, x.created);
    } else {
        lemma_middle_cancel_contra(p, fn_, fx, s);
    }
}

/// Changing only `description` changes the encoding.
proof fn lemma_channel_bundle_encoding_carries_fields_description(x: ChannelBundle, t: String)
    requires
        t@ != x.description@,
    ensures
        (ChannelBundle { description: t, ..x }).wire() != x.wire(),
{
    let n = (ChannelBundle { description: t, ..x });
    let a0 = optional_field(1, x.channel_id);
    let a1 = optional_field(2, x.creator_id);
    let a2 = i32_field(3, x.channel_type);
    let a3 = u64_field(4, x.created);
    let fx = string_field(5, x.description@);
    let a5 = string_field(6, x.acceptable_content_policy@);
    let a6 = optional_field(7, x.logo);
    let a7 = optional_field(8, x.payable_address);
    let a8 = optional_field(9, x.subscription_fee);
    let a9 = optional_field(10, x.signature);
    let a10 = optional_field(11, x.creator_signature);
    let a11 = i32_field(12, x.pricing_model);
    let fn_ = string_field(5, n.description@);
    let p = a0 + a1 + a2 + a3;
    let s = a5 + a6 + a7 + a8 + a9 + a10 + a11;
    lemma_concat_associative(p + fx, a5, a6);
    lemma_concat_associative(p + fn_, a5, a6);
    lemma_concat_associative(p + fx, a5 + a6, a7);
    lemma_concat_associative(p + fn_, a5 + a6, a7);
    lemma_concat_associative(p + fx, a5 + a6 + a7, a8);
    lemma_concat_associative(p + fn_, a5 + a6 + a7, a8);
    lemma_concat_associative(p + fx, a5 + a6 + a7 + a8, a9);
    lemma_concat_associative(p + fn_, a5 + a6 + a7 + a8, a9);
    lemma_concat_associative(p + fx, a5 + a6 + a7 + a8 + a9, a10);
    lemma_concat_associative(p + fn_, a5 + a6 + a7 + a8 + a9, a10);
    lemma_concat_associative(p + fx, a5 + a6 + a7 + a8 + a9 + a10, a11);
    lemma_concat_associative(p + fn_, a5 + a6 + a7 + a8 + a9 + a10, a11);
    assert(x.wire() == p + fx + s);
    assert(n.wire() == p + fn_ + s);
    if fn_ == fx {
        lemma_string_field_injective(5, n.description@, x.description@);
    } else {
        lemma_middle_cancel_contra(p, fn_, fx, s);
    }
}

/// Changing only `acceptable_content_policy` changes the encoding.
proof fn lemma_channel_bundle_encoding_carries_fields_acceptable_content_policy(x: ChannelBundle, t: String)
    requires
        t@ != x.acceptable_content_policy@,
    ensures
        (ChannelBundle { acceptable_content_policy: t, ..x }).wire() != x.wire(),
{
    let n = (ChannelBundle { acceptable_content_policy: t, ..x });
    let a0 = optional_field(1, x.channel_id);
    let a1 = optional_field(2, x.creator_id);
    let a2 = i32_field(3, x.channel_type);
    let a3 = u64_field(4, x.created);
    let a4 = string_field(5, x.description@);
    let fx = string_field(6, x.acceptable_content_policy@);
    let a6 = optional_field(7, x.logo);
    let a7 = optional_field(8, x.payable_address);
    let a8 = optional_field(9, x.subscription_fee);
    let a9 = optional_field(10, x.signature);
    let a10 = optional_field(11, x.creator_signature);
    let a11 = i32_field(12, x.pricing_model);
    let fn_ = string_field(6, n.acceptable_content_policy@);
    let p = a0 + a1 + a2 + a3 + a4;
    let s = a6 + a7 + a8 + a9 + a10 + a11;
    lemma_concat_associative(p + fx, a6, a7);
    lemma_concat_associative(p + fn_, a6, a7);
    lemma_concat_associative(p + fx, a6 + a7, a8);
    lemma_concat_associative(p + fn_, a6 + a7, a8);
    lemma_concat_associative(p + fx, a6 + a7 + a8, a9);
    lemma_concat_associative(p + fn_, a6 + a7 + a8, a9);
    lemma_concat_associative(p + fx, a6 + a7 + a8 + a9, a10);
    lemma_concat_associative(p + fn_, a6 + a7 + a8 + a9, a10);
    lemma_concat_associative(p + fx, a6 + a7 + a8 + a9 + a10, a11);
    lemma_concat_associative(p + fn_, a6 + a7 + a8 + a9 + a10, a11);
    assert(x.wire() == p + fx + s);
    assert(n.wire() == p + fn_ + s);
    if fn_ == fx {
        lemma_string_field_injective(6, n.acceptable_content_policy@, x.acceptable_content_policy@);
    } else {
        lemma_middle_cancel_contra(p, fn_, fx, s);
    }
}

/// Changing only `logo` changes the encoding.
proof fn lemma_channel_bundle_encoding_carries_fields_logo(x: ChannelBundle, t: Option<MediaItem>)
    requires
        encoded(t) != encoded(x.logo),
    ensures
        (ChannelBundle { logo: t, ..x }).wire() != x.wire(),
{
    let n = (ChannelBundle { logo: t, ..x });
    let a0 = optional_field(1, x.channel_id);
    let a1 = optional_field(2, x.creator_id);
    let a2 = i32_field(3, x.channel_type);
    let a3 = u64_field(4, x.created);
    let a4 = string_field(5, x.description@);
    let a5 = string_field(6, x.acceptable_content_policy@);
    let fx = optional_field(7, x.logo);
    let a7 = optional_field(8, x.payable_address);
    let a8 = optional_field(9, x.subscription_fee);
    let a9 = optional_field(10, x.signature);
    let a10 = optional_field(11, x.creator_signature);
    let a11 = i32_field(12, x.pricing_model);
    let fn_ = optional_field(7, n.logo);
    let p = a0 + a1 + a2 + a3 + a4 + a5;
    let s = a7 + a8 + a9 + a10 + a11;
    lemma_concat_associative(p + fx, a7, a8);
    lemma_concat_associative(p + fn_, a7, a8);
    lemma_concat_associative(p + fx, a7 + a8, a9);
    lemma_concat_associative(p + fn_, a7 + a8, a9);
    lemma_concat_associative(p + fx, a7 + a8 + a9, a10);
    lemma_concat_associative(p + fn_, a7 + a8 + a9, a10);
    lemma_concat_associative(p + fx, a7 + a8 + a9 + a10, a11);
    lemma_concat_associative(p + fn_, a7 + a8 + a9 + a10, a11);
    assert(x.wire() == p + fx + s);
    assert(n.wire() == p + fn_ + s);
    if fn_ == fx {
        lemma_optional_field_injective(7, n.logo, x.logo);
    } else {
        lemma_middle_cancel_contra(p, fn_, fx, s);
    }
}

/// Changing only `payable_address` changes the encoding.
proof fn lemma_channel_bundle_encoding_carries_fields_payable_address(x: ChannelBundle, t: Option<Address>)
    requires
        encoded(t) != encoded(x.payable_address),
    ensures
        (ChannelBundle { payable_address: t, ..x }).wire() != x.wire(),
{
    let n = (ChannelBundle { payable_address: t, ..x });
    let a0 = optional_field(1, x.channel_id);
    let a1 = optional_field(2, x.creator_id);
    let a2 = i32_field(3, x.channel_type);
    let a3 = u64_field(4, x.created);
    let a4 = string_field(5, x.description@);
    let a5 = string_field(6, x.acceptable_content_policy@);
    let a6 = optional_field(7, x.logo);
    let fx = optional_field(8, x.payable_address);
    let a8 = optional_field(9, x.subscription_fee);
    let a9 = optional_field(10, x.signature);
    let a10 = optional_field(11, x.creator_signature);
    let a11 = i32_field(12, x.pricing_model);
    let fn_ = optional_field(8, n.payable_address);
    let p = a0 + a1 + a2 + a3 + a4 + a5 + a6;
    let s = a8 + a9 + a10 + a11;
    lemma_concat_associative(p + fx, a8, a9);
    lemma_concat_associative(p + fn_, a8, a9);
    lemma_concat_associative(p + fx, a8 + a9, a10);
    lemma_concat_associative(p + fn_, a8 + a9, a10);
    lemma_concat_associative(p + fx, a8 + a9 + a10, a11);
    lemma_concat_associative(p + fn_, a8 + a9 + a10, a11);
    assert(x.wire() == p + fx + s);
    assert(n.wire() == p + fn_ + s);
    if fn_ == fx {
        lemma_optional_field_injective(8, n.payable_address, x.payable_address);
    } else {
        lemma_middle_cancel_contra(p, fn_, fx, s);
    }
}

/// Changing only `subscription_fee` changes the encoding.
proof fn lemma_channel_bundle_encoding_carries_fields_subscription_fee(x: ChannelBundle, t: Option<Amount>)
    requires
        encoded(t) != encoded(x.subscription_fee),
    ensures
        (ChannelBundle { subscription_fee: t, ..x }).wire() != x.wire(),
{
    let n = (ChannelBundle { subscription_fee: t, ..x });
    let a0 = optional_field(1, x.channel_id);
    let a1 = optional_field(2, x.creator_id);
    let a2 = i32_field(3, x.channel_type);
    let a3 = u64_field(4, x.created);
    let a4 = string_field(5, x.description@);
    let a5 = string_field(6, x.acceptable_content_policy@);
    let a6 = optional_field(7, x.logo);
    let a7 = optional_field(8, x.payable_address);
    let fx = optional_field(9, x.subscription_fee);
    let a9 = optional_field(10, x.signature);
    let a10 = optional_field(11, x.creator_signature);
    let a11 = i32_field(12, x.pricing_model);
    let fn_ = optional_field(9, n.subscription_fee);
    let p = a0 + a1 + a2 + a3 + a4 + a5 + a6 + a7;
    let s = a9 + a10 + a11;
    lemma_concat_associative(p + fx, a9, a10);
    lemma_concat_associative(p + fn_, a9, a10);
    lemma_concat_associative(p + fx, a9 + a10, a11);
    lemma_concat_associative(p + fn_, a9 + a10, a11);
    assert(x.wire() == p + fx + s);
    assert(n.wire() == p + fn_ + s);
    if fn_ == fx {
        lemma_optional_field_injective(9, n.subscription_fee, x.subscription_fee);
    } else {
        lemma_middle_cancel_contra(p, fn_, fx, s);
    }
}

/// Changing only `signature` changes the encoding.
proof fn lemma_channel_bundle_encoding_carries_fields_signature(x: ChannelBundle, t: Option<Signature>)
    requires
        encoded(t) != encoded(x.signature),
    ensures
        (ChannelBundle { signature: t, ..x }).wire() != x.wire(),
{
    let n = (ChannelBundle { signature: t, ..x });
    let a0 = optional_field(1, x.channel_id);
    let a1 = optional_field(2, x.creator_id);
    let a2 = i32_field(3, x.channel_type);
    let a3 = u64_field(4, x.created);
    let a4 = string_field(5, x.description@);
    let a5 = string_field(6, x.acceptable_content_policy@);
    let a6 = optional_field(7, x.logo);
    let a7 = optional_field(8, x.payable_address);
    let a8 = optional_field(9, x.subscription_fee);
    let fx = optional_field(10, x.signature);
    let a10 = optional_field(11, x.creator_signature);
    let a11 = i32_field(12, x.pricing_model);
    let fn_ = optional_field(10, n.signature);
    let p = a0 + a1 + a2 + a3 + a4 + a5 + a6 + a7 + a8;
    let s = a10 + a11;
    lemma_concat_associative(p + fx, a10, a11);
    lemma_concat_associative(p + fn_, a10, a11);
    assert(x.wire() == p + fx + s);
    assert(n.wire() == p + fn_ + s);
    if fn_ == fx {
        lemma_optional_field_injective(10, n.signature, x.signature);
    } else {
        lemma_middle_cancel_contra(p, fn_, fx, s);
    }
}

/// Changing only `creator_signature` changes the encoding.
proof fn lemma_channel_bundle_encoding_carries_fields_creator_signature(x: ChannelBundle, t: Option<Signature>)
    requires
        encoded(t) != encoded(x.creator_signature),
    ensures
        (ChannelBundle { creator_signature: t, ..x }).wire() != x.wire(),
{
    let n = (ChannelBundle { creator_signature: t, ..x });
    let a0 = optional_field(1, x.channel_id);
    let a1 = optional_field(2, x.creator_id);
    let a2 = i32_field(3, x.channel_type);
    let a3 = u64_field(4, x.created);
    let a4 = string_field(5, x.description@);
    let a5 = string_field(6, x.acceptable_content_policy@);
    let a6 = optional_field(7, x.logo);
    let a7 = optional_field(8, x.payable_address);
    let a8 = optional_field(9, x.subscription_fee);
    let a9 = optional_field(10, x.signature);
    let fx = optional_field(11, x.creator_signature);
    let a11 = i32_field(12, x.pricing_model);
    let fn_ = optional_field(11, n.creator_signature);
    let p = a0 + a1 + a2 + a3 + a4 + a5 + a6 + a7 + a8 + a9;
    let s = a11;
    assert(x.wire() == p + fx + s);
    assert(n.wire() == p + fn_ + s);
    if fn_ == fx {
        lemma_optional_field_injective(11, n.creator_signature, x.creator_signature);
    } else {
        lemma_middle_cancel_contra(p, fn_, fx, s);
    }
}

/// Changing only `pricing_model` changes the encoding.
proof fn lemma_channel_bundle_encoding_carries_fields_pricing_model(x: ChannelBundle, t: i32)
    requires
        t != x.pricing_model,
    ensures
        (ChannelBundle { pricing_model: t, ..x }).wire() != x.wire(),
{
    let n = (ChannelBundle { pricing_model: t, ..x });
    let a0 = optional_field(1, x.channel_id);
    let a1 = optional_field(2, x.creator_id);
    let a2 = i32_field(3, x.channel_type);
    let a3 = u64_field(4, x.created);
    let a4 = string_field(5, x.description@);
    let a5 = string_field(6, x.acceptable_content_policy@);
    let a6 = optional_field(7, x.logo);
    let a7 = optional_field(8, x.payable_address);
    let a8 = optional_field(9, x.subscription_fee);
    let a9 = optional_field(10, x.signature);
    let a10 = optional_field(11, x.creator_signature);
    let fx = i32_field(12, x.pricing_model);
    let fn_ = i32_field(12, n.pricing_model);
    let p = a0 + a1 + a2 + a3 + a4 + a5 + a6 + a7 + a8 + a9 + a10;
    let s = Seq::<u8>::empty();
    assert(p + fx + s =~= p + fx);
    assert(p + fn_ + s =~= p + fn_);
    assert(x.wire() == p + fx + s);
    assert(n.wire() == p + fn_ + s);
    if fn_ == fx {
        lemma_i32_field_injective(12, n.pricing_model, x.pricing_model);
    } else {
        lemma_middle_cancel_contra(p, fn_, fx, s);
    }
}

/// Changing only `content_item` changes the encoding.
proof fn lemma_channel_content_item_encoding_carries_fields_content_item(x: ChannelContentItem, t: Option<ContentItem>)
    requires
        encoded(t) != encoded(x.content_item),
    ensures
        (ChannelContentItem { content_item: t, ..x }).wire() != x.wire(),
{
    let n = (ChannelContentItem { content_item: t, ..x });
    let fx = optional_field(1, x.content_item);
    let a1 = optional_field(2, x.signature);
    let fn_ = optional_field(1, n.content_item);
    let p = Seq::<u8>::empty();
    let s = a1;
    assert(p + fx =~= fx);
    assert(p + fn_ =~= fn_);
    assert(x.wire() == p + fx + s);
    assert(n.wire() == p + fn_ + s);
    if fn_ == fx {
        lemma_optional_field_injective(1, n.content_item, x.content_item);
    } else {
        lemma_middle_cancel_contra(p, fn_, fx, s);
    }
}

/// Changing only `signature` changes the encoding.
proof fn lemma_channel_content_item_encoding_carries_fields_signature(x: ChannelContentItem, t: Option<Signature>)
    requires
        encoded(t) != encoded(x.signature),
    ensures
        (ChannelContentItem { signature: t, ..x }).wire() != x.wire(),
{
    let n = (ChannelContentItem { signature: t, ..x });
    let a0 = optional_field(1, x.content_item);
    let fx = optional_field(2, x.signature);
    let fn_ = optional_field(2, n.signature);
    let p = a0;
    let s = Seq::<u8>::empty();
    assert(p + fx + s =~= p + fx);
    assert(p + fn_ + s =~= p + fn_);
    assert(x.wire() == p + fx + s);
    assert(n.wire() == p + fn_ + s);
    if fn_ == fx {
        lemma_optional_field_injective(2, n.signature, x.signature);
    } else {
        lemma_middle_cancel_contra(p, fn_, fx, s);
    }
}

/// Changing only `user_id` changes the encoding.
proof fn lemma_group_member_bundle_encoding_carries_fields_user_id(x: GroupMemberBundle, t: Option<EntityId>)
    requires
        encoded(t) != encoded(x.user_id),
    ensures
        (GroupMemberBundle { user_id: t, ..x }).wire() != x.wire(),
{
    let n = (GroupMemberBundle { user_id: t, ..x });
    let fx = optional_field(1, x.user_id);
    let a1 = optional_field(2, x.group_id);
    let a2 = optional_field(3, x.signature);
    let fn_ = optional_field(1, n.user_id);
    let p = Seq::<u8>::empty();
    let s = a1 + a2;
    assert(p + fx =~= fx);
    assert(p + fn_ =~= fn_);
    lemma_concat_associative(p + fx, a1, a2);
    lemma_concat_associative(p + fn_, a1, a2);
    assert(x.wire() == p + fx + s);
    assert(n.wire() == p + fn_ + s);
    if fn_ == fx {
        lemma_optional_field_injective(1, n.user_id, x.user_id);
    } else {
        lemma_middle_cancel_contra(p, fn_, fx, s);
    }
}

/// Changing only `group_id` changes the encoding.
proof fn lemma_group_member_bundle_encoding_carries_fields_group_id(x: GroupMemberBundle, t: Option<EntityId>)
    requires
        encoded(t) != encoded(x.group_id),
    ensures
        (GroupMemberBundle { group_id: t, ..x }).wire() != x.wire(),
{
    let n = (GroupMemberBundle { group_id: t, ..x });
    let a0 = optional_field(1, x.user_id);
    let fx = optional_field(2, x.group_id);
    let a2 = optional_field(3, x.signature);
    let fn_ = optional_field(2, n.group_id);
    let p = a0;
    let s = a2;
    assert(x.wire() == p + fx + s);
    assert(n.wire() == p + fn_ + s);
    if fn_ == fx {
        lemma_optional_field_injective(2, n.group_id, x.group_id);
    } else {
        lemma_middle_cancel_contra(p, fn_, fx, s);
    }
}

/// Changing only `signature` changes the encoding.
proof fn lemma_group_member_bundle_encoding_carries_fields_signature(x: GroupMemberBundle, t: Option<Signature>)
    requires
        encoded(t) != encoded(x.signature),
    ensures
        (GroupMemberBundle { signature: t, ..x }).wire() != x.wire(),
{
    let n = (GroupMemberBundle { signature: t, ..x });
    let a0 = optional_field(1, x.user_id);
    let a1 = optional_field(2, x.group_id);
    let fx = optional_field(3, x.signature);
    let fn_ = optional_field(3, n.signature);
    let p = a0 + a1;
    let s = Seq::<u8>::empty();
    assert(p + fx + s =~= p + fx);
    assert(p + fn_ + s =~= p + fn_);
    assert(x.wire() == p + fx + s);
    assert(n.wire() == p + fn_ + s);
    if fn_ == fx {
        lemma_optional_field_injective(3, n.signature, x.signature);
    } else {
        lemma_middle_cancel_contra(p, fn_, fx, s);
    }
}

/// Changing only `created` changes the encoding.
proof fn lemma_group_members_bundle_encoding_carries_fields_created(x: GroupMembersBundle, t: u64)
    requires
        t != x.created,
    ensures
        (GroupMembersBundle { created: t, ..x }).wire() != x.wire(),
{
    let n = (GroupMembersBundle { created: t, ..x });
    let fx = u64_field(1, x.created);
    let a1 = optional_field(2, x.group_id);
    let a2 = optional_field(3, x.creator_id);
    let a3 = repeated_field(4, x.members@);
    let a4 = optional_field(5, x.group_signature);
    let a5 = optional_field(6, x.creator_signature);
    let fn_ = u64_field(1, n.created);
    let p = Seq::<u8>::empty();
    let s = a1 + a2 + a3 + a4 + a5;
    assert(p + fx =~= fx);
    assert(p + fn_ =~= fn_);
    lemma_concat_associative(p + fx, a1, a2);
    lemma_concat_associative(p + fn_, a1, a2);
    lemma_concat_associative(p + fx, a1 + a2, a3);
    lemma_concat_associative(p + fn_, a1 + a2, a3);
    lemma_concat_associative(p + fx, a1 + a2 + a3, a4);
    lemma_concat_associative(p + fn_, a1 + a2 + a3, a4);
    lemma_concat_associative(p + fx, a1 + a2 + a3 + a4, a5);
    lemma_concat_associative(p + fn_, a1 + a2 + a3 + a4, a5);
    assert(x.wire() == p + fx + s);
    assert(n.wire() == p + fn_ + s);
    if fn_ == fx {
        lemma_u64_field_injective(1, n.created, x.created);
    } else {
        lemma_middle_cancel_contra(p, fn_, fx, s);
    }
}

/// Changing only `group_id` changes the encoding.
proof fn lemma_group_members_bundle_encoding_carries_fields_group_id(x: GroupMembersBundle, t: Option<EntityId>)
    requires
        encoded(t) != encoded(x.group_id),
    ensures
        (GroupMembersBundle { group_id: t, ..x }).wire() != x.wire(),
{
    let n = (GroupMembersBundle { group_id: t, ..x });
    let a0 = u64_field(1, x.created);
    let fx = optional_field(2, x.group_id);
    let a2 = optional_field(3, x.creator_id);
    let a3 = repeated_field(4, x.members@);
    let a4 = optional_field(5, x.group_signature);
    let a5 = optional_field(6, x.creator_signature);
    let fn_ = optional_field(2, n.group_id);
    let p = a0;
    let s = a2 + a3 + a4 + a5;
    lemma_concat_associative(p + fx, a2, a3);
    lemma_concat_associative(p + fn_, a2, a3);
    lemma_concat_associative(p + fx, a2 + a3, a4);
    lemma_concat_associative(p + fn_, a2 + a3, a4);
    lemma_concat_associative(p + fx, a2 + a3 + a4, a5);
    lemma_concat_associative(p + fn_, a2 + a3 + a4, a5);
    assert(x.wire() == p + fx + s);
    assert(n.wire() == p + fn_ + s);
    if fn_ == fx {
        lemma_optional_field_injective(2, n.group_id, x.group_id);
    } else {
        lemma_middle_cancel_contra(p, fn_, fx, s);
    }
}

/// Changing only `creator_id` changes the encoding.
proof fn lemma_group_members_bundle_encoding_carries_fields_creator_id(x: GroupMembersBundle, t: Option<EntityId>)
    requires
        encoded(t) != encoded(x.creator_id),
    ensures
        (GroupMembersBundle { creator_id: t, ..x }).wire() != x.wire(),
{
    let n = (GroupMembersBundle { creator_id: t, ..x });
    let a0 = u64_field(1, x.created);
    let a1 = optional_field(2, x.group_id);
    let fx = optional_field(3, x.creator_id);
    let a3 = repeated_field(4, x.members@);
    let a4 = optional_field(5, x.group_signature);
    let a5 = optional_field(6, x.creator_signature);
    let fn_ = optional_field(3, n.creator_id);
    let p = a0 + a1;
    let s = a3 + a4 + a5;
    lemma_concat_associative(p + fx, a3, a4);
    lemma_concat_associative(p + fn_, a3, a4);
    lemma_concat_associative(p + fx, a3 + a4, a5);
    lemma_concat_associative(p + fn_, a3 + a4, a5);
    assert(x.wire() == p + fx + s);
    assert(n.wire() == p + fn_ + s);
    if fn_ == fx {
        lemma_optional_field_injective(3, n.creator_id, x.creator_id);
    } else {
        lemma_middle_cancel_contra(p, fn_, fx, s);
    }
}

/// Changing only `group_signature` changes the encoding.
proof fn lemma_group_members_bundle_encoding_carries_fields_group_signature(x: GroupMembersBundle, t: Option<Signature>)
    requires
        encoded(t) != encoded(x.group_signature),
    ensures
        (GroupMembersBundle { group_signature: t, ..x }).wire() != x.wire(),
{
    let n = (GroupMembersBundle { group_signature: t, ..x });
    let a0 = u64_field(1, x.created);
    let a1 = optional_field(2, x.group_id);
    let a2 = optional_field(3, x.creator_id);
    let a3 = repeated_field(4, x.members@);
    let fx = optional_field(5, x.group_signature);
    let a5 = optional_field(6, x.creator_signature);
    let fn_ = optional_field(5, n.group_signature);
    let p = a0 + a1 + a2 + a3;
    let s = a5;
    assert(x.wire() == p + fx + s);
    assert(n.wire() == p + fn_ + s);
    if fn_ == fx {
        lemma_optional_field_injective(5, n.group_signature, x.group_signature);
    } else {
        lemma_middle_cancel_contra(p, fn_, fx, s);
    }
}

/// Changing only `creator_signature` changes the encoding.
proof fn lemma_group_members_bundle_encoding_carries_fields_creator_signature(x: GroupMembersBundle, t: Option<Signature>)
    requires
        encoded(t) != encoded(x.creator_signature),
    ensures
        (GroupMembersBundle { creator_signature: t, ..x }).wire() != x.wire(),
{
    let n = (GroupMembersBundle { creator_signature: t, ..x });
    let a0 = u64_field(1, x.created);
    let a1 = optional_field(2, x.group_id);
    let a2 = optional_field(3, x.creator_id);
    let a3 = repeated_field(4, x.members@);
    let a4 = optional_field(5, x.group_signature);
    let fx = optional_field(6, x.creator_signature);
    let fn_ = optional_field(6, n.creator_signature);
    let p = a0 + a1 + a2 + a3 + a4;
    let s = Seq::<u8>::empty();
    assert(p + fx + s =~= p + fx);
    assert(p + fn_ + s =~= p + fn_);
    assert(x.wire() == p + fx + s);
    assert(n.wire() == p + fn_ + s);
    if fn_ == fx {
        lemma_optional_field_injective(6, n.creator_signature, x.creator_signature);
    } else {
        lemma_middle_cancel_contra(p, fn_, fx, s);
    }
}

/// Changing only `data` changes the encoding.
proof fn lemma_address_encoding_carries_fields_data(x: Address, t: Vec<u8>)
    requires
        t@ != x.data@,
    ensures
        (Address { data: t, ..x }).wire() != x.wire(),
{
    let n = (Address { data: t, ..x });
    let fx = bytes_field(1, x.data@);
    let fn_ = bytes_field(1, n.data@);
    let p = Seq::<u8>::empty();
    let s = Seq::<u8>::empty();
    assert(p + fx =~= fx);
    assert(p + fn_ =~= fn_);
    assert(p + fx + s =~= p + fx);
    assert(p + fn_ + s =~= p + fn_);
    assert(x.wire() == p + fx + s);
    assert(n.wire() == p + fn_ + s);
    if fn_ == fx {
        lemma_bytes_field_injective(1, n.data@, x.data@);
    } else {
        lemma_middle_cancel_contra(p, fn_, fx, s);
    }
}

/// Changing only `value` changes the encoding.
proof fn lemma_amount_encoding_carries_fields_value(x: Amount, t: u64)
    requires
        t != x.value,
    ensures
        (Amount { value: t, ..x }).wire() != x.wire(),
{
    let n = (Amount { value: t, ..x });
    let fx = u64_field(1, x.value);
    let a1 = i32_field(2, x.coin_type);
    let fn_ = u64_field(1, n.value);
    let p = Seq::<u8>::empty();
    let s = a1;
    assert(p + fx =~= fx);
    assert(p + fn_ =~= fn_);
    assert(x.wire() == p + fx + s);
    assert(n.wire() == p + fn_ + s);
    if fn_ == fx {
        lemma_u64_field_injective(1, n.value, x.value);
    } else {
        lemma_middle_cancel_contra(p, fn_, fx, s);
    }
}

/// Changing only `coin_type` changes the encoding.
proof fn lemma_amount_encoding_carries_fields_coin_type(x: Amount, t: i32)
    requires
        t != x.coin_type,
    ensures
        (Amount { coin_type: t, ..x }).wire() != x.wire(),
{
    let n = (Amount { coin_type: t, ..x });
    let a0 = u64_field(1, x.value);
    let fx = i32_field(2, x.coin_type);
    let fn_ = i32_field(2, n.coin_type);
    let p = a0;
    let s = Seq::<u8>::empty();
    assert(p + fx + s =~= p + fx);
    assert(p + fn_ + s =~= p + fn_);
    assert(x.wire() == p + fx + s);
    assert(n.wire() == p + fn_ + s);
    if fn_ == fx {
        lemma_i32_field_injective(2, n.coin_type, x.coin_type);
    } else {
        lemma_middle_cancel_contra(p, fn_, fx, s);
    }
}

/// Changing only `id` changes the encoding.
proof fn lemma_service_terms_encoding_carries_fields_id(x: ServiceTerms, t: u64)
    requires
        t != x.id,
    ensures
        (ServiceTerms { id: t, ..x }).wire() != x.wire(),
{
    let n = (ServiceTerms { id: t, ..x });
    let fx = u64_field(1, x.id);
    let a1 = u64_field(2, x.created);
    let a2 = u64_field(3, x.valid_until);
    let a3 = i32_field(4, x.pricing_model);
    let a4 = bytes_field(5, x.user_id@);
    let a5 = u32_field(6, x.free_trial_period);
    let a6 = optional_field(7, x.min_balance);
    let a7 = optional_field(8, x.max_balance);
    let a8 = optional_field(9, x.balance);
    let a9 = optional_field(10, x.routing_msg_base_cost);
    let a10 = optional_field(11, x.routing_msg_cost_per_byte);
    let a11 = optional_field(12, x.data_store_per_byte);
    let a12 = optional_field(13, x.registration_fee);
    let a13 = optional_field(14, x.monthly_fixed_fee);
    let a14 = u64_field(15, x.max_user_storage_space);
    let a15 = u64_field(16, x.max_file_size);
    let a16 = optional_field(17, x.payable_account);
    let fn_ = u64_field(1, n.id);
    let p = Seq::<u8>::empty();
    let s = a1 + a2 + a3 + a4 + a5 + a6 + a7 + a8 + a9 + a10 + a11 + a12 + a13 + a14 + a15 + a16;
    assert(p + fx =~= fx);
    assert(p + fn_ =~= fn_);
    lemma_concat_associative(p + fx, a1, a2);
    lemma_concat_associative(p + fn_, a1, a2);
    lemma_concat_associative(p + fx, a1 + a2, a3);
    lemma_concat_associative(p + fn_, a1 + a2, a3);
    lemma_concat_associative(p + fx, a1 + a2 + a3, a4);
    lemma_concat_associative(p + fn_, a1 + a2 + a3, a4);
    lemma_concat_associative(p + fx, a1 + a2 + a3 + a4, a5);
    lemma_concat_associative(p + fn_, a1 + a2 + a3 + a4, a5);
    lemma_concat_associative(p + fx, a1 + a2 + a3 + a4 + a5, a6);
    lemma_concat_associative(p + fn_, a1 + a2 + a3 + a4 + a5, a6);
    lemma_concat_associative(p + fx, a1 + a2 + a3 + a4 + a5 + a6, a7);
    lemma_concat_associative(p + fn_, a1 + a2 + a3 + a4 + a5 + a6, a7);
    lemma_concat_associative(p + fx, a1 + a2 + a3 + a4 + a5 + a6 + a7, a8);
    lemma_concat_associative(p + fn_, a1 + a2 + a3 + a4 + a5 + a6 + a7, a8);
    lemma_concat_associative(p + fx, a1 + a2 + a3 + a4 + a5 + a6 + a7 + a8, a9);
    lemma_concat_associative(p + fn_, a1 + a2 + a3 + a4 + a5 + a6 + a7 + a8, a9);
    lemma_concat_associative(p + fx, a1 + a2 + a3 + a4 + a5 + a6 + a7 + a8 + a9, a10);
    lemma_concat_associative(p + fn_, a1 + a2 + a3 + a4 + a5 + a6 + a7 + a8 + a9, a10);
    lemma_concat_associative(p + fx, a1 + a2 + a3 + a4 + a5 + a6 + a7 + a8 + a9 + a10, a11);
    lemma_concat_associative(p + fn_, a1 + a2 + a3 + a4 + a5 + a6 + a7 + a8 + a9 + a10, a11);
    lemma_concat_associative(p + fx, a1 + a2 + a3 + a4 + a5 + a6 + a7 + a8 + a9 + a10 + a11, a12);
    lemma_concat_associative(p + fn_, a1 + a2 + a3 + a4 + a5 + a6 + a7 + a8 + a9 + a10 + a11, a12);
    lemma_concat_associative(p + fx, a1 + a2 + a3 + a4 + a5 + a6 + a7 + a8 + a9 + a10 + a11 + a12, a13);
    lemma_concat_associative(p + fn_, a1 + a2 + a3 + a4 + a5 + a6 + a7 + a8 + a9 + a10 + a11 + a12, a13);
    lemma_concat_associative(p + fx, a1 + a2 + a3 + a4 + a5 + a6 + a7 + a8 + a9 + a10 + a11 + a12 + a13, a14);
    lemma_concat_associative(p + fn_, a1 + a2 + a3 + a4 + a5 + a6 + a7 + a8 + a9 + a10 + a11 + a12 + a13, a14);
    lemma_concat_associative(p + fx, a1 + a2 + a3 + a4 + a5 + a6 + a7 + a8 + a9 + a10 + a11 + a12 + a13 + a14, a15);
    lemma_concat_associative(p + fn_, a1 + a2 + a3 + a4 + a5 + a6 + a7 + a8 + a9 + a10 + a11 + a12 + a13 + a14, a15);
    lemma_concat_associative(p + fx, a1 + a2 + a3 + a4 + a5 + a6 + a7 + a8 + a9 + a10 + a11 + a12 + a13 + a14 + a15, a16);
    lemma_concat_associative(p + fn_, a1 + a2 + a3 + a4 + a5 + a6 + a7 + a8 + a9 + a10 + a11 + a12 + a13 + a14 + a15, a16);
    assert(x.wire() == p + fx + s);
    assert(n.wire() == p + fn_ + s);
    if fn_ == fx {
        lemma_u64_field_injective(1, n.id, x.id);
    } else {
        lemma_middle_cancel_contra(p, fn_, fx, s);
    }
}

/// Changing only `created` changes the encoding.
proof fn lemma_service_terms_encoding_carries_fields_created(x: ServiceTerms, t: u64)
    requires
        t != x.created,
    ensures
        (ServiceTerms { created: t, ..x }).wire() != x.wire(),
{
    let n = (ServiceTerms { created: t, ..x });
    let a0 = u64_field(1, x.id);
    let fx = u64_field(2, x.created);
    let a2 = u64_field(3, x.valid_until);
    let a3 = i32_field(4, x.pricing_model);
    let a4 = bytes_field(5, x.user_id@);
    let a5 = u32_field(6, x.free_trial_period);
    let a6 = optional_field(7, x.min_balance);
    let a7 = optional_field(8, x.max_balance);
    let a8 = optional_field(9, x.balance);
    let a9 = optional_field(10, x.routing_msg_base_cost);
    let a10 = optional_field(11, x.routing_msg_cost_per_byte);
    let a11 = optional_field(12, x.data_store_per_byte);
    let a12 = optional_field(13, x.registration_fee);
    let a13 = optional_field(14, x.monthly_fixed_fee);
    let a14 = u64_field(15, x.max_user_storage_space);
    let a15 = u64_field(16, x.max_file_size);
    let a16 = optional_field(17, x.payable_account);
    let fn_ = u64_field(2, n.created);
    let p = a0;
    let s = a2 + a3 + a4 + a5 + a6 + a7 + a8 + a9 + a10 + a11 + a12 + a13 + a14 + a15 + a16;
    lemma_concat_associative(p + fx, a2, a3);
    lemma_concat_associative(p + fn_, a2, a3);
    lemma_concat_associative(p + fx, a2 + a3, a4);
    lemma_concat_associative(p + fn_, a2 + a3, a4);
    lemma_concat_associative(p + fx, a2 + a3 + a4, a5);
    lemma_concat_associative(p + fn_, a2 + a3 + a4, a5);
    lemma_concat_associative(p + fx, a2 + a3 + a4 + a5, a6);
    lemma_concat_associative(p + fn_, a2 + a3 + a4 + a5, a6);
    lemma_concat_associative(p + fx, a2 + a3 + a4 + a5 + a6, a7);
    lemma_concat_associative(p + fn_, a2 + a3 + a4 + a5 + a6, a7);
    lemma_concat_associative(p + fx, a2 + a3 + a4 + a5 + a6 + a7, a8);
    lemma_concat_associative(p + fn_, a2 + a3 + a4 + a5 + a6 + a7, a8);
    lemma_concat_associative(p + fx, a2 + a3 + a4 + a5 + a6 + a7 + a8, a9);
    lemma_concat_associative(p + fn_, a2 + a3 + a4 + a5 + a6 + a7 + a8, a9);
    lemma_concat_associative(p + fx, a2 + a3 + a4 + a5 + a6 + a7 + a8 + a9, a10);
    lemma_concat_associative(p + fn_, a2 + a3 + a4 + a5 + a6 + a7 + a8 + a9, a10);
    lemma_concat_associative(p + fx, a2 + a3 + a4 + a5 + a6 + a7 + a8 + a9 + a10, a11);
    lemma_concat_associative(p + fn_, a2 + a3 + a4 + a5 + a6 + a7 + a8 + a9 + a10, a11);
    lemma_concat_associative(p + fx, a2 + a3 + a4 + a5 + a6 + a7 + a8 + a9 + a10 + a11, a12);
    lemma_concat_associative(p + fn_, a2 + a3 + a4 + a5 + a6 + a7 + a8 + a9 + a10 + a11, a12);
    lemma_concat_associative(p + fx, a2 + a3 + a4 + a5 + a6 + a7 + a8 + a9 + a10 + a11 + a12, a13);
    lemma_concat_associative(p + fn_, a2 + a3 + a4 + a5 + a6 + a7 + a8 + a9 + a10 + a11 + a12, a13);
    lemma_concat_associative(p + fx, a2 + a3 + a4 + a5 + a6 + a7 + a8 + a9 + a10 + a11 + a12 + a13, a14);
    lemma_concat_associative(p + fn_, a2 + a3 + a4 + a5 + a6 + a7 + a8 + a9 + a10 + a11 + a12 + a13, a14);
    lemma_concat_associative(p + fx, a2 + a3 + a4 + a5 + a6 + a7 + a8 + a9 + a10 + a11 + a12 + a13 + a14, a15);
    lemma_concat_associative(p + fn_, a2 + a3 + a4 + a5 + a6 + a7 + a8 + a9 + a10 + a11 + a12 + a13 + a14, a15);
    lemma_concat_associative(p + fx, a2 + a3 + a4 + a5 + a6 + a7 + a8 + a9 + a10 + a11 + a12 + a13 + a14 + a15, a16);
    lemma_concat_associative(p + fn_, a2 + a3 + a4 + a5 + a6 + a7 + a8 + a9 + a10 + a11 + a12 + a13 + a14 + a15, a16);
    assert(x.wire() == p + fx + s);
    assert(n.wire() == p + fn_ + s);
    if fn_ == fx {
        lemma_u64_field_injective(2, n.created, x.created);
    } else {
        lemma_middle_cancel_contra(p, fn_, fx, s);
    }
}

/// Changing only `valid_until` changes the encoding.
proof fn lemma_service_terms_encoding_carries_fields_valid_until(x: ServiceTerms, t: u64)
    requires
        t != x.valid_until,
    ensures
        (ServiceTerms { valid_until: t, ..x }).wire() != x.wire(),
{
    let n = (ServiceTerms { valid_until: t, ..x });
    let a0 = u64_field(1, x.id);
    let a1 = u64_field(2, x.created);
    let fx = u64_field(3, x.valid_until);
    let a3 = i32_field(4, x.pricing_model);
    let a4 = bytes_field(5, x.user_id@);
    let a5 = u32_field(6, x.free_trial_period);
    let a6 = optional_field(7, x.min_balance);
    let a7 = optional_field(8, x.max_balance);
    let a8 = optional_field(9, x.balance);
    let a9 = optional_field(10, x.routing_msg_base_cost);
    let a10 = optional_field(11, x.routing_msg_cost_per_byte);
    let a11 = optional_field(12, x.data_store_per_byte);
    let a12 = optional_field(13, x.registration_fee);
    let a13 = optional_field(14, x.monthly_fixed_fee);
    let a14 = u64_field(15, x.max_user_storage_space);
    let a15 = u64_field(16, x.max_file_size);
    let a16 = optional_field(17, x.payable_account);
    let fn_ = u64_field(3, n.valid_until);
    let p = a0 + a1;
    let s = a3 + a4 + a5 + a6 + a7 + a8 + a9 + a10 + a11 + a12 + a13 + a14 + a15 + a16;
    lemma_concat_associative(p + fx, a3, a4);
    lemma_concat_associative(p + fn_, a3, a4);
    lemma_concat_associative(p + fx, a3 + a4, a5);
    lemma_concat_associative(p + fn_, a3 + a4, a5);
    lemma_concat_associative(p + fx, a3 + a4 + a5, a6);
    lemma_concat_associative(p + fn_, a3 + a4 + a5, a6);
    lemma_concat_associative(p + fx, a3 + a4 + a5 + a6, a7);
    lemma_concat_associative(p + fn_, a3 + a4 + a5 + a6, a7);
    lemma_concat_associative(p + fx, a3 + a4 + a5 + a6 + a7, a8);
    lemma_concat_associative(p + fn_, a3 + a4 + a5 + a6 + a7, a8);
    lemma_concat_associative(p + fx, a3 + a4 + a5 + a6 + a7 + a8, a9);
    lemma_concat_associative(p + fn_, a3 + a4 + a5 + a6 + a7 + a8, a9);
    lemma_concat_associative(p + fx, a3 + a4 + a5 + a6 + a7 + a8 + a9, a10);
    lemma_concat_associative(p + fn_, a3 + a4 + a5 + a6 + a7 + a8 + a9, a10);
    lemma_concat_associative(p + fx, a3 + a4 + a5 + a6 + a7 + a8 + a9 + a10, a11);
    lemma_concat_associative(p + fn_, a3 + a4 + a5 + a6 + a7 + a8 + a9 + a10, a11);
    lemma_concat_associative(p + fx, a3 + a4 + a5 + a6 + a7 + a8 + a9 + a10 + a11, a12);
    lemma_concat_associative(p + fn_, a3 + a4 + a5 + a6 + a7 + a8 + a9 + a10 + a11, a12);
    lemma_concat_associative(p + fx, a3 + a4 + a5 + a6 + a7 + a8 + a9 + a10 + a11 + a12, a13);
    lemma_concat_associative(p + fn_, a3 + a4 + a5 + a6 + a7 + a8 + a9 + a10 + a11 + a12, a13);
    lemma_concat_associative(p + fx, a3 + a4 + a5 + a6 + a7 + a8 + a9 + a10 + a11 + a12 + a13, a14);
    lemma_concat_associative(p + fn_, a3 + a4 + a5 + a6 + a7 + a8 + a9 + a10 + a11 + a12 + a13, a14);
    lemma_concat_associative(p + fx, a3 + a4 + a5 + a6 + a7 + a8 + a9 + a10 + a11 + a12 + a13 + a14, a15);
    lemma_concat_associative(p + fn_, a3 + a4 + a5 + a6 + a7 + a8 + a9 + a10 + a11 + a12 + a13 + a14, a15);
    lemma_concat_associative(p + fx, a3 + a4 + a5 + a6 + a7 + a8 + a9 + a10 + a11 + a12 + a13 + a14 + a15, a16);
    lemma_concat_associative(p + fn_, a3 + a4 + a5 + a6 + a7 + a8 + a9 + a10 + a11 + a12 + a13 + a14 + a15, a16);
    assert(x.wire() == p + fx + s);
    assert(n.wire() == p + fn_ + s);
    if fn_ == fx {
        lemma_u64_field_injective(3, n.valid_until, x.valid_until);
    } else {
        lemma_middle_cancel_contra(p, fn_, fx, s);
    }
}

/// Changing only `pricing_model` changes the encoding.
proof fn lemma_service_terms_encoding_carries_fields_pricing_model(x: ServiceTerms, t: i32)
    requires
        t != x.pricing_model,
    ensures
        (ServiceTerms { pricing_model: t, ..x }).wire() != x.wire(),
{
    let n = (ServiceTerms { pricing_model: t, ..x });
    let a0 = u64_field(1, x.id);
    let a1 = u64_field(2, x.created);
    let a2 = u64_field(3, x.valid_until);
    let fx = i32_field(4, x.pricing_model);
    let a4 = bytes_field(5, x.user_id@);
    let a5 = u32_field(6, x.free_trial_period);
    let a6 = optional_field(7, x.min_balance);
    let a7 = optional_field(8, x.max_balance);
    let a8 = optional_field(9, x.balance);
    let a9 = optional_field(10, x.routing_msg_base_cost);
    let a10 = optional_field(11, x.routing_msg_cost_per_byte);
    let a11 = optional_field(12, x.data_store_per_byte);
    let a12 = optional_field(13, x.registration_fee);
    let a13 = optional_field(14, x.monthly_fixed_fee);
    let a14 = u64_field(15, x.max_user_storage_space);
    let a15 = u64_field(16, x.max_file_size);
    let a16 = optional_field(17, x.payable_account);
    let fn_ = i32_field(4, n.pricing_model);
    let p = a0 + a1 + a2;
    let s = a4 + a5 + a6 + a7 + a8 + a9 + a10 + a11 + a12 + a13 + a14 + a15 + a16;
    lemma_concat_associative(p + fx, a4, a5);
    lemma_concat_associative(p + fn_, a4, a5);
    lemma_concat_associative(p + fx, a4 + a5, a6);
    lemma_concat_associative(p + fn_, a4 + a5, a6);
    lemma_concat_associative(p + fx, a4 + a5 + a6, a7);
    lemma_concat_associative(p + fn_, a4 + a5 + a6, a7);
    lemma_concat_associative(p + fx, a4 + a5 + a6 + a7, a8);
    lemma_concat_associative(p + fn_, a4 + a5 + a6 + a7, a8);
    lemma_concat_associative(p + fx, a4 + a5 + a6 + a7 + a8, a9);
    lemma_concat_associative(p + fn_, a4 + a5 + a6 + a7 + a8, a9);
    lemma_concat_associative(p + fx, a4 + a5 + a6 + a7 + a8 + a9, a10);
    lemma_concat_associative(p + fn_, a4 + a5 + a6 + a7 + a8 + a9, a10);
    lemma_concat_associative(p + fx, a4 + a5 + a6 + a7 + a8 + a9 + a10, a11);
    lemma_concat_associative(p + fn_, a4 + a5 + a6 + a7 + a8 + a9 + a10, a11);
    lemma_concat_associative(p + fx, a4 + a5 + a6 + a7 + a8 + a9 + a10 + a11, a12);
    lemma_concat_associative(p + fn_, a4 + a5 + a6 + a7 + a8 + a9 + a10 + a11, a12);
    lemma_concat_associative(p + fx, a4 + a5 + a6 + a7 + a8 + a9 + a10 + a11 + a12, a13);
    lemma_concat_associative(p + fn_, a4 + a5 + a6 + a7 + a8 + a9 + a10 + a11 + a12, a13);
    lemma_concat_associative(p + fx, a4 + a5 + a6 + a7 + a8 + a9 + a10 + a11 + a12 + a13, a14);
    lemma_concat_associative(p + fn_, a4 + a5 + a6 + a7 + a8 + a9 + a10 + a11 + a12 + a13, a14);
    lemma_concat_associative(p + fx, a4 + a5 + a6 + a7 + a8 + a9 + a10 + a11 + a12 + a13 + a14, a15);
    lemma_concat_associative(p + fn_, a4 + a5 + a6 + a7 + a8 + a9 + a10 + a11 + a12 + a13 + a14, a15);
    lemma_concat_associative(p + fx, a4 + a5 + a6 + a7 + a8 + a9 + a10 + a11 + a12 + a13 + a14 + a15, a16);
    lemma_concat_associative(p + fn_, a4 + a5 + a6 + a7 + a8 + a9 + a10 + a11 + a12 + a13 + a14 + a15, a16);
    assert(x.wire() == p + fx + s);
    assert(n.wire() == p + fn_ + s);
    if fn_ == fx {
        lemma_i32_field_injective(4, n.pricing_model, x.pricing_model);
    } else {
        lemma_middle_cancel_contra(p, fn_, fx, s);
    }
}

/// Changing only `user_id` changes the encoding.
proof fn lemma_service_terms_encoding_carries_fields_user_id(x: ServiceTerms, t: Vec<u8>)
    requires
        t@ != x.user_id@,
    ensures
        (ServiceTerms { user_id: t, ..x }).wire() != x.wire(),
{
    let n = (ServiceTerms { user_id: t, ..x });
    let a0 = u64_field(1, x.id);
    let a1 = u64_field(2, x.created);
    let a2 = u64_field(3, x.valid_until);
    let a3 = i32_field(4, x.pricing_model);
    let fx = bytes_field(5, x.user_id@);
    let a5 = u32_field(6, x.free_trial_period);
    let a6 = optional_field(7, x.min_balance);
    let a7 = optional_field(8, x.max_balance);
    let a8 = optional_field(9, x.balance);
    let a9 = optional_field(10, x.routing_msg_base_cost);
    let a10 = optional_field(11, x.routing_msg_cost_per_byte);
    let a11 = optional_field(12, x.data_store_per_byte);
    let a12 = optional_field(13, x.registration_fee);
    let a13 = optional_field(14, x.monthly_fixed_fee);
    let a14 = u64_field(15, x.max_user_storage_space);
    let a15 = u64_field(16, x.max_file_size);
    let a16 = optional_field(17, x.payable_account);
    let fn_ = bytes_field(5, n.user_id@);
    let p = a0 + a1 + a2 + a3;
    let s = a5 + a6 + a7 + a8 + a9 + a10 + a11 + a12 + a13 + a14 + a15 + a16;
    lemma_concat_associative(p + fx, a5, a6);
    lemma_concat_associative(p + fn_, a5, a6);
    lemma_concat_associative(p + fx, a5 + a6, a7);
    lemma_concat_associative(p + fn_, a5 + a6, a7);
    lemma_concat_associative(p + fx, a5 + a6 + a7, a8);
    lemma_concat_associative(p + fn_, a5 + a6 + a7, a8);
    lemma_concat_associative(p + fx, a5 + a6 + a7 + a8, a9);
    lemma_concat_associative(p + fn_, a5 + a6 + a7 + a8, a9);
    lemma_concat_associative(p + fx, a5 + a6 + a7 + a8 + a9, a10);
    lemma_concat_associative(p + fn_, a5 + a6 + a7 + a8 + a9, a10);
    lemma_concat_associative(p + fx, a5 + a6 + a7 + a8 + a9 + a10, a11);
    lemma_concat_associative(p + fn_, a5 + a6 + a7 + a8 + a9 + a10, a11);
    lemma_concat_associative(p + fx, a5 + a6 + a7 + a8 + a9 + a10 + a11, a12);
    lemma_concat_associative(p + fn_, a5 + a6 + a7 + a8 + a9 + a10 + a11, a12);
    lemma_concat_associative(p + fx, a5 + a6 + a7 + a8 + a9 + a10 + a11 + a12, a13);
    lemma_concat_associative(p + fn_, a5 + a6 + a7 + a8 + a9 + a10 + a11 + a12, a13);
    lemma_concat_associative(p + fx, a5 + a6 + a7 + a8 + a9 + a10 + a11 + a12 + a13, a14);
    lemma_concat_associative(p + fn_, a5 + a6 + a7 + a8 + a9 + a10 + a11 + a12 + a13, a14);
    lemma_concat_associative(p + fx, a5 + a6 + a7 + a8 + a9 + a10 + a11 + a12 + a13 + a14, a15);
    lemma_concat_associative(p + fn_, a5 + a6 + a7 + a8 + a9 + a10 + a11 + a12 + a13 + a14, a15);
    lemma_concat_associative(p + fx, a5 + a6 + a7 + a8 + a9 + a10 + a11 + a12 + a13 + a14 + a15, a16);
    lemma_concat_associative(p + fn_, a5 + a6 + a7 + a8 + a9 + a10 + a11 + a12 + a13 + a14 + a15, a16);
    assert(x.wire() == p + fx + s);
    assert(n.wire() == p + fn_ + s);
    if fn_ == fx {
        lemma_bytes_field_injective(5, n.user_id@, x.user_id@);
    } else {
        lemma_middle_cancel_contra(p, fn_, fx, s);
    }
}

/// Changing only `free_trial_period` changes the encoding.
proof fn lemma_service_terms_encoding_carries_fields_free_trial_period(x: ServiceTerms, t: u32)
    requires
        t != x.free_trial_period,
    ensures
        (ServiceTerms { free_trial_period: t, ..x }).wire() != x.wire(),
{
    let n = (ServiceTerms { free_trial_period: t, ..x });
    let a0 = u64_field(1, x.id);
    let a1 = u64_field(2, x.created);
    let a2 = u64_field(3, x.valid_until);
    let a3 = i32_field(4, x.pricing_model);
    let a4 = bytes_field(5, x.user_id@);
    let fx = u32_field(6, x.free_trial_period);
    let a6 = optional_field(7, x.min_balance);
    let a7 = optional_field(8, x.max_balance);
    let a8 = optional_field(9, x.balance);
    let a9 = optional_field(10, x.routing_msg_base_cost);
    let a10 = optional_field(11, x.routing_msg_cost_per_byte);
    let a11 = optional_field(12, x.data_store_per_byte);
    let a12 = optional_field(13, x.registration_fee);
    let a13 = optional_field(14, x.monthly_fixed_fee);
    let a14 = u64_field(15, x.max_user_storage_space);
    let a15 = u64_field(16, x.max_file_size);
    let a16 = optional_field(17, x.payable_account);
    let fn_ = u32_field(6, n.free_trial_period);
    let p = a0 + a1 + a2 + a3 + a4;
    let s = a6 + a7 + a8 + a9 + a10 + a11 + a12 + a13 + a14 + a15 + a16;
    lemma_concat_associative(p + fx, a6, a7);
    lemma_concat_associative(p + fn_, a6, a7);
    lemma_concat_associative(p + fx, a6 + a7, a8);
    lemma_concat_associative(p + fn_, a6 + a7, a8);
    lemma_concat_associative(p + fx, a6 + a7 + a8, a9);
    lemma_concat_associative(p + fn_, a6 + a7 + a8, a9);
    lemma_concat_associative(p + fx, a6 + a7 + a8 + a9, a10);
    lemma_concat_associative(p + fn_, a6 + a7 + a8 + a9, a10);
    lemma_concat_associative(p + fx, a6 + a7 + a8 + a9 + a10, a11);
    lemma_concat_associative(p + fn_, a6 + a7 + a8 + a9 + a10, a11);
    lemma_concat_associative(p + fx, a6 + a7 + a8 + a9 + a10 + a11, a12);
    lemma_concat_associative(p + fn_, a6 + a7 + a8 + a9 + a10 + a11, a12);
    lemma_concat_associative(p + fx, a6 + a7 + a8 + a9 + a10 + a11 + a12, a13);
    lemma_concat_associative(p + fn_, a6 + a7 + a8 + a9 + a10 + a11 + a12, a13);
    lemma_concat_associative(p + fx, a6 + a7 + a8 + a9 + a10 + a11 + a12 + a13, a14);
    lemma_concat_associative(p + fn_, a6 + a7 + a8 + a9 + a10 + a11 + a12 + a13, a14);
    lemma_concat_associative(p + fx, a6 + a7 + a8 + a9 + a10 + a11 + a12 + a13 + a14, a15);
    lemma_concat_associative(p + fn_, a6 + a7 + a8 + a9 + a10 + a11 + a12 + a13 + a14, a15);
    lemma_concat_associative(p + fx, a6 + a7 + a8 + a9 + a10 + a11 + a12 + a13 + a14 + a15, a16);
    lemma_concat_associative(p + fn_, a6 + a7 + a8 + a9 + a10 + a11 + a12 + a13 + a14 + a15, a16);
    assert(x.wire() == p + fx + s);
    assert(n.wire() == p + fn_ + s);
    if fn_ == fx {
        lemma_u32_field_injective(6, n.free_trial_period, x.free_trial_period);
    } else {
        lemma_middle_cancel_contra(p, fn_, fx, s);
    }
}

/// Changing only `min_balance` changes the encoding.
proof fn lemma_service_terms_encoding_carries_fields_min_balance(x: ServiceTerms, t: Option<Amount>)
    requires
        encoded(t) != encoded(x.min_balance),
    ensures
        (ServiceTerms { min_balance: t, ..x }).wire() != x.wire(),
{
    let n = (ServiceTerms { min_balance: t, ..x });
    let a0 = u64_field(1, x.id);
    let a1 = u64_field(2, x.created);
    let a2 = u64_field(3, x.valid_until);
    let a3 = i32_field(4, x.pricing_model);
    let a4 = bytes_field(5, x.user_id@);
    let a5 = u32_field(6, x.free_trial_period);
    let fx = optional_field(7, x.min_balance);
    let a7 = optional_field(8, x.max_balance);
    let a8 = optional_field(9, x.balance);
    let a9 = optional_field(10, x.routing_msg_base_cost);
    let a10 = optional_field(11, x.routing_msg_cost_per_byte);
    let a11 = optional_field(12, x.data_store_per_byte);
    let a12 = optional_field(13, x.registration_fee);
    let a13 = optional_field(14, x.monthly_fixed_fee);
    let a14 = u64_field(15, x.max_user_storage_space);
    let a15 = u64_field(16, x.max_file_size);
    let a16 = optional_field(17, x.payable_account);
    let fn_ = optional_field(7, n.min_balance);
    let p = a0 + a1 + a2 + a3 + a4 + a5;
    let s = a7 + a8 + a9 + a10 + a11 + a12 + a13 + a14 + a15 + a16;
    lemma_concat_associative(p + fx, a7, a8);
    lemma_concat_associative(p + fn_, a7, a8);
    lemma_concat_associative(p + fx, a7 + a8, a9);
    lemma_concat_associative(p + fn_, a7 + a8, a9);
    lemma_concat_associative(p + fx, a7 + a8 + a9, a10);
    lemma_concat_associative(p + fn_, a7 + a8 + a9, a10);
    lemma_concat_associative(p + fx, a7 + a8 + a9 + a10, a11);
    lemma_concat_associative(p + fn_, a7 + a8 + a9 + a10, a11);
    lemma_concat_associative(p + fx, a7 + a8 + a9 + a10 + a11, a12);
    lemma_concat_associative(p + fn_, a7 + a8 + a9 + a10 + a11, a12);
    lemma_concat_associative(p + fx, a7 + a8 + a9 + a10 + a11 + a12, a13);
    lemma_concat_associative(p + fn_, a7 + a8 + a9 + a10 + a11 + a12, a13);
    lemma_concat_associative(p + fx, a7 + a8 + a9 + a10 + a11 + a12 + a13, a14);
    lemma_concat_associative(p + fn_, a7 + a8 + a9 + a10 + a11 + a12 + a13, a14);
    lemma_concat_associative(p + fx, a7 + a8 + a9 + a10 + a11 + a12 + a13 + a14, a15);
    lemma_concat_associative(p + fn_, a7 + a8 + a9 + a10 + a11 + a12 + a13 + a14, a15);
    lemma_concat_associative(p + fx, a7 + a8 + a9 + a10 + a11 + a12 + a13 + a14 + a15, a16);
    lemma_concat_associative(p + fn_, a7 + a8 + a9 + a10 + a11 + a12 + a13 + a14 + a15, a16);
    assert(x.wire() == p + fx + s);
    assert(n.wire() == p + fn_ + s);
    if fn_ == fx {
        lemma_optional_field_injective(7, n.min_balance, x.min_balance);
    } else {
        lemma_middle_cancel_contra(p, fn_, fx, s);
    }
}

/// Changing only `max_balance` changes the encoding.
proof fn lemma_service_terms_encoding_carries_fields_max_balance(x: ServiceTerms, t: Option<Amount>)
    requires
        encoded(t) != encoded(x.max_balance),
    ensures
        (ServiceTerms { max_balance: t, ..x }).wire() != x.wire(),
{
    let n = (ServiceTerms { max_balance: t, ..x });
    let a0 = u64_field(1, x.id);
    let a1 = u64_field(2, x.created);
    let a2 = u64_field(3, x.valid_until);
    let a3 = i32_field(4, x.pricing_model);
    let a4 = bytes_field(5, x.user_id@);
    let a5 = u32_field(6, x.free_trial_period);
    let a6 = optional_field(7, x.min_balance);
    let fx = optional_field(8, x.max_balance);
    let a8 = optional_field(9, x.balance);
    let a9 = optional_field(10, x.routing_msg_base_cost);
    let a10 = optional_field(11, x.routing_msg_cost_per_byte);
    let a11 = optional_field(12, x.data_store_per_byte);
    let a12 = optional_field(13, x.registration_fee);
    let a13 = optional_field(14, x.monthly_fixed_fee);
    let a14 = u64_field(15, x.max_user_storage_space);
    let a15 = u64_field(16, x.max_file_size);
    let a16 = optional_field(17, x.payable_account);
    let fn_ = optional_field(8, n.max_balance);
    let p = a0 + a1 + a2 + a3 + a4 + a5 + a6;
    let s = a8 + a9 + a10 + a11 + a12 + a13 + a14 + a15 + a16;
    lemma_concat_associative(p + fx, a8, a9);
    lemma_concat_associative(p + fn_, a8, a9);
    lemma_concat_associative(p + fx, a8 + a9, a10);
    lemma_concat_associative(p + fn_, a8 + a9, a10);
    lemma_concat_associative(p + fx, a8 + a9 + a10, a11);
    lemma_concat_associative(p + fn_, a8 + a9 + a10, a11);
    lemma_concat_associative(p + fx, a8 + a9 + a10 + a11, a12);
    lemma_concat_associative(p + fn_, a8 + a9 + a10 + a11, a12);
    lemma_concat_associative(p + fx, a8 + a9 + a10 + a11 + a12, a13);
    lemma_concat_associative(p + fn_, a8 + a9 + a10 + a11 + a12, a13);
    lemma_concat_associative(p + fx, a8 + a9 + a10 + a11 + a12 + a13, a14);
    lemma_concat_associative(p + fn_, a8 + a9 + a10 + a11 + a12 + a13, a14);
    lemma_concat_associative(p + fx, a8 + a9 + a10 + a11 + a12 + a13 + a14, a15);
    lemma_concat_associative(p + fn_, a8 + a9 + a10 + a11 + a12 + a13 + a14, a15);
    lemma_concat_associative(p + fx, a8 + a9 + a10 + a11 + a12 + a13 + a14 + a15, a16);
    lemma_concat_associative(p + fn_, a8 + a9 + a10 + a11 + a12 + a13 + a14 + a15, a16);
    assert(x.wire() == p + fx + s);
    assert(n.wire() == p + fn_ + s);
    if fn_ == fx {
        lemma_optional_field_injective(8, n.max_balance, x.max_balance);
    } else {
        lemma_middle_cancel_contra(p, fn_, fx, s);
    }
}

/// Changing only `balance` changes the encoding.
proof fn lemma_service_terms_encoding_carries_fields_balance(x: ServiceTerms, t: Option<Amount>)
    requires
        encoded(t) != encoded(x.balance),
    ensures
        (ServiceTerms { balance: t, ..x }).wire() != x.wire(),
{
    let n = (ServiceTerms { balance: t, ..x });
    let a0 = u64_field(1, x.id);
    let a1 = u64_field(2, x.created);
    let a2 = u64_field(3, x.valid_until);
    let a3 = i32_field(4, x.pricing_model);
    let a4 = bytes_field(5, x.user_id@);
    let a5 = u32_field(6, x.free_trial_period);
    let a6 = optional_field(7, x.min_balance);
    let a7 = optional_field(8, x.max_balance);
    let fx = optional_field(9, x.balance);
    let a9 = optional_field(10, x.routing_msg_base_cost);
    let a10 = optional_field(11, x.routing_msg_cost_per_byte);
    let a11 = optional_field(12, x.data_store_per_byte);
    let a12 = optional_field(13, x.registration_fee);
    let a13 = optional_field(14, x.monthly_fixed_fee);
    let a14 = u64_field(15, x.max_user_storage_space);
    let a15 = u64_field(16, x.max_file_size);
    let a16 = optional_field(17, x.payable_account);
    let fn_ = optional_field(9, n.balance);
    let p = a0 + a1 + a2 + a3 + a4 + a5 + a6 + a7;
    let s = a9 + a10 + a11 + a12 + a13 + a14 + a15 + a16;
    lemma_concat_associative(p + fx, a9, a10);
    lemma_concat_associative(p + fn_, a9, a10);
    lemma_concat_associative(p + fx, a9 + a10, a11);
    lemma_concat_associative(p + fn_, a9 + a10, a11);
    lemma_concat_associative(p + fx, a9 + a10 + a11, a12);
    lemma_concat_associative(p + fn_, a9 + a10 + a11, a12);
    lemma_concat_associative(p + fx, a9 + a10 + a11 + a12, a13);
    lemma_concat_associative(p + fn_, a9 + a10 + a11 + a12, a13);
    lemma_concat_associative(p + fx, a9 + a10 + a11 + a12 + a13, a14);
    lemma_concat_associative(p + fn_, a9 + a10 + a11 + a12 + a13, a14);
    lemma_concat_associative(p + fx, a9 + a10 + a11 + a12 + a13 + a14, a15);
    lemma_concat_associative(p + fn_, a9 + a10 + a11 + a12 + a13 + a14, a15);
    lemma_concat_associative(p + fx, a9 + a10 + a11 + a12 + a13 + a14 + a15, a16);
    lemma_concat_associative(p + fn_, a9 + a10 + a11 + a12 + a13 + a14 + a15, a16);
    assert(x.wire() == p + fx + s);
    assert(n.wire() == p + fn_ + s);
    if fn_ == fx {
        lemma_optional_field_injective(9, n.balance, x.balance);
    } else {
        lemma_middle_cancel_contra(p, fn_, fx, s);
    }
}

/// Changing only `routing_msg_base_cost` changes the encoding.
proof fn lemma_service_terms_encoding_carries_fields_routing_msg_base_cost(x: ServiceTerms, t: Option<Amount>)
    requires
        encoded(t) != encoded(x.routing_msg_base_cost),
    ensures
        (ServiceTerms { routing_msg_base_cost: t, ..x }).wire() != x.wire(),
{
    let n = (ServiceTerms { routing_msg_base_cost: t, ..x });
    let a0 = u64_field(1, x.id);
    let a1 = u64_field(2, x.created);
    let a2 = u64_field(3, x.valid_until);
    let a3 = i32_field(4, x.pricing_model);
    let a4 = bytes_field(5, x.user_id@);
    let a5 = u32_field(6, x.free_trial_period);
    let a6 = optional_field(7, x.min_balance);
    let a7 = optional_field(8, x.max_balance);
    let a8 = optional_field(9, x.balance);
    let fx = optional_field(10, x.routing_msg_base_cost);
    let a10 = optional_field(11, x.routing_msg_cost_per_byte);
    let a11 = optional_field(12, x.data_store_per_byte);
    let a12 = optional_field(13, x.registration_fee);
    let a13 = optional_field(14, x.monthly_fixed_fee);
    let a14 = u64_field(15, x.max_user_storage_space);
    let a15 = u64_field(16, x.max_file_size);
    let a16 = optional_field(17, x.payable_account);
    let fn_ = optional_field(10, n.routing_msg_base_cost);
    let p = a0 + a1 + a2 + a3 + a4 + a5 + a6 + a7 + a8;
    let s = a10 + a11 + a12 + a13 + a14 + a15 + a16;
    lemma_concat_associative(p + fx, a10, a11);
    lemma_concat_associative(p + fn_, a10, a11);
    lemma_concat_associative(p + fx, a10 + a11, a12);
    lemma_concat_associative(p + fn_, a10 + a11, a12);
    lemma_concat_associative(p + fx, a10 + a11 + a12, a13);
    lemma_concat_associative(p + fn_, a10 + a11 + a12, a13);
    lemma_concat_associative(p + fx, a10 + a11 + a12 + a13, a14);
    lemma_concat_associative(p + fn_, a10 + a11 + a12 + a13, a14);
    lemma_concat_associative(p + fx, a10 + a11 + a12 + a13 + a14, a15);
    lemma_concat_associative(p + fn_, a10 + a11 + a12 + a13 + a14, a15);
    lemma_concat_associative(p + fx, a10 + a11 + a12 + a13 + a14 + a15, a16);
    lemma_concat_associative(p + fn_, a10 + a11 + a12 + a13 + a14 + a15, a16);
    assert(x.wire() == p + fx + s);
    assert(n.wire() == p + fn_ + s);
    if fn_ == fx {
        lemma_optional_field_injective(10, n.routing_msg_base_cost, x.routing_msg_base_cost);
    } else {
        lemma_middle_cancel_contra(p, fn_, fx, s);
    }
}

/// Changing only `routing_msg_cost_per_byte` changes the encoding.
proof fn lemma_service_terms_encoding_carries_fields_routing_msg_cost_per_byte(x: ServiceTerms, t: Option<Amount>)
    requires
        encoded(t) != encoded(x.routing_msg_cost_per_byte),
    ensures
        (ServiceTerms { routing_msg_cost_per_byte: t, ..x }).wire() != x.wire(),
{
    let n = (ServiceTerms { routing_msg_cost_per_byte: t, ..x });
    let a0 = u64_field(1, x.id);
    let a1 = u64_field(2, x.created);
    let a2 = u64_field(3, x.valid_until);
    let a3 = i32_field(4, x.pricing_model);
    let a4 = bytes_field(5, x.user_id@);
    let a5 = u32_field(6, x.free_trial_period);
    let a6 = optional_field(7, x.min_balance);
    let a7 = optional_field(8, x.max_balance);
    let a8 = optional_field(9, x.balance);
    let a9 = optional_field(10, x.routing_msg_base_cost);
    let fx = optional_field(11, x.routing_msg_cost_per_byte);
    let a11 = optional_field(12, x.data_store_per_byte);
    let a12 = optional_field(13, x.registration_fee);
    let a13 = optional_field(14, x.monthly_fixed_fee);
    let a14 = u64_field(15, x.max_user_storage_space);
    let a15 = u64_field(16, x.max_file_size);
    let a16 = optional_field(17, x.payable_account);
    let fn_ = optional_field(11, n.routing_msg_cost_per_byte);
    let p = a0 + a1 + a2 + a3 + a4 + a5 + a6 + a7 + a8 + a9;
    let s = a11 + a12 + a13 + a14 + a15 + a16;
    lemma_concat_associative(p + fx, a11, a12);
    lemma_concat_associative(p + fn_, a11, a12);
    lemma_concat_associative(p + fx, a11 + a12, a13);
    lemma_concat_associative(p + fn_, a11 + a12, a13);
    lemma_concat_associative(p + fx, a11 + a12 + a13, a14);
    lemma_concat_associative(p + fn_, a11 + a12 + a13, a14);
    lemma_concat_associative(p + fx, a11 + a12 + a13 + a14, a15);
    lemma_concat_associative(p + fn_, a11 + a12 + a13 + a14, a15);
    lemma_concat_associative(p + fx, a11 + a12 + a13 + a14 + a15, a16);
    lemma_concat_associative(p + fn_, a11 + a12 + a13 + a14 + a15, a16);
    assert(x.wire() == p + fx + s);
    assert(n.wire() == p + fn_ + s);
    if fn_ == fx {
        lemma_optional_field_injective(11, n.routing_msg_cost_per_byte, x.routing_msg_cost_per_byte);
    } else {
        lemma_middle_cancel_contra(p, fn_, fx, s);
    }
}

/// Changing only `data_store_per_byte` changes the encoding.
proof fn lemma_service_terms_encoding_carries_fields_data_store_per_byte(x: ServiceTerms, t: Option<Amount>)
    requires
        encoded(t) != encoded(x.data_store_per_byte),
    ensures
        (ServiceTerms { data_store_per_byte: t, ..x }).wire() != x.wire(),
{
    let n = (ServiceTerms { data_store_per_byte: t, ..x });
    let a0 = u64_field(1, x.id);
    let a1 = u64_field(2, x.created);
    let a2 = u64_field(3, x.valid_until);
    let a3 = i32_field(4, x.pricing_model);
    let a4 = bytes_field(5, x.user_id@);
    let a5 = u32_field(6, x.free_trial_period);
    let a6 = optional_field(7, x.min_balance);
    let a7 = optional_field(8, x.max_balance);
    let a8 = optional_field(9, x.balance);
    let a9 = optional_field(10, x.routing_msg_base_cost);
    let a10 = optional_field(11, x.routing_msg_cost_per_byte);
    let fx = optional_field(12, x.data_store_per_byte);
    let a12 = optional_field(13, x.registration_fee);
    let a13 = optional_field(14, x.monthly_fixed_fee);
    let a14 = u64_field(15, x.max_user_storage_space);
    let a15 = u64_field(16, x.max_file_size);
    let a16 = optional_field(17, x.payable_account);
    let fn_ = optional_field(12, n.data_store_per_byte);
    let p = a0 + a1 + a2 + a3 + a4 + a5 + a6 + a7 + a8 + a9 + a10;
    let s = a12 + a13 + a14 + a15 + a16;
    lemma_concat_associative(p + fx, a12, a13);
    lemma_concat_associative(p + fn_, a12, a13);
    lemma_concat_associative(p + fx, a12 + a13, a14);
    lemma_concat_associative(p + fn_, a12 + a13, a14);
    lemma_concat_associative(p + fx, a12 + a13 + a14, a15);
    lemma_concat_associative(p + fn_, a12 + a13 + a14, a15);
    lemma_concat_associative(p + fx, a12 + a13 + a14 + a15, a16);
    lemma_concat_associative(p + fn_, a12 + a13 + a14 + a15, a16);
    assert(x.wire() == p + fx + s);
    assert(n.wire() == p + fn_ + s);
    if fn_ == fx {
        lemma_optional_field_injective(12, n.data_store_per_byte, x.data_store_per_byte);
    } else {
        lemma_middle_cancel_contra(p, fn_, fx, s);
    }
}

/// Changing only `registration_fee` changes the encoding.
proof fn lemma_service_terms_encoding_carries_fields_registration_fee(x: ServiceTerms, t: Option<Amount>)
    requires
        encoded(t) != encoded(x.registration_fee),
    ensures
        (ServiceTerms { registration_fee: t, ..x }).wire() != x.wire(),
{
    let n = (ServiceTerms { registration_fee: t, ..x });
    let a0 = u64_field(1, x.id);
    let a1 = u64_field(2, x.created);
    let a2 = u64_field(3, x.valid_until);
    let a3 = i32_field(4, x.pricing_model);
    let a4 = bytes_field(5, x.user_id@);
    let a5 = u32_field(6, x.free_trial_period);
    let a6 = optional_field(7, x.min_balance);
    let a7 = optional_field(8, x.max_balance);
    let a8 = optional_field(9, x.balance);
    let a9 = optional_field(10, x.routing_msg_base_cost);
    let a10 = optional_field(11, x.routing_msg_cost_per_byte);
    let a11 = optional_field(12, x.data_store_per_byte);
    let fx = optional_field(13, x.registration_fee);
    let a13 = optional_field(14, x.monthly_fixed_fee);
    let a14 = u64_field(15, x.max_user_storage_space);
    let a15 = u64_field(16, x.max_file_size);
    let a16 = optional_field(17, x.payable_account);
    let fn_ = optional_field(13, n.registration_fee);
    let p = a0 + a1 + a2 + a3 + a4 + a5 + a6 + a7 + a8 + a9 + a10 + a11;
    let s = a13 + a14 + a15 + a16;
    lemma_concat_associative(p + fx, a13, a14);
    lemma_concat_associative(p + fn_, a13, a14);
    lemma_concat_associative(p + fx, a13 + a14, a15);
    lemma_concat_associative(p + fn_, a13 + a14, a15);
    lemma_concat_associative(p + fx, a13 + a14 + a15, a16);
    lemma_concat_associative(p + fn_, a13 + a14 + a15, a16);
    assert(x.wire() == p + fx + s);
    assert(n.wire() == p + fn_ + s);
    if fn_ == fx {
        lemma_optional_field_injective(13, n.registration_fee, x.registration_fee);
    } else {
        lemma_middle_cancel_contra(p, fn_, fx, s);
    }
}

/// Changing only `monthly_fixed_fee` changes the encoding.
proof fn lemma_service_terms_encoding_carries_fields_monthly_fixed_fee(x: ServiceTerms, t: Option<Amount>)
    requires
        encoded(t) != encoded(x.monthly_fixed_fee),
    ensures
        (ServiceTerms { monthly_fixed_fee: t, ..x }).wire() != x.wire(),
{
    let n = (ServiceTerms { monthly_fixed_fee: t, ..x });
    let a0 = u64_field(1, x.id);
    let a1 = u64_field(2, x.created);
    let a2 = u64_field(3, x.valid_until);
    let a3 = i32_field(4, x.pricing_model);
    let a4 = bytes_field(5, x.user_id@);
    let a5 = u32_field(6, x.free_trial_period);
    let a6 = optional_field(7, x.min_balance);
    let a7 = optional_field(8, x.max_balance);
    let a8 = optional_field(9, x.balance);
    let a9 = optional_field(10, x.routing_msg_base_cost);
    let a10 = optional_field(11, x.routing_msg_cost_per_byte);
    let a11 = optional_field(12, x.data_store_per_byte);
    let a12 = optional_field(13, x.registration_fee);
    let fx = optional_field(14, x.monthly_fixed_fee);
    let a14 = u64_field(15, x.max_user_storage_space);
    let a15 = u64_field(16, x.max_file_size);
    let a16 = optional_field(17, x.payable_account);
    let fn_ = optional_field(14, n.monthly_fixed_fee);
    let p = a0 + a1 + a2 + a3 + a4 + a5 + a6 + a7 + a8 + a9 + a10 + a11 + a12;
    let s = a14 + a15 + a16;
    lemma_concat_associative(p + fx, a14, a15);
    lemma_concat_associative(p + fn_, a14, a15);
    lemma_concat_associative(p + fx, a14 + a15, a16);
    lemma_concat_associative(p + fn_, a14 + a15, a16);
    assert(x.wire() == p + fx + s);
    assert(n.wire() == p + fn_ + s);
    if fn_ == fx {
        lemma_optional_field_injective(14, n.monthly_fixed_fee, x.monthly_fixed_fee);
    } else {
        lemma_middle_cancel_contra(p, fn_, fx, s);
    }
}

/// Changing only `max_user_storage_space` changes the encoding.
proof fn lemma_service_terms_encoding_carries_fields_max_user_storage_space(x: ServiceTerms, t: u64)
    requires
        t != x.max_user_storage_space,
    ensures
        (ServiceTerms { max_user_storage_space: t, ..x }).wire() != x.wire(),
{
    let n = (ServiceTerms { max_user_storage_space: t, ..x });
    let a0 = u64_field(1, x.id);
    let a1 = u64_field(2, x.created);
    let a2 = u64_field(3, x.valid_until);
    let a3 = i32_field(4, x.pricing_model);
    let a4 = bytes_field(5, x.user_id@);
    let a5 = u32_field(6, x.free_trial_period);
    let a6 = optional_field(7, x.min_balance);
    let a7 = optional_field(8, x.max_balance);
    let a8 = optional_field(9, x.balance);
    let a9 = optional_field(10, x.routing_msg_base_cost);
    let a10 = optional_field(11, x.routing_msg_cost_per_byte);
    let a11 = optional_field(12, x.data_store_per_byte);
    let a12 = optional_field(13, x.registration_fee);
    let a13 = optional_field(14, x.monthly_fixed_fee);
    let fx = u64_field(15, x.max_user_storage_space);
    let a15 = u64_field(16, x.max_file_size);
    let a16 = optional_field(17, x.payable_account);
    let fn_ = u64_field(15, n.max_user_storage_space);
    let p = a0 + a1 + a2 + a3 + a4 + a5 + a6 + a7 + a8 + a9 + a10 + a11 + a12 + a13;
    let s = a15 + a16;
    lemma_concat_associative(p + fx, a15, a16);
    lemma_concat_associative(p + fn_, a15, a16);
    assert(x.wire() == p + fx + s);
    assert(n.wire() == p + fn_ + s);
    if fn_ == fx {
        lemma_u64_field_injective(15, n.max_user_storage_space, x.max_user_storage_space);
    } else {
        lemma_middle_cancel_contra(p, fn_, fx, s);
    }
}

/// Changing only `max_file_size` changes the encoding.
proof fn lemma_service_terms_encoding_carries_fields_max_file_size(x: ServiceTerms, t: u64)
    requires
        t != x.max_file_size,
    ensures
        (ServiceTerms { max_file_size: t, ..x }).wire() != x.wire(),
{
    let n = (ServiceTerms { max_file_size: t, ..x });
    let a0 = u64_field(1, x.id);
    let a1 = u64_field(2, x.created);
    let a2 = u64_field(3, x.valid_until);
    let a3 = i32_field(4, x.pricing_model);
    let a4 = bytes_field(5, x.user_id@);
    let a5 = u32_field(6, x.free_trial_period);
    let a6 = optional_field(7, x.min_balance);
    let a7 = optional_field(8, x.max_balance);
    let a8 = optional_field(9, x.balance);
    let a9 = optional_field(10, x.routing_msg_base_cost);
    let a10 = optional_field(11, x.routing_msg_cost_per_byte);
    let a11 = optional_field(12, x.data_store_per_byte);
    let a12 = optional_field(13, x.registration_fee);
    let a13 = optional_field(14, x.monthly_fixed_fee);
    let a14 = u64_field(15, x.max_user_storage_space);
    let fx = u64_field(16, x.max_file_size);
    let a16 = optional_field(17, x.payable_account);
    let fn_ = u64_field(16, n.max_file_size);
    let p = a0 + a1 + a2 + a3 + a4 + a5 + a6 + a7 + a8 + a9 + a10 + a11 + a12 + a13 + a14;
    let s = a16;
    assert(x.wire() == p + fx + s);
    assert(n.wire() == p + fn_ + s);
    if fn_ == fx {
        lemma_u64_field_injective(16, n.max_file_size, x.max_file_size);
    } else {
        lemma_middle_cancel_contra(p, fn_, fx, s);
    }
}

/// Changing only `payable_account` changes the encoding.
proof fn lemma_service_terms_encoding_carries_fields_payable_account(x: ServiceTerms, t: Option<Address>)
    requires
        encoded(t) != encoded(x.payable_account),
    ensures
        (ServiceTerms { payable_account: t, ..x }).wire() != x.wire(),
{
    let n = (ServiceTerms { payable_account: t, ..x });
    let a0 = u64_field(1, x.id);
    let a1 = u64_field(2, x.created);
    let a2 = u64_field(3, x.valid_until);
    let a3 = i32_field(4, x.pricing_model);
    let a4 = bytes_field(5, x.user_id@);
    let a5 = u32_field(6, x.free_trial_period);
    let a6 = optional_field(7, x.min_balance);
    let a7 = optional_field(8, x.max_balance);
    let a8 = optional_field(9, x.balance);
    let a9 = optional_field(10, x.routing_msg_base_cost);
    let a10 = optional_field(11, x.routing_msg_cost_per_byte);
    let a11 = optional_field(12, x.data_store_per_byte);
    let a12 = optional_field(13, x.registration_fee);
    let a13 = optional_field(14, x.monthly_fixed_fee);
    let a14 = u64_field(15, x.max_user_storage_space);
    let a15 = u64_field(16, x.max_file_size);
    let fx = optional_field(17, x.payable_account);
    let fn_ = optional_field(17, n.payable_account);
    let p = a0 + a1 + a2 + a3 + a4 + a5 + a6 + a7 + a8 + a9 + a10 + a11 + a12 + a13 + a14 + a15;
    let s = Seq::<u8>::empty();
    assert(p + fx + s =~= p + fx);
    assert(p + fn_ + s =~= p + fn_);
    assert(x.wire() == p + fx + s);
    assert(n.wire() == p + fn_ + s);
    if fn_ == fx {
        lemma_optional_field_injective(17, n.payable_account, x.payable_account);
    } else {
        lemma_middle_cancel_contra(p, fn_, fx, s);
    }
}

/// Changing only `amount` changes the encoding.
proof fn lemma_transaction_fee_encoding_carries_fields_amount(x: TransactionFee, t: Option<Amount>)
    requires
        encoded(t) != encoded(x.amount),
    ensures
        (TransactionFee { amount: t, ..x }).wire() != x.wire(),
{
    let n = (TransactionFee { amount: t, ..x });
    let fx = optional_field(1, x.amount);
    let a1 = bytes_field(2, x.payer_public_key@);
    let fn_ = optional_field(1, n.amount);
    let p = Seq::<u8>::empty();
    let s = a1;
    assert(p + fx =~= fx);
    assert(p + fn_ =~= fn_);
    assert(x.wire() == p + fx + s);
    assert(n.wire() == p + fn_ + s);
    if fn_ == fx {
        lemma_optional_field_injective(1, n.amount, x.amount);
    } else {
        lemma_middle_cancel_contra(p, fn_, fx, s);
    }
}

/// Changing only `payer_public_key` changes the encoding.
proof fn lemma_transaction_fee_encoding_carries_fields_payer_public_key(x: TransactionFee, t: Vec<u8>)
    requires
        t@ != x.payer_public_key@,
    ensures
        (TransactionFee { payer_public_key: t, ..x }).wire() != x.wire(),
{
    let n = (TransactionFee { payer_public_key: t, ..x });
    let a0 = optional_field(1, x.amount);
    let fx = bytes_field(2, x.payer_public_key@);
    let fn_ = bytes_field(2, n.payer_public_key@);
    let p = a0;
    let s = Seq::<u8>::empty();
    assert(p + fx + s =~= p + fx);
    assert(p + fn_ + s =~= p + fn_);
    assert(x.wire() == p + fx + s);
    assert(n.wire() == p + fn_ + s);
    if fn_ == fx {
        lemma_bytes_field_injective(2, n.payer_public_key@, x.payer_public_key@);
    } else {
        lemma_middle_cancel_contra(p, fn_, fx, s);
    }
}

/// Changing only `receiver` changes the encoding.
proof fn lemma_payment_transaction_data_encoding_carries_fields_receiver(x: PaymentTransactionData, t: Option<Address>)
    requires
        encoded(t) != encoded(x.receiver),
    ensures
        (PaymentTransactionData { receiver: t, ..x }).wire() != x.wire(),
{
    let n = (PaymentTransactionData { receiver: t, ..x });
    let fx = optional_field(1, x.receiver);
    let a1 = optional_field(3, x.coins);
    let a2 = u64_field(4, x.id);
    let fn_ = optional_field(1, n.receiver);
    let p = Seq::<u8>::empty();
    let s = a1 + a2;
    assert(p + fx =~= fx);
    assert(p + fn_ =~= fn_);
    lemma_concat_associative(p + fx, a1, a2);
    lemma_concat_associative(p + fn_, a1, a2);
    assert(x.wire() == p + fx + s);
    assert(n.wire() == p + fn_ + s);
    if fn_ == fx {
        lemma_optional_field_injective(1, n.receiver, x.receiver);
    } else {
        lemma_middle_cancel_contra(p, fn_, fx, s);
    }
}

/// Changing only `coins` changes the encoding.
proof fn lemma_payment_transaction_data_encoding_carries_fields_coins(x: PaymentTransactionData, t: Option<Amount>)
    requires
        encoded(t) != encoded(x.coins),
    ensures
        (PaymentTransactionData { coins: t, ..x }).wire() != x.wire(),
{
    let n = (PaymentTransactionData { coins: t, ..x });
    let a0 = optional_field(1, x.receiver);
    let fx = optional_field(3, x.coins);
    let a2 = u64_field(4, x.id);
    let fn_ = optional_field(3, n.coins);
    let p = a0;
    let s = a2;
    assert(x.wire() == p + fx + s);
    assert(n.wire() == p + fn_ + s);
    if fn_ == fx {
        lemma_optional_field_injective(3, n.coins, x.coins);
    } else {
        lemma_middle_cancel_contra(p, fn_, fx, s);
    }
}

/// Changing only `id` changes the encoding.
proof fn lemma_payment_transaction_data_encoding_carries_fields_id(x: PaymentTransactionData, t: u64)
    requires
        t != x.id,
    ensures
        (PaymentTransactionData { id: t, ..x }).wire() != x.wire(),
{
    let n = (PaymentTransactionData { id: t, ..x });
    let a0 = optional_field(1, x.receiver);
    let a1 = optional_field(3, x.coins);
    let fx = u64_field(4, x.id);
    let fn_ = u64_field(4, n.id);
    let p = a0 + a1;
    let s = Seq::<u8>::empty();
    assert(p + fx + s =~= p + fx);
    assert(p + fn_ + s =~= p + fn_);
    assert(x.wire() == p + fx + s);
    assert(n.wire() == p + fn_ + s);
    if fn_ == fx {
        lemma_u64_field_injective(4, n.id, x.id);
    } else {
        lemma_middle_cancel_contra(p, fn_, fx, s);
    }
}

/// Changing only `provider_bundle` changes the encoding.
proof fn lemma_provider_bundle_transaction_data_encoding_carries_fields_provider_bundle(x: ProviderBundleTransactionData, t: Option<ProviderIdentityBundle>)
    requires
        encoded(t) != encoded(x.provider_bundle),
    ensures
        (ProviderBundleTransactionData { provider_bundle: t, ..x }).wire() != x.wire(),
{
    let n = (ProviderBundleTransactionData { provider_bundle: t, ..x });
    let fx = optional_field(1, x.provider_bundle);
    let fn_ = optional_field(1, n.provider_bundle);
    let p = Seq::<u8>::empty();
    let s = Seq::<u8>::empty();
    assert(p + fx =~= fx);
    assert(p + fn_ =~= fn_);
    assert(p + fx + s =~= p + fx);
    assert(p + fn_ + s =~= p + fn_);
    assert(x.wire() == p + fx + s);
    assert(n.wire() == p + fn_ + s);
    if fn_ == fx {
        lemma_optional_field_injective(1, n.provider_bundle, x.provider_bundle);
    } else {
        lemma_middle_cancel_contra(p, fn_, fx, s);
    }
}

/// Changing only `client_bundle` changes the encoding.
proof fn lemma_client_bundle_transaction_data_encoding_carries_fields_client_bundle(x: ClientBundleTransactionData, t: Option<ProviderSignedClientIdentityBundle>)
    requires
        encoded(t) != encoded(x.client_bundle),
    ensures
        (ClientBundleTransactionData { client_bundle: t, ..x }).wire() != x.wire(),
{
    let n = (ClientBundleTransactionData { client_bundle: t, ..x });
    let fx = optional_field(1, x.client_bundle);
    let fn_ = optional_field(1, n.client_bundle);
    let p = Seq::<u8>::empty();
    let s = Seq::<u8>::empty();
    assert(p + fx =~= fx);
    assert(p + fn_ =~= fn_);
    assert(p + fx + s =~= p + fx);
    assert(p + fn_ + s =~= p + fn_);
    assert(x.wire() == p + fx + s);
    assert(n.wire() == p + fn_ + s);
    if fn_ == fx {
        lemma_optional_field_injective(1, n.client_bundle, x.client_bundle);
    } else {
        lemma_middle_cancel_contra(p, fn_, fx, s);
    }
}

/// Changing only `session_id` changes the encoding.
proof fn lemma_dr_session_header_encoding_carries_fields_session_id(x: DrSessionHeader, t: u64)
    requires
        t != x.session_id,
    ensures
        (DrSessionHeader { session_id: t, ..x }).wire() != x.wire(),
{
    let n = (DrSessionHeader { session_id: t, ..x });
    let fx = u64_field(1, x.session_id);
    let a1 = optional_field(2, x.dr_pub_key);
    let a2 = u32_field(3, x.prev_count);
    let a3 = u32_field(4, x.count);
    let fn_ = u64_field(1, n.session_id);
    let p = Seq::<u8>::empty();
    let s = a1 + a2 + a3;
    assert(p + fx =~= fx);
    assert(p + fn_ =~= fn_);
    lemma_concat_associative(p + fx, a1, a2);
    lemma_concat_associative(p + fn_, a1, a2);
    lemma_concat_associative(p + fx, a1 + a2, a3);
    lemma_concat_associative(p + fn_, a1 + a2, a3);
    assert(x.wire() == p + fx + s);
    assert(n.wire() == p + fn_ + s);
    if fn_ == fx {
        lemma_u64_field_injective(1, n.session_id, x.session_id);
    } else {
        lemma_middle_cancel_contra(p, fn_, fx, s);
    }
}

/// Changing only `dr_pub_key` changes the encoding.
proof fn lemma_dr_session_header_encoding_carries_fields_dr_pub_key(x: DrSessionHeader, t: Option<PublicKey>)
    requires
        encoded(t) != encoded(x.dr_pub_key),
    ensures
        (DrSessionHeader { dr_pub_key: t, ..x }).wire() != x.wire(),
{
    let n = (DrSessionHeader { dr_pub_key: t, ..x });
    let a0 = u64_field(1, x.session_id);
    let fx = optional_field(2, x.dr_pub_key);
    let a2 = u32_field(3, x.prev_count);
    let a3 = u32_field(4, x.count);
    let fn_ = optional_field(2, n.dr_pub_key);
    let p = a0;
    let s = a2 + a3;
    lemma_concat_associative(p + fx, a2, a3);
    lemma_concat_associative(p + fn_, a2, a3);
    assert(x.wire() == p + fx + s);
    assert(n.wire() == p + fn_ + s);
    if fn_ == fx {
        lemma_optional_field_injective(2, n.dr_pub_key, x.dr_pub_key);
    } else {
        lemma_middle_cancel_contra(p, fn_, fx, s);
    }
}

/// Changing only `prev_count` changes the encoding.
proof fn lemma_dr_session_header_encoding_carries_fields_prev_count(x: DrSessionHeader, t: u32)
    requires
        t != x.prev_count,
    ensures
        (DrSessionHeader { prev_count: t, ..x }).wire() != x.wire(),
{
    let n = (DrSessionHeader { prev_count: t, ..x });
    let a0 = u64_field(1, x.session_id);
    let a1 = optional_field(2, x.dr_pub_key);
    let fx = u32_field(3, x.prev_count);
    let a3 = u32_field(4, x.count);
    let fn_ = u32_field(3, n.prev_count);
    let p = a0 + a1;
    let s = a3;
    assert(x.wire() == p + fx + s);
    assert(n.wire() == p + fn_ + s);
    if fn_ == fx {
        lemma_u32_field_injective(3, n.prev_count, x.prev_count);
    } else {
        lemma_middle_cancel_contra(p, fn_, fx, s);
    }
}

/// Changing only `count` changes the encoding.
proof fn lemma_dr_session_header_encoding_carries_fields_count(x: DrSessionHeader, t: u32)
    requires
        t != x.count,
    ensures
        (DrSessionHeader { count: t, ..x }).wire() != x.wire(),
{
    let n = (DrSessionHeader { count: t, ..x });
    let a0 = u64_field(1, x.session_id);
    let a1 = optional_field(2, x.dr_pub_key);
    let a2 = u32_field(3, x.prev_count);
    let fx = u32_field(4, x.count);
    let fn_ = u32_field(4, n.count);
    let p = a0 + a1 + a2;
    let s = Seq::<u8>::empty();
    assert(p + fx + s =~= p + fx);
    assert(p + fn_ + s =~= p + fn_);
    assert(x.wire() == p + fx + s);
    assert(n.wire() == p + fn_ + s);
    if fn_ == fx {
        lemma_u32_field_injective(4, n.count, x.count);
    } else {
        lemma_middle_cancel_contra(p, fn_, fx, s);
    }
}

/// Changing only `header` changes the encoding.
proof fn lemma_message_encoding_carries_fields_header(x: Message, t: Option<DrSessionHeader>)
    requires
        encoded(t) != encoded(x.header),
    ensures
        (Message { header: t, ..x }).wire() != x.wire(),
{
    let n = (Message { header: t, ..x });
    let fx = optional_field(1, x.header);
    let a1 = bytes_field(2, x.enc_typed_msg@);
    let fn_ = optional_field(1, n.header);
    let p = Seq::<u8>::empty();
    let s = a1;
    assert(p + fx =~= fx);
    assert(p + fn_ =~= fn_);
    assert(x.wire() == p + fx + s);
    assert(n.wire() == p + fn_ + s);
    if fn_ == fx {
        lemma_optional_field_injective(1, n.header, x.header);
    } else {
        lemma_middle_cancel_contra(p, fn_, fx, s);
    }
}

/// Changing only `enc_typed_msg` changes the encoding.
proof fn lemma_message_encoding_carries_fields_enc_typed_msg(x: Message, t: Vec<u8>)
    requires
        t@ != x.enc_typed_msg@,
    ensures
        (Message { enc_typed_msg: t, ..x }).wire() != x.wire(),
{
    let n = (Message { enc_typed_msg: t, ..x });
    let a0 = optional_field(1, x.header);
    let fx = bytes_field(2, x.enc_typed_msg@);
    let fn_ = bytes_field(2, n.enc_typed_msg@);
    let p = a0;
    let s = Seq::<u8>::empty();
    assert(p + fx + s =~= p + fx);
    assert(p + fn_ + s =~= p + fn_);
    assert(x.wire() == p + fx + s);
    assert(n.wire() == p + fn_ + s);
    if fn_ == fx {
        lemma_bytes_field_injective(2, n.enc_typed_msg@, x.enc_typed_msg@);
    } else {
        lemma_middle_cancel_contra(p, fn_, fx, s);
    }
}

/// Changing only `receiver` changes the encoding.
proof fn lemma_typed_message_encoding_carries_other_fields_receiver(x: TypedMessage, t: Option<EntityId>)
    requires
        encoded(t) != encoded(x.receiver),
    ensures
        (TypedMessage { receiver: t, ..x }).wire() != x.wire(),
{
    let n = (TypedMessage { receiver: t, ..x });
    let a0 = u64_field(1, x.time_stamp);
    let a1 = i32_field(2, x.msg_type);
    let a2 = bytes_field(3, x.message@);
    let fx = optional_field(4, x.receiver);
    let a4 = optional_field(5, x.sender);
    let a5 = optional_field(6, x.signature);
    let fn_ = optional_field(4, n.receiver);
    let p = a0 + a1 + a2;
    let s = a4 + a5;
    lemma_concat_associative(p + fx, a4, a5);
    lemma_concat_associative(p + fn_, a4, a5);
    assert(x.wire() == p + fx + s);
    assert(n.wire() == p + fn_ + s);
    if fn_ == fx {
        lemma_optional_field_injective(4, n.receiver, x.receiver);
    } else {
        lemma_middle_cancel_contra(p, fn_, fx, s);
    }
}

/// Changing only `sender` changes the encoding.
proof fn lemma_typed_message_encoding_carries_other_fields_sender(x: TypedMessage, t: Option<EntityId>)
    requires
        encoded(t) != encoded(x.sender),
    ensures
        (TypedMessage { sender: t, ..x }).wire() != x.wire(),
{
    let n = (TypedMessage { sender: t, ..x });
    let a0 = u64_field(1, x.time_stamp);
    let a1 = i32_field(2, x.msg_type);
    let a2 = bytes_field(3, x.message@);
    let a3 = optional_field(4, x.receiver);
    let fx = optional_field(5, x.sender);
    let a5 = optional_field(6, x.signature);
    let fn_ = optional_field(5, n.sender);
    let p = a0 + a1 + a2 + a3;
    let s = a5;
    assert(x.wire() == p + fx + s);
    assert(n.wire() == p + fn_ + s);
    if fn_ == fx {
        lemma_optional_field_injective(5, n.sender, x.sender);
    } else {
        lemma_middle_cancel_contra(p, fn_, fx, s);
    }
}

/// Changing only `signature` changes the encoding.
proof fn lemma_typed_message_encoding_carries_other_fields_signature(x: TypedMessage, t: Option<Signature>)
    requires
        encoded(t) != encoded(x.signature),
    ensures
        (TypedMessage { signature: t, ..x }).wire() != x.wire(),
{
    let n = (TypedMessage { signature: t, ..x });
    let a0 = u64_field(1, x.time_stamp);
    let a1 = i32_field(2, x.msg_type);
    let a2 = bytes_field(3, x.message@);
    let a3 = optional_field(4, x.receiver);
    let a4 = optional_field(5, x.sender);
    let fx = optional_field(6, x.signature);
    let fn_ = optional_field(6, n.signature);
    let p = a0 + a1 + a2 + a3 + a4;
    let s = Seq::<u8>::empty();
    assert(p + fx + s =~= p + fx);
    assert(p + fn_ + s =~= p + fn_);
    assert(x.wire() == p + fx + s);
    assert(n.wire() == p + fn_ + s);
    if fn_ == fx {
        lemma_optional_field_injective(6, n.signature, x.signature);
    } else {
        lemma_middle_cancel_contra(p, fn_, fx, s);
    }
}

/// Changing only `time_stamp` changes the encoding.
proof fn lemma_new_session_request_encoding_carries_fields_time_stamp(x: NewSessionRequest, t: u64)
    requires
        t != x.time_stamp,
    ensures
        (NewSessionRequest { time_stamp: t, ..x }).wire() != x.wire(),
{
    let n = (NewSessionRequest { time_stamp: t, ..x });
    let fx = u64_field(1, x.time_stamp);
    let a1 = optional_field(2, x.receiver);
    let a2 = optional_field(3, x.sender_ephemeral_key);
    let a3 = u64_field(4, x.receiver_bundle_id);
    let a4 = u64_field(5, x.receiver_one_time_prekey_id);
    let a5 = optional_field(6, x.message);
    let a6 = optional_field(7, x.sender_signature);
    let a7 = u32_field(8, x.net_id);
    let a8 = string_field(9, x.protocol_version@);
    let fn_ = u64_field(1, n.time_stamp);
    let p = Seq::<u8>::empty();
    let s = a1 + a2 + a3 + a4 + a5 + a6 + a7 + a8;
    assert(p + fx =~= fx);
    assert(p + fn_ =~= fn_);
    lemma_concat_associative(p + fx, a1, a2);
    lemma_concat_associative(p + fn_, a1, a2);
    lemma_concat_associative(p + fx, a1 + a2, a3);
    lemma_concat_associative(p + fn_, a1 + a2, a3);
    lemma_concat_associative(p + fx, a1 + a2 + a3, a4);
    lemma_concat_associative(p + fn_, a1 + a2 + a3, a4);
    lemma_concat_associative(p + fx, a1 + a2 + a3 + a4, a5);
    lemma_concat_associative(p + fn_, a1 + a2 + a3 + a4, a5);
    lemma_concat_associative(p + fx, a1 + a2 + a3 + a4 + a5, a6);
    lemma_concat_associative(p + fn_, a1 + a2 + a3 + a4 + a5, a6);
    lemma_concat_associative(p + fx, a1 + a2 + a3 + a4 + a5 + a6, a7);
    lemma_concat_associative(p + fn_, a1 + a2 + a3 + a4 + a5 + a6, a7);
    lemma_concat_associative(p + fx, a1 + a2 + a3 + a4 + a5 + a6 + a7, a8);
    lemma_concat_associative(p + fn_, a1 + a2 + a3 + a4 + a5 + a6 + a7, a8);
    assert(x.wire() == p + fx + s);
    assert(n.wire() == p + fn_ + s);
    if fn_ == fx {
        lemma_u64_field_injective(1, n.time_stamp, x.time_stamp);
    } else {
        lemma_middle_cancel_contra(p, fn_, fx, s);
    }
}

/// Changing only `receiver` changes the encoding.
proof fn lemma_new_session_request_encoding_carries_fields_receiver(x: NewSessionRequest, t: Option<EntityId>)
    requires
        encoded(t) != encoded(x.receiver),
    ensures
        (NewSessionRequest { receiver: t, ..x }).wire() != x.wire(),
{
    let n = (NewSessionRequest { receiver: t, ..x });
    let a0 = u64_field(1, x.time_stamp);
    let fx = optional_field(2, x.receiver);
    let a2 = optional_field(3, x.sender_ephemeral_key);
    let a3 = u64_field(4, x.receiver_bundle_id);
    let a4 = u64_field(5, x.receiver_one_time_prekey_id);
    let a5 = optional_field(6, x.message);
    let a6 = optional_field(7, x.sender_signature);
    let a7 = u32_field(8, x.net_id);
    let a8 = string_field(9, x.protocol_version@);
    let fn_ = optional_field(2, n.receiver);
    let p = a0;
    let s = a2 + a3 + a4 + a5 + a6 + a7 + a8;
    lemma_concat_associative(p + fx, a2, a3);
    lemma_concat_associative(p + fn_, a2, a3);
    lemma_concat_associative(p + fx, a2 + a3, a4);
    lemma_concat_associative(p + fn_, a2 + a3, a4);
    lemma_concat_associative(p + fx, a2 + a3 + a4, a5);
    lemma_concat_associative(p + fn_, a2 + a3 + a4, a5);
    lemma_concat_associative(p + fx, a2 + a3 + a4 + a5, a6);
    lemma_concat_associative(p + fn_, a2 + a3 + a4 + a5, a6);
    lemma_concat_associative(p + fx, a2 + a3 + a4 + a5 + a6, a7);
    lemma_concat_associative(p + fn_, a2 + a3 + a4 + a5 + a6, a7);
    lemma_concat_associative(p + fx, a2 + a3 + a4 + a5 + a6 + a7, a8);
    lemma_concat_associative(p + fn_, a2 + a3 + a4 + a5 + a6 + a7, a8);
    assert(x.wire() == p + fx + s);
    assert(n.wire() == p + fn_ + s);
    if fn_ == fx {
        lemma_optional_field_injective(2, n.receiver, x.receiver);
    } else {
        lemma_middle_cancel_contra(p, fn_, fx, s);
    }
}

/// Changing only `sender_ephemeral_key` changes the encoding.
proof fn lemma_new_session_request_encoding_carries_fields_sender_ephemeral_key(x: NewSessionRequest, t: Option<PublicKey>)
    requires
        encoded(t) != encoded(x.sender_ephemeral_key),
    ensures
        (NewSessionRequest { sender_ephemeral_key: t, ..x }).wire() != x.wire(),
{
    let n = (NewSessionRequest { sender_ephemeral_key: t, ..x });
    let a0 = u64_field(1, x.time_stamp);
    let a1 = optional_field(2, x.receiver);
    let fx = optional_field(3, x.sender_ephemeral_key);
    let a3 = u64_field(4, x.receiver_bundle_id);
    let a4 = u64_field(5, x.receiver_one_time_prekey_id);
    let a5 = optional_field(6, x.message);
    let a6 = optional_field(7, x.sender_signature);
    let a7 = u32_field(8, x.net_id);
    let a8 = string_field(9, x.protocol_version@);
    let fn_ = optional_field(3, n.sender_ephemeral_key);
    let p = a0 + a1;
    let s = a3 + a4 + a5 + a6 + a7 + a8;
    lemma_concat_associative(p + fx, a3, a4);
    lemma_concat_associative(p + fn_, a3, a4);
    lemma_concat_associative(p + fx, a3 + a4, a5);
    lemma_concat_associative(p + fn_, a3 + a4, a5);
    lemma_concat_associative(p + fx, a3 + a4 + a5, a6);
    lemma_concat_associative(p + fn_, a3 + a4 + a5, a6);
    lemma_concat_associative(p + fx, a3 + a4 + a5 + a6, a7);
    lemma_concat_associative(p + fn_, a3 + a4 + a5 + a6, a7);
    lemma_concat_associative(p + fx, a3 + a4 + a5 + a6 + a7, a8);
    lemma_concat_associative(p + fn_, a3 + a4 + a5 + a6 + a7, a8);
    assert(x.wire() == p + fx + s);
    assert(n.wire() == p + fn_ + s);
    if fn_ == fx {
        lemma_optional_field_injective(3, n.sender_ephemeral_key, x.sender_ephemeral_key);
    } else {
        lemma_middle_cancel_contra(p, fn_, fx, s);
    }
}

/// Changing only `receiver_bundle_id` changes the encoding.
proof fn lemma_new_session_request_encoding_carries_fields_receiver_bundle_id(x: NewSessionRequest, t: u64)
    requires
        t != x.receiver_bundle_id,
    ensures
        (NewSessionRequest { receiver_bundle_id: t, ..x }).wire() != x.wire(),
{
    let n = (NewSessionRequest { receiver_bundle_id: t, ..x });
    let a0 = u64_field(1, x.time_stamp);
    let a1 = optional_field(2, x.receiver);
    let a2 = optional_field(3, x.sender_ephemeral_key);
    let fx = u64_field(4, x.receiver_bundle_id);
    let a4 = u64_field(5, x.receiver_one_time_prekey_id);
    let a5 = optional_field(6, x.message);
    let a6 = optional_field(7, x.sender_signature);
    let a7 = u32_field(8, x.net_id);
    let a8 = string_field(9, x.protocol_version@);
    let fn_ = u64_field(4, n.receiver_bundle_id);
    let p = a0 + a1 + a2;
    let s = a4 + a5 + a6 + a7 + a8;
    lemma_concat_associative(p + fx, a4, a5);
    lemma_concat_associative(p + fn_, a4, a5);
    lemma_concat_associative(p + fx, a4 + a5, a6);
    lemma_concat_associative(p + fn_, a4 + a5, a6);
    lemma_concat_associative(p + fx, a4 + a5 + a6, a7);
    lemma_concat_associative(p + fn_, a4 + a5 + a6, a7);
    lemma_concat_associative(p + fx, a4 + a5 + a6 + a7, a8);
    lemma_concat_associative(p + fn_, a4 + a5 + a6 + a7, a8);
    assert(x.wire() == p + fx + s);
    assert(n.wire() == p + fn_ + s);
    if fn_ == fx {
        lemma_u64_field_injective(4, n.receiver_bundle_id, x.receiver_bundle_id);
    } else {
        lemma_middle_cancel_contra(p, fn_, fx, s);
    }
}

/// Changing only `receiver_one_time_prekey_id` changes the encoding.
proof fn lemma_new_session_request_encoding_carries_fields_receiver_one_time_prekey_id(x: NewSessionRequest, t: u64)
    requires
        t != x.receiver_one_time_prekey_id,
    ensures
        (NewSessionRequest { receiver_one_time_prekey_id: t, ..x }).wire() != x.wire(),
{
    let n = (NewSessionRequest { receiver_one_time_prekey_id: t, ..x });
    let a0 = u64_field(1, x.time_stamp);
    let a1 = optional_field(2, x.receiver);
    let a2 = optional_field(3, x.sender_ephemeral_key);
    let a3 = u64_field(4, x.receiver_bundle_id);
    let fx = u64_field(5, x.receiver_one_time_prekey_id);
    let a5 = optional_field(6, x.message);
    let a6 = optional_field(7, x.sender_signature);
    let a7 = u32_field(8, x.net_id);
    let a8 = string_field(9, x.protocol_version@);
    let fn_ = u64_field(5, n.receiver_one_time_prekey_id);
    let p = a0 + a1 + a2 + a3;
    let s = a5 + a6 + a7 + a8;
    lemma_concat_associative(p + fx, a5, a6);
    lemma_concat_associative(p + fn_, a5, a6);
    lemma_concat_associative(p + fx, a5 + a6, a7);
    lemma_concat_associative(p + fn_, a5 + a6, a7);
    lemma_concat_associative(p + fx, a5 + a6 + a7, a8);
    lemma_concat_associative(p + fn_, a5 + a6 + a7, a8);
    assert(x.wire() == p + fx + s);
    assert(n.wire() == p + fn_ + s);
    if fn_ == fx {
        lemma_u64_field_injective(5, n.receiver_one_time_prekey_id, x.receiver_one_time_prekey_id);
    } else {
        lemma_middle_cancel_contra(p, fn_, fx, s);
    }
}

/// Changing only `message` changes the encoding.
proof fn lemma_new_session_request_encoding_carries_fields_message(x: NewSessionRequest, t: Option<Message>)
    requires
        encoded(t) != encoded(x.message),
    ensures
        (NewSessionRequest { message: t, ..x }).wire() != x.wire(),
{
    let n = (NewSessionRequest { message: t, ..x });
    let a0 = u64_field(1, x.time_stamp);
    let a1 = optional_field(2, x.receiver);
    let a2 = optional_field(3, x.sender_ephemeral_key);
    let a3 = u64_field(4, x.receiver_bundle_id);
    let a4 = u64_field(5, x.receiver_one_time_prekey_id);
    let fx = optional_field(6, x.message);
    let a6 = optional_field(7, x.sender_signature);
    let a7 = u32_field(8, x.net_id);
    let a8 = string_field(9, x.protocol_version@);
    let fn_ = optional_field(6, n.message);
    let p = a0 + a1 + a2 + a3 + a4;
    let s = a6 + a7 + a8;
    lemma_concat_associative(p + fx, a6, a7);
    lemma_concat_associative(p + fn_, a6, a7);
    lemma_concat_associative(p + fx, a6 + a7, a8);
    lemma_concat_associative(p + fn_, a6 + a7, a8);
    assert(x.wire() == p + fx + s);
    assert(n.wire() == p + fn_ + s);
    if fn_ == fx {
        lemma_optional_field_injective(6, n.message, x.message);
    } else {
        lemma_middle_cancel_contra(p, fn_, fx, s);
    }
}

/// Changing only `sender_signature` changes the encoding.
proof fn lemma_new_session_request_encoding_carries_fields_sender_signature(x: NewSessionRequest, t: Option<Signature>)
    requires
        encoded(t) != encoded(x.sender_signature),
    ensures
        (NewSessionRequest { sender_signature: t, ..x }).wire() != x.wire(),
{
    let n = (NewSessionRequest { sender_signature: t, ..x });
    let a0 = u64_field(1, x.time_stamp);
    let a1 = optional_field(2, x.receiver);
    let a2 = optional_field(3, x.sender_ephemeral_key);
    let a3 = u64_field(4, x.receiver_bundle_id);
    let a4 = u64_field(5, x.receiver_one_time_prekey_id);
    let a5 = optional_field(6, x.message);
    let fx = optional_field(7, x.sender_signature);
    let a7 = u32_field(8, x.net_id);
    let a8 = string_field(9, x.protocol_version@);
    let fn_ = optional_field(7, n.sender_signature);
    let p = a0 + a1 + a2 + a3 + a4 + a5;
    let s = a7 + a8;
    lemma_concat_associative(p + fx, a7, a8);
    lemma_concat_associative(p + fn_, a7, a8);
    assert(x.wire() == p + fx + s);
    assert(n.wire() == p + fn_ + s);
    if fn_ == fx {
        lemma_optional_field_injective(7, n.sender_signature, x.sender_signature);
    } else {
        lemma_middle_cancel_contra(p, fn_, fx, s);
    }
}

/// Changing only `net_id` changes the encoding.
proof fn lemma_new_session_request_encoding_carries_fields_net_id(x: NewSessionRequest, t: u32)
    requires
        t != x.net_id,
    ensures
        (NewSessionRequest { net_id: t, ..x }).wire() != x.wire(),
{
    let n = (NewSessionRequest { net_id: t, ..x });
    let a0 = u64_field(1, x.time_stamp);
    let a1 = optional_field(2, x.receiver);
    let a2 = optional_field(3, x.sender_ephemeral_key);
    let a3 = u64_field(4, x.receiver_bundle_id);
    let a4 = u64_field(5, x.receiver_one_time_prekey_id);
    let a5 = optional_field(6, x.message);
    let a6 = optional_field(7, x.sender_signature);
    let fx = u32_field(8, x.net_id);
    let a8 = string_field(9, x.protocol_version@);
    let fn_ = u32_field(8, n.net_id);
    let p = a0 + a1 + a2 + a3 + a4 + a5 + a6;
    let s = a8;
    assert(x.wire() == p + fx + s);
    assert(n.wire() == p + fn_ + s);
    if fn_ == fx {
        lemma_u32_field_injective(8, n.net_id, x.net_id);
    } else {
        lemma_middle_cancel_contra(p, fn_, fx, s);
    }
}

/// Changing only `protocol_version` changes the encoding.
proof fn lemma_new_session_request_encoding_carries_fields_protocol_version(x: NewSessionRequest, t: String)
    requires
        t@ != x.protocol_version@,
    ensures
        (NewSessionRequest { protocol_version: t, ..x }).wire() != x.wire(),
{
    let n = (NewSessionRequest { protocol_version: t, ..x });
    let a0 = u64_field(1, x.time_stamp);
    let a1 = optional_field(2, x.receiver);
    let a2 = optional_field(3, x.sender_ephemeral_key);
    let a3 = u64_field(4, x.receiver_bundle_id);
    let a4 = u64_field(5, x.receiver_one_time_prekey_id);
    let a5 = optional_field(6, x.message);
    let a6 = optional_field(7, x.sender_signature);
    let a7 = u32_field(8, x.net_id);
    let fx = string_field(9, x.protocol_version@);
    let fn_ = string_field(9, n.protocol_version@);
    let p = a0 + a1 + a2 + a3 + a4 + a5 + a6 + a7;
    let s = Seq::<u8>::empty();
    assert(p + fx + s =~= p + fx);
    assert(p + fn_ + s =~= p + fn_);
    assert(x.wire() == p + fx + s);
    assert(n.wire() == p + fn_ + s);
    if fn_ == fx {
        lemma_string_field_injective(9, n.protocol_version@, x.protocol_version@);
    } else {
        lemma_middle_cancel_contra(p, fn_, fx, s);
    }
}

} // verus!
