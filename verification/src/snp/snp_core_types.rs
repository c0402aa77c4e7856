//! Basic protocol types: keys, entity ids, signatures, content, identity
//! bundles, dial-up info and channel data.
use crate::encoding::{
    bytes_field, delimited, i32_field, optional_field, put_bytes, put_i32, put_optional,
    put_repeated, put_string, put_u32, put_u64, repeated_field, string_field, u32_field,
    u64_field, ProtoMessage,
};
use crate::model::{opt_view, seq_view};
use crate::snp::snp_payments::{Address, Amount, ServiceTerms, TransactionId};
use vstd::prelude::*;

verus! {

/// A public key, as its bytes.
#[derive(PartialEq, Eq, Debug)]
pub struct PublicKey {
    pub key: Vec<u8>,
}

impl View for PublicKey {
    type V = Seq<u8>;

    open spec fn view(&self) -> Seq<u8> {
        self.key@
    }
}

impl Clone for PublicKey {
    fn clone(&self) -> (r: Self)
        ensures
            r@ == self@,
    {
        let key = self.key.clone();
        assert(key@ =~= self.key@);
        PublicKey { key }
    }
}

impl ProtoMessage for PublicKey {
    open spec fn wire(&self) -> Seq<u8> {
        bytes_field(1, self.key@)
    }

    fn encode_raw(&self, buf: &mut Vec<u8>) {
        put_bytes(1, self.key.as_slice(), buf);
    }
}

/// A private key, as its bytes.
#[derive(PartialEq, Eq, Debug)]
pub struct PrivateKey {
    pub key: Vec<u8>,
}

impl View for PrivateKey {
    type V = Seq<u8>;

    open spec fn view(&self) -> Seq<u8> {
        self.key@
    }
}

impl Clone for PrivateKey {
    fn clone(&self) -> (r: Self)
        ensures
            r@ == self@,
    {
        let key = self.key.clone();
        assert(key@ =~= self.key@);
        PrivateKey { key }
    }
}

/// A private key and its public key.
#[derive(PartialEq, Eq, Debug)]
pub struct KeyPair {
    pub private_key: Option<PrivateKey>,
    pub public_key: Option<PublicKey>,
}

impl View for KeyPair {
    type V = (Option<Seq<u8>>, Option<Seq<u8>>);

    open spec fn view(&self) -> (Option<Seq<u8>>, Option<Seq<u8>>) {
        (opt_view(self.private_key), opt_view(self.public_key))
    }
}

impl Clone for KeyPair {
    fn clone(&self) -> (r: Self)
        ensures
            r@ == self@,
    {
        let private_key = match &self.private_key {
            Some(k) => Some(k.clone()),
            None => None,
        };
        let public_key = match &self.public_key {
            Some(k) => Some(k.clone()),
            None => None,
        };
        KeyPair { private_key, public_key }
    }
}

/// An x2dh pre-key.
#[derive(PartialEq, Eq, Debug)]
pub struct PreKey {
    /// x2dh protocol semantic version
    pub x2dh_version: String,
    pub key: Option<PublicKey>,
    /// the id of the bundle that published this pre-key
    pub key_id: u64,
}

impl View for PreKey {
    type V = (Seq<char>, Option<Seq<u8>>, u64);

    open spec fn view(&self) -> (Seq<char>, Option<Seq<u8>>, u64) {
        (self.x2dh_version@, opt_view(self.key), self.key_id)
    }
}

impl Clone for PreKey {
    fn clone(&self) -> (r: Self)
        ensures
            r@ == self@,
    {
        let key = match &self.key {
            Some(k) => Some(k.clone()),
            None => None,
        };
        PreKey { x2dh_version: self.x2dh_version.clone(), key, key_id: self.key_id }
    }
}

impl ProtoMessage for PreKey {
    open spec fn wire(&self) -> Seq<u8> {
        string_field(1, self.x2dh_version@) + optional_field(2, self.key) + u64_field(
            3,
            self.key_id,
        )
    }

    fn encode_raw(&self, buf: &mut Vec<u8>) {
        let mut out: Vec<u8> = Vec::new();
        put_string(1, &self.x2dh_version, &mut out);
        assert(out@ =~= string_field(1, self.x2dh_version@));
        put_optional(2, &self.key, &mut out);
        put_u64(3, self.key_id, &mut out);
        buf.append(&mut out);
    }
}

#[derive(Clone, PartialEq, Eq, Debug)]
pub struct PreKeypair {
    pub x2dh_version: String,
    pub key_pair: Option<KeyPair>,
    pub key_id: u64,
}

/// A public entity (client, group, channel or provider), identified by its
/// public key.
#[derive(PartialEq, Eq, Debug)]
pub struct EntityId {
    pub public_key: Option<PublicKey>,
    pub nickname: String,
}

impl View for EntityId {
    type V = (Option<Seq<u8>>, Seq<char>);

    open spec fn view(&self) -> (Option<Seq<u8>>, Seq<char>) {
        (opt_view(self.public_key), self.nickname@)
    }
}

impl Clone for EntityId {
    fn clone(&self) -> (r: Self)
        ensures
            r@ == self@,
    {
        let public_key = match &self.public_key {
            Some(k) => Some(k.clone()),
            None => None,
        };
        EntityId { public_key, nickname: self.nickname.clone() }
    }
}

impl ProtoMessage for EntityId {
    open spec fn wire(&self) -> Seq<u8> {
        optional_field(1, self.public_key) + string_field(2, self.nickname@)
    }

    fn encode_raw(&self, buf: &mut Vec<u8>) {
        let mut out: Vec<u8> = Vec::new();
        put_optional(1, &self.public_key, &mut out);
        assert(out@ =~= optional_field(1, self.public_key));
        put_string(2, &self.nickname, &mut out);
        buf.append(&mut out);
    }
}

#[derive(Clone, PartialEq, Eq, Debug)]
pub struct PrivateEntityId {
    pub key_pair: Option<KeyPair>,
    pub nickname: String,
}

/// A signature and the scheme that made it.
#[derive(PartialEq, Eq, Debug)]
pub struct Signature {
    pub scheme_id: u32,
    pub signature: Vec<u8>,
}

impl View for Signature {
    type V = (u32, Seq<u8>);

    open spec fn view(&self) -> (u32, Seq<u8>) {
        (self.scheme_id, self.signature@)
    }
}

impl Clone for Signature {
    fn clone(&self) -> (r: Self)
        ensures
            r@ == self@,
    {
        let signature = self.signature.clone();
        assert(signature@ =~= self.signature@);
        Signature { scheme_id: self.scheme_id, signature }
    }
}

impl ProtoMessage for Signature {
    open spec fn wire(&self) -> Seq<u8> {
        u32_field(1, self.scheme_id) + bytes_field(2, self.signature@)
    }

    fn encode_raw(&self, buf: &mut Vec<u8>) {
        let mut out: Vec<u8> = Vec::new();
        put_u32(1, self.scheme_id, &mut out);
        assert(out@ =~= u32_field(1, self.scheme_id));
        put_bytes(2, self.signature.as_slice(), &mut out);
        buf.append(&mut out);
    }
}

/// A content item: a multi-part message, post or paid item by an author.
#[derive(Clone, PartialEq, Eq, Debug)]
pub struct ContentItem {
    pub id: u64,
    pub channel_id: Vec<u8>,
    pub created: u64,
    pub author: Option<EntityId>,
    pub ttl: u64,
    pub price: u64,
    pub name: String,
    pub media_item: Vec<MediaItem>,
    pub reply_to: u64,
    /// the author's signature on all other fields
    pub signature: Option<Signature>,
}

impl ProtoMessage for ContentItem {
    open spec fn wire(&self) -> Seq<u8> {
        u64_field(1, self.id) + bytes_field(2, self.channel_id@) + u64_field(3, self.created)
            + optional_field(4, self.author) + u64_field(5, self.ttl) + u64_field(6, self.price)
            + string_field(7, self.name@) + repeated_field(8, self.media_item@) + u64_field(
            9,
            self.reply_to,
        ) + optional_field(10, self.signature)
    }

    fn encode_raw(&self, buf: &mut Vec<u8>) {
        self.encode_with_signature(&self.signature, buf);
    }
}

impl ContentItem {
    /// This value with its `signature` replaced.
    pub open spec fn with_signature(self, signature: Option<Signature>) -> Self {
        ContentItem { signature, ..self }
    }

    /// Appends the encoding of this value with its `signature` replaced.
    pub fn encode_with_signature(&self, signature: &Option<Signature>, buf: &mut Vec<u8>)
        ensures
            final(buf)@ == old(buf)@ + self.with_signature(*signature).wire(),
    {
        let mut out: Vec<u8> = Vec::new();
        put_u64(1, self.id, &mut out);
        assert(out@ =~= u64_field(1, self.id));
        put_bytes(2, self.channel_id.as_slice(), &mut out);
        put_u64(3, self.created, &mut out);
        put_optional(4, &self.author, &mut out);
        put_u64(5, self.ttl, &mut out);
        put_u64(6, self.price, &mut out);
        put_string(7, &self.name, &mut out);
        put_repeated(8, &self.media_item, &mut out);
        put_u64(9, self.reply_to, &mut out);
        put_optional(10, signature, &mut out);
        buf.append(&mut out);
    }

    /// The bytes that this value's `signature` signs: its encoding without that field.
    pub fn signed_payload(&self) -> (r: Vec<u8>)
        ensures
            r@ == self.with_signature(None).wire(),
    {
        let none: Option<Signature> = None;
        let mut buf: Vec<u8> = Vec::new();
        self.encode_with_signature(&none, &mut buf);
        assert(buf@ =~= self.with_signature(None).wire());
        buf
    }
}

/// One part of a content item.
#[derive(PartialEq, Eq, Debug)]
pub struct MediaItem {
    pub id: u32,
    pub name: String,
    /// A `MimeType`, as its number.
    pub mime_type: i32,
    /// A `CompressionCodec`, as its number.
    pub compression: i32,
    pub content: Vec<u8>,
}

impl View for MediaItem {
    type V = (u32, Seq<char>, i32, i32, Seq<u8>);

    open spec fn view(&self) -> (u32, Seq<char>, i32, i32, Seq<u8>) {
        (self.id, self.name@, self.mime_type, self.compression, self.content@)
    }
}

impl Clone for MediaItem {
    fn clone(&self) -> (r: Self)
        ensures
            r@ == self@,
    {
        let content = self.content.clone();
        assert(content@ =~= self.content@);
        MediaItem {
            id: self.id,
            name: self.name.clone(),
            mime_type: self.mime_type,
            compression: self.compression,
            content,
        }
    }
}

impl ProtoMessage for MediaItem {
    open spec fn wire(&self) -> Seq<u8> {
        u32_field(1, self.id) + string_field(2, self.name@) + i32_field(3, self.mime_type)
            + i32_field(4, self.compression) + bytes_field(5, self.content@)
    }

    fn encode_raw(&self, buf: &mut Vec<u8>) {
        let mut out: Vec<u8> = Vec::new();
        put_u32(1, self.id, &mut out);
        assert(out@ =~= u32_field(1, self.id));
        put_string(2, &self.name, &mut out);
        put_i32(3, self.mime_type, &mut out);
        put_i32(4, self.compression, &mut out);
        put_bytes(5, self.content.as_slice(), &mut out);
        buf.append(&mut out);
    }
}

/// A provider's signed terms of service.
#[derive(Clone, PartialEq, Eq, Debug)]
pub struct ServiceTermsBundle {
    pub provider_id: Option<EntityId>,
    pub service_terms: Option<ServiceTerms>,
    pub signature: Option<Signature>,
}

impl ProtoMessage for ServiceTermsBundle {
    open spec fn wire(&self) -> Seq<u8> {
        optional_field(1, self.provider_id) + optional_field(2, self.service_terms)
            + optional_field(3, self.signature)
    }

    fn encode_raw(&self, buf: &mut Vec<u8>) {
        self.encode_with_signature(&self.signature, buf);
    }
}

impl ServiceTermsBundle {
    /// This value with its `signature` replaced.
    pub open spec fn with_signature(self, signature: Option<Signature>) -> Self {
        ServiceTermsBundle { signature, ..self }
    }

    /// Appends the encoding of this value with its `signature` replaced.
    pub fn encode_with_signature(&self, signature: &Option<Signature>, buf: &mut Vec<u8>)
        ensures
            final(buf)@ == old(buf)@ + self.with_signature(*signature).wire(),
    {
        let mut out: Vec<u8> = Vec::new();
        put_optional(1, &self.provider_id, &mut out);
        assert(out@ =~= optional_field(1, self.provider_id));
        put_optional(2, &self.service_terms, &mut out);
        put_optional(3, signature, &mut out);
        buf.append(&mut out);
    }

    /// The bytes that this value's `signature` signs: its encoding without that field.
    pub fn signed_payload(&self) -> (r: Vec<u8>)
        ensures
            r@ == self.with_signature(None).wire(),
    {
        let none: Option<Signature> = None;
        let mut buf: Vec<u8> = Vec::new();
        self.encode_with_signature(&none, &mut buf);
        assert(buf@ =~= self.with_signature(None).wire());
        buf
    }
}

/// The pre-keys of an entity.
#[derive(Clone, PartialEq, Eq, Debug)]
pub struct EntityPreKeys {
    pub entity_id: Option<EntityId>,
    pub pre_key: Option<PublicKey>,
    pub one_time_keys: Vec<PublicKey>,
}

/// Media types of media items.
#[derive(Clone, Copy, PartialEq, Eq, Debug)]
pub enum MimeType {
    TextUtf8,
    ImagePng,
    ImageGif,
    ImageJpg,
    VideoMp4,
    AudioAac,
    AudioMp3,
    AudioM4a,
}

/// The number that stands for a mime type on the wire.
pub open spec fn mime_type_code(m: MimeType) -> i32 {
    match m {
        MimeType::TextUtf8 => 0,
        MimeType::ImagePng => 1,
        MimeType::ImageGif => 2,
        MimeType::ImageJpg => 3,
        MimeType::VideoMp4 => 4,
        MimeType::AudioAac => 5,
        MimeType::AudioMp3 => 6,
        MimeType::AudioM4a => 7,
    }
}

impl MimeType {
    /// The number that stands for this mime type on the wire.
    pub fn to_i32(self) -> (r: i32)
        ensures
            r == mime_type_code(self),
    {
        match self {
            MimeType::TextUtf8 => 0,
            MimeType::ImagePng => 1,
            MimeType::ImageGif => 2,
            MimeType::ImageJpg => 3,
            MimeType::VideoMp4 => 4,
            MimeType::AudioAac => 5,
            MimeType::AudioMp3 => 6,
            MimeType::AudioM4a => 7,
        }
    }

    /// The mime type that a number stands for, if any.
    pub fn from_i32(v: i32) -> (r: Option<MimeType>)
        ensures
            r matches Some(m) ==> mime_type_code(m) == v,
            r is None <==> !(0 <= v <= 7),
    {
        match v {
            0 => Some(MimeType::TextUtf8),
            1 => Some(MimeType::ImagePng),
            2 => Some(MimeType::ImageGif),
            3 => Some(MimeType::ImageJpg),
            4 => Some(MimeType::VideoMp4),
            5 => Some(MimeType::AudioAac),
            6 => Some(MimeType::AudioMp3),
            7 => Some(MimeType::AudioM4a),
            _ => None,
        }
    }
}

/// Compression codecs of media items.
#[derive(Clone, Copy, PartialEq, Eq, Debug)]
pub enum CompressionCodec {
    Uncompressed,
    Zlib030,
    Rar010,
}

/// The number that stands for a compression codec on the wire.
pub open spec fn compression_code(c: CompressionCodec) -> i32 {
    match c {
        CompressionCodec::Uncompressed => 0,
        CompressionCodec::Zlib030 => 1,
        CompressionCodec::Rar010 => 2,
    }
}

impl CompressionCodec {
    /// The number that stands for this codec on the wire.
    pub fn to_i32(self) -> (r: i32)
        ensures
            r == compression_code(self),
    {
        match self {
            CompressionCodec::Uncompressed => 0,
            CompressionCodec::Zlib030 => 1,
            CompressionCodec::Rar010 => 2,
        }
    }

    /// The codec that a number stands for, if any.
    pub fn from_i32(v: i32) -> (r: Option<CompressionCodec>)
        ensures
            r matches Some(c) ==> compression_code(c) == v,
            r is None <==> !(0 <= v <= 2),
    {
        match v {
            0 => Some(CompressionCodec::Uncompressed),
            1 => Some(CompressionCodec::Zlib030),
            2 => Some(CompressionCodec::Rar010),
            _ => None,
        }
    }
}

/// A provider's public identity bundle.
#[derive(PartialEq, Eq, Debug)]
pub struct ProviderIdentityBundle {
    pub time_stamp: u64,
    pub provider_id: Option<EntityId>,
    pub address: Option<Address>,
    pub dial_up_info: Vec<DialupInfo>,
    pub pre_key: Option<PreKey>,
    pub one_time_keys: Vec<PreKey>,
    pub profile_image: Option<MediaItem>,
    pub current_bond_id: u64,
    /// the provider's signature on all other fields
    pub provider_signature: Option<Signature>,
    pub net_id: u32,
}

impl View for ProviderIdentityBundle {
    type V = (
        u64,
        Option<(Option<Seq<u8>>, Seq<char>)>,
        Option<Seq<u8>>,
        Seq<(i32, Seq<char>, Seq<char>, u32, u32, Seq<char>)>,
        Option<(Seq<char>, Option<Seq<u8>>, u64)>,
        Seq<(Seq<char>, Option<Seq<u8>>, u64)>,
        Option<(u32, Seq<char>, i32, i32, Seq<u8>)>,
        u64,
        Option<(u32, Seq<u8>)>,
        u32,
    );

    open spec fn view(&self) -> Self::V {
        (
            self.time_stamp,
            opt_view(self.provider_id),
            opt_view(self.address),
            seq_view(self.dial_up_info@),
            opt_view(self.pre_key),
            seq_view(self.one_time_keys@),
            opt_view(self.profile_image),
            self.current_bond_id,
            opt_view(self.provider_signature),
            self.net_id,
        )
    }
}

impl Clone for ProviderIdentityBundle {
    fn clone(&self) -> (r: Self)
        ensures
            r@ == self@,
    {
        let provider_id = match &self.provider_id {
            Some(x) => Some(x.clone()),
            None => None,
        };
        let address = match &self.address {
            Some(x) => Some(x.clone()),
            None => None,
        };
        let dial_up_info = self.dial_up_info.clone();
        assert(seq_view(dial_up_info@) =~= seq_view(self.dial_up_info@));
        let pre_key = match &self.pre_key {
            Some(x) => Some(x.clone()),
            None => None,
        };
        let one_time_keys = self.one_time_keys.clone();
        assert(seq_view(one_time_keys@) =~= seq_view(self.one_time_keys@));
        let profile_image = match &self.profile_image {
            Some(x) => Some(x.clone()),
            None => None,
        };
        let provider_signature = match &self.provider_signature {
            Some(x) => Some(x.clone()),
            None => None,
        };
        ProviderIdentityBundle {
            time_stamp: self.time_stamp,
            provider_id,
            address,
            dial_up_info,
            pre_key,
            one_time_keys,
            profile_image,
            current_bond_id: self.current_bond_id,
            provider_signature,
            net_id: self.net_id,
        }
    }
}

impl ProtoMessage for ProviderIdentityBundle {
    open spec fn wire(&self) -> Seq<u8> {
        u64_field(1, self.time_stamp) + optional_field(2, self.provider_id) + optional_field(
            3,
            self.address,
        ) + repeated_field(4, self.dial_up_info@) + optional_field(5, self.pre_key)
            + repeated_field(6, self.one_time_keys@) + optional_field(7, self.profile_image)
            + u64_field(8, self.current_bond_id) + optional_field(10, self.provider_signature)
            + u32_field(11, self.net_id)
    }

    fn encode_raw(&self, buf: &mut Vec<u8>) {
        self.encode_with_signature(&self.provider_signature, buf);
    }
}

impl ProviderIdentityBundle {
    /// This value with its `provider_signature` replaced.
    pub open spec fn with_provider_signature(self, provider_signature: Option<Signature>) -> Self {
        ProviderIdentityBundle { provider_signature, ..self }
    }

    /// Appends the encoding of this value with its `provider_signature` replaced.
    pub fn encode_with_signature(&self, provider_signature: &Option<Signature>, buf: &mut Vec<u8>)
        ensures
            final(buf)@ == old(buf)@ + self.with_provider_signature(*provider_signature).wire(),
    {
        let mut out: Vec<u8> = Vec::new();
        put_u64(1, self.time_stamp, &mut out);
        assert(out@ =~= u64_field(1, self.time_stamp));
        put_optional(2, &self.provider_id, &mut out);
        put_optional(3, &self.address, &mut out);
        put_repeated(4, &self.dial_up_info, &mut out);
        put_optional(5, &self.pre_key, &mut out);
        put_repeated(6, &self.one_time_keys, &mut out);
        put_optional(7, &self.profile_image, &mut out);
        put_u64(8, self.current_bond_id, &mut out);
        put_optional(10, provider_signature, &mut out);
        put_u32(11, self.net_id, &mut out);
        buf.append(&mut out);
    }

    /// The bytes that this value's `provider_signature` signs: its encoding without that field.
    pub fn signed_payload(&self) -> (r: Vec<u8>)
        ensures
            r@ == self.with_provider_signature(None).wire(),
    {
        let none: Option<Signature> = None;
        let mut buf: Vec<u8> = Vec::new();
        self.encode_with_signature(&none, &mut buf);
        assert(buf@ =~= self.with_provider_signature(None).wire());
        buf
    }
}

/// A provider's identity bundle together with the private keys for its
/// public keys.
#[derive(Clone, PartialEq, Eq, Debug)]
pub struct PrivateProviderIdentityBundle {
    pub public_bundle: Option<ProviderIdentityBundle>,
    pub provider_id_keypair: Option<KeyPair>,
    /// the x25519 pre-key's private key
    pub pre_key: Option<PrivateKey>,
    pub one_time_keys_pairs: Vec<KeyPair>,
}

/// A client's published identity bundle: its id, provider and pre-keys.
#[derive(Clone, PartialEq, Eq, Debug)]
pub struct ClientIdentityBundle {
    pub time_stamp: u64,
    pub client_id: Option<EntityId>,
    pub address: Option<Address>,
    pub provider_bundle: Option<ProviderIdentityBundle>,
    pub pre_key: Option<PreKey>,
    pub one_time_keys: Vec<PreKey>,
    pub profile_image: Option<MediaItem>,
    /// the client's signature on all other fields
    pub signature: Option<Signature>,
    pub net_id: u32,
}

impl ProtoMessage for ClientIdentityBundle {
    open spec fn wire(&self) -> Seq<u8> {
        u64_field(1, self.time_stamp) + optional_field(2, self.client_id) + optional_field(
            3,
            self.address,
        ) + optional_field(4, self.provider_bundle) + optional_field(5, self.pre_key)
            + repeated_field(6, self.one_time_keys@) + optional_field(7, self.profile_image)
            + optional_field(8, self.signature) + u32_field(9, self.net_id)
    }

    fn encode_raw(&self, buf: &mut Vec<u8>) {
        self.encode_with_signature(&self.signature, buf);
    }
}

impl ClientIdentityBundle {
    /// This value with its `signature` replaced.
    pub open spec fn with_signature(self, signature: Option<Signature>) -> Self {
        ClientIdentityBundle { signature, ..self }
    }

    /// Appends the encoding of this value with its `signature` replaced.
    pub fn encode_with_signature(&self, signature: &Option<Signature>, buf: &mut Vec<u8>)
        ensures
            final(buf)@ == old(buf)@ + self.with_signature(*signature).wire(),
    {
        let mut out: Vec<u8> = Vec::new();
        put_u64(1, self.time_stamp, &mut out);
        assert(out@ =~= u64_field(1, self.time_stamp));
        put_optional(2, &self.client_id, &mut out);
        put_optional(3, &self.address, &mut out);
        put_optional(4, &self.provider_bundle, &mut out);
        put_optional(5, &self.pre_key, &mut out);
        put_repeated(6, &self.one_time_keys, &mut out);
        put_optional(7, &self.profile_image, &mut out);
        put_optional(8, signature, &mut out);
        put_u32(9, self.net_id, &mut out);
        buf.append(&mut out);
    }

    /// The bytes that this value's `signature` signs: its encoding without that field.
    pub fn signed_payload(&self) -> (r: Vec<u8>)
        ensures
            r@ == self.with_signature(None).wire(),
    {
        let none: Option<Signature> = None;
        let mut buf: Vec<u8> = Vec::new();
        self.encode_with_signature(&none, &mut buf);
        assert(buf@ =~= self.with_signature(None).wire());
        buf
    }
}

#[derive(Clone, PartialEq, Eq, Debug)]
pub struct ClientServiceData {
    pub service_started: u64,
    pub service_ended: u64,
    pub client_identity_bundle: Option<ClientIdentityBundle>,
}

/// A client bundle published by its provider, with the provider's signature.
#[derive(Clone, PartialEq, Eq, Debug)]
pub struct ProviderSignedClientIdentityBundle {
    pub client_bundle: Option<ClientIdentityBundle>,
    /// the provider's signature on the client bundle
    pub signature: Option<Signature>,
}

impl ProtoMessage for ProviderSignedClientIdentityBundle {
    open spec fn wire(&self) -> Seq<u8> {
        optional_field(1, self.client_bundle) + optional_field(2, self.signature)
    }

    fn encode_raw(&self, buf: &mut Vec<u8>) {
        self.encode_with_signature(&self.signature, buf);
    }
}

impl ProviderSignedClientIdentityBundle {
    /// This value with its `signature` replaced.
    pub open spec fn with_signature(self, signature: Option<Signature>) -> Self {
        ProviderSignedClientIdentityBundle { signature, ..self }
    }

    /// Appends the encoding of this value with its `signature` replaced.
    pub fn encode_with_signature(&self, signature: &Option<Signature>, buf: &mut Vec<u8>)
        ensures
            final(buf)@ == old(buf)@ + self.with_signature(*signature).wire(),
    {
        let mut out: Vec<u8> = Vec::new();
        put_optional(1, &self.client_bundle, &mut out);
        assert(out@ =~= optional_field(1, self.client_bundle));
        put_optional(2, signature, &mut out);
        buf.append(&mut out);
    }

    /// The bytes that this value's `signature` signs: its encoding without that field.
    pub fn signed_payload(&self) -> (r: Vec<u8>)
        ensures
            r@ == self.with_signature(None).wire(),
    {
        let none: Option<Signature> = None;
        let mut buf: Vec<u8> = Vec::new();
        self.encode_with_signature(&none, &mut buf);
        assert(buf@ =~= self.with_signature(None).wire());
        buf
    }
}

/// How to reach a provider's api end point.
#[derive(PartialEq, Eq, Debug)]
pub struct DialupInfo {
    /// An `ApiEndPoint`, as its number.
    pub end_point: i32,
    pub api_version: String,
    pub ip_address: String,
    pub port: u32,
    pub net_id: u32,
    pub name: String,
}

impl View for DialupInfo {
    type V = (i32, Seq<char>, Seq<char>, u32, u32, Seq<char>);

    open spec fn view(&self) -> Self::V {
        (self.end_point, self.api_version@, self.ip_address@, self.port, self.net_id, self.name@)
    }
}

impl Clone for DialupInfo {
    fn clone(&self) -> (r: Self)
        ensures
            r@ == self@,
    {
        DialupInfo {
            end_point: self.end_point,
            api_version: self.api_version.clone(),
            ip_address: self.ip_address.clone(),
            port: self.port,
            net_id: self.net_id,
            name: self.name.clone(),
        }
    }
}

impl ProtoMessage for DialupInfo {
    open spec fn wire(&self) -> Seq<u8> {
        i32_field(1, self.end_point) + string_field(2, self.api_version@) + string_field(
            3,
            self.ip_address@,
        ) + u32_field(4, self.port) + u32_field(5, self.net_id) + string_field(6, self.name@)
    }

    fn encode_raw(&self, buf: &mut Vec<u8>) {
        let mut out: Vec<u8> = Vec::new();
        put_i32(1, self.end_point, &mut out);
        assert(out@ =~= i32_field(1, self.end_point));
        put_string(2, &self.api_version, &mut out);
        put_string(3, &self.ip_address, &mut out);
        put_u32(4, self.port, &mut out);
        put_u32(5, self.net_id, &mut out);
        put_string(6, &self.name, &mut out);
        buf.append(&mut out);
    }
}

/// A provider's id and dial-up info, signed by the provider.
#[derive(Clone, PartialEq, Eq, Debug)]
pub struct ProviderNetInfo {
    pub provider_id: Option<EntityId>,
    pub dial_up_info: Option<DialupInfo>,
    pub signature: Option<Signature>,
}

impl ProtoMessage for ProviderNetInfo {
    open spec fn wire(&self) -> Seq<u8> {
        optional_field(1, self.provider_id) + optional_field(2, self.dial_up_info)
            + optional_field(3, self.signature)
    }

    fn encode_raw(&self, buf: &mut Vec<u8>) {
        self.encode_with_signature(&self.signature, buf);
    }
}

impl ProviderNetInfo {
    /// This value with its `signature` replaced.
    pub open spec fn with_signature(self, signature: Option<Signature>) -> Self {
        ProviderNetInfo { signature, ..self }
    }

    /// Appends the encoding of this value with its `signature` replaced.
    pub fn encode_with_signature(&self, signature: &Option<Signature>, buf: &mut Vec<u8>)
        ensures
            final(buf)@ == old(buf)@ + self.with_signature(*signature).wire(),
    {
        let mut out: Vec<u8> = Vec::new();
        put_optional(1, &self.provider_id, &mut out);
        assert(out@ =~= optional_field(1, self.provider_id));
        put_optional(2, &self.dial_up_info, &mut out);
        put_optional(3, signature, &mut out);
        buf.append(&mut out);
    }

    /// The bytes that this value's `signature` signs: its encoding without that field.
    pub fn signed_payload(&self) -> (r: Vec<u8>)
        ensures
            r@ == self.with_signature(None).wire(),
    {
        let none: Option<Signature> = None;
        let mut buf: Vec<u8> = Vec::new();
        self.encode_with_signature(&none, &mut buf);
        assert(buf@ =~= self.with_signature(None).wire());
        buf
    }
}

/// Kinds of api end points.
#[derive(Clone, Copy, PartialEq, Eq, Debug)]
pub enum ApiEndPoint {
    Unspecified,
    GrpcWeb2,
    GrpcWeb2s,
    JsonHttp,
    JsonHttps,
}

/// The number that stands for an end point kind on the wire.
pub open spec fn api_end_point_code(e: ApiEndPoint) -> i32 {
    match e {
        ApiEndPoint::Unspecified => 0,
        ApiEndPoint::GrpcWeb2 => 1,
        ApiEndPoint::GrpcWeb2s => 2,
        ApiEndPoint::JsonHttp => 3,
        ApiEndPoint::JsonHttps => 4,
    }
}

impl ApiEndPoint {
    /// The number that stands for this end point kind on the wire.
    pub fn to_i32(self) -> (r: i32)
        ensures
            r == api_end_point_code(self),
    {
        match self {
            ApiEndPoint::Unspecified => 0,
            ApiEndPoint::GrpcWeb2 => 1,
            ApiEndPoint::GrpcWeb2s => 2,
            ApiEndPoint::JsonHttp => 3,
            ApiEndPoint::JsonHttps => 4,
        }
    }

    /// The end point kind that a number stands for, if any.
    pub fn from_i32(v: i32) -> (r: Option<ApiEndPoint>)
        ensures
            r matches Some(e) ==> api_end_point_code(e) == v,
            r is None <==> !(0 <= v <= 4),
    {
        match v {
            0 => Some(ApiEndPoint::Unspecified),
            1 => Some(ApiEndPoint::GrpcWeb2),
            2 => Some(ApiEndPoint::GrpcWeb2s),
            3 => Some(ApiEndPoint::JsonHttp),
            4 => Some(ApiEndPoint::JsonHttps),
            _ => None,
        }
    }
}

/// A request to subscribe to a channel or join a group.
#[derive(Clone, PartialEq, Eq, Debug)]
pub struct ChannelSubscriptionRequestData {
    pub time_stamp: u64,
    pub channel_id: Vec<u8>,
    pub user: Option<EntityId>,
    pub message: String,
    pub tx_id: Option<TransactionId>,
    pub membership: Option<GroupMemberBundle>,
}

/// A signed description of a status-updates channel or of a group.
#[derive(Clone, PartialEq, Eq, Debug)]
pub struct ChannelBundle {
    pub channel_id: Option<EntityId>,
    pub creator_id: Option<EntityId>,
    /// A `ChannelType`, as its number.
    pub channel_type: i32,
    pub created: u64,
    pub description: String,
    pub acceptable_content_policy: String,
    pub logo: Option<MediaItem>,
    pub payable_address: Option<Address>,
    pub subscription_fee: Option<Amount>,
    /// the channel id's signature on the fields above
    pub signature: Option<Signature>,
    /// the creator's signature on all other fields
    pub creator_signature: Option<Signature>,
    /// A `PricingModel`, as its number.
    pub pricing_model: i32,
}

impl ProtoMessage for ChannelBundle {
    open spec fn wire(&self) -> Seq<u8> {
        optional_field(1, self.channel_id) + optional_field(2, self.creator_id) + i32_field(
            3,
            self.channel_type,
        ) + u64_field(4, self.created) + string_field(5, self.description@) + string_field(
            6,
            self.acceptable_content_policy@,
        ) + optional_field(7, self.logo) + optional_field(8, self.payable_address)
            + optional_field(9, self.subscription_fee) + optional_field(10, self.signature)
            + optional_field(11, self.creator_signature) + i32_field(12, self.pricing_model)
    }

    fn encode_raw(&self, buf: &mut Vec<u8>) {
        let mut out: Vec<u8> = Vec::new();
        put_optional(1, &self.channel_id, &mut out);
        assert(out@ =~= optional_field(1, self.channel_id));
        put_optional(2, &self.creator_id, &mut out);
        put_i32(3, self.channel_type, &mut out);
        put_u64(4, self.created, &mut out);
        put_string(5, &self.description, &mut out);
        put_string(6, &self.acceptable_content_policy, &mut out);
        put_optional(7, &self.logo, &mut out);
        put_optional(8, &self.payable_address, &mut out);
        put_optional(9, &self.subscription_fee, &mut out);
        put_optional(10, &self.signature, &mut out);
        put_optional(11, &self.creator_signature, &mut out);
        put_i32(12, self.pricing_model, &mut out);
        buf.append(&mut out);
    }
}

/// A channel's mutable state, kept by its creator.
#[derive(Clone, PartialEq, Eq, Debug)]
pub struct ChannelData {
    pub bundle: Option<ChannelBundle>,
    pub discoverable: bool,
    pub last_updated: u64,
    pub blocked_repliers: Vec<EntityId>,
    pub content_items: Vec<ContentItem>,
    pub sub_requests: Vec<ChannelSubscriptionRequestData>,
    pub subscribers: Vec<ChannelSubscriber>,
    pub group_members: Option<GroupMembersBundle>,
    /// the channel id's key pair, so the creator can sign as the channel
    pub channel_key_pair: Vec<u8>,
}

/// Channel data kept by a subscriber.
#[derive(Clone, PartialEq, Eq, Debug)]
pub struct ChannelClientData {
    pub content_items: Vec<ChannelContentItem>,
}

/// A channel's subscriber.
#[derive(PartialEq, Eq, Debug)]
pub struct ChannelSubscriber {
    pub user_id: Option<EntityId>,
    pub date_subscribed: u64,
    pub time_next_payment_due: u64,
}

impl View for ChannelSubscriber {
    type V = (Option<(Option<Seq<u8>>, Seq<char>)>, u64, u64);

    open spec fn view(&self) -> Self::V {
        (opt_view(self.user_id), self.date_subscribed, self.time_next_payment_due)
    }
}

impl Clone for ChannelSubscriber {
    fn clone(&self) -> (r: Self)
        ensures
            r@ == self@,
    {
        let user_id = match &self.user_id {
            Some(x) => Some(x.clone()),
            None => None,
        };
        ChannelSubscriber {
            user_id,
            date_subscribed: self.date_subscribed,
            time_next_payment_due: self.time_next_payment_due,
        }
    }
}

/// A content item signed by the channel's creator.
#[derive(Clone, PartialEq, Eq, Debug)]
pub struct ChannelContentItem {
    pub content_item: Option<ContentItem>,
    /// the channel creator's signature
    pub signature: Option<Signature>,
}

impl ProtoMessage for ChannelContentItem {
    open spec fn wire(&self) -> Seq<u8> {
        optional_field(1, self.content_item) + optional_field(2, self.signature)
    }

    fn encode_raw(&self, buf: &mut Vec<u8>) {
        self.encode_with_signature(&self.signature, buf);
    }
}

impl ChannelContentItem {
    /// This value with its `signature` replaced.
    pub open spec fn with_signature(self, signature: Option<Signature>) -> Self {
        ChannelContentItem { signature, ..self }
    }

    /// Appends the encoding of this value with its `signature` replaced.
    pub fn encode_with_signature(&self, signature: &Option<Signature>, buf: &mut Vec<u8>)
        ensures
            final(buf)@ == old(buf)@ + self.with_signature(*signature).wire(),
    {
        let mut out: Vec<u8> = Vec::new();
        put_optional(1, &self.content_item, &mut out);
        assert(out@ =~= optional_field(1, self.content_item));
        put_optional(2, signature, &mut out);
        buf.append(&mut out);
    }

    /// The bytes that this value's `signature` signs: its encoding without that field.
    pub fn signed_payload(&self) -> (r: Vec<u8>)
        ensures
            r@ == self.with_signature(None).wire(),
    {
        let none: Option<Signature> = None;
        let mut buf: Vec<u8> = Vec::new();
        self.encode_with_signature(&none, &mut buf);
        assert(buf@ =~= self.with_signature(None).wire());
        buf
    }
}

/// A group member's bundle, signed by the member.
#[derive(PartialEq, Eq, Debug)]
pub struct GroupMemberBundle {
    pub user_id: Option<EntityId>,
    pub group_id: Option<EntityId>,
    /// the member's signature attesting membership
    pub signature: Option<Signature>,
}

impl View for GroupMemberBundle {
    type V = (
        Option<(Option<Seq<u8>>, Seq<char>)>,
        Option<(Option<Seq<u8>>, Seq<char>)>,
        Option<(u32, Seq<u8>)>,
    );

    open spec fn view(&self) -> Self::V {
        (opt_view(self.user_id), opt_view(self.group_id), opt_view(self.signature))
    }
}

impl Clone for GroupMemberBundle {
    fn clone(&self) -> (r: Self)
        ensures
            r@ == self@,
    {
        let user_id = match &self.user_id {
            Some(x) => Some(x.clone()),
            None => None,
        };
        let group_id = match &self.group_id {
            Some(x) => Some(x.clone()),
            None => None,
        };
        let signature = match &self.signature {
            Some(x) => Some(x.clone()),
            None => None,
        };
        GroupMemberBundle { user_id, group_id, signature }
    }
}

impl ProtoMessage for GroupMemberBundle {
    open spec fn wire(&self) -> Seq<u8> {
        optional_field(1, self.user_id) + optional_field(2, self.group_id) + optional_field(
            3,
            self.signature,
        )
    }

    fn encode_raw(&self, buf: &mut Vec<u8>) {
        self.encode_with_signature(&self.signature, buf);
    }
}

impl GroupMemberBundle {
    /// This value with its `signature` replaced.
    pub open spec fn with_signature(self, signature: Option<Signature>) -> Self {
        GroupMemberBundle { signature, ..self }
    }

    /// Appends the encoding of this value with its `signature` replaced.
    pub fn encode_with_signature(&self, signature: &Option<Signature>, buf: &mut Vec<u8>)
        ensures
            final(buf)@ == old(buf)@ + self.with_signature(*signature).wire(),
    {
        let mut out: Vec<u8> = Vec::new();
        put_optional(1, &self.user_id, &mut out);
        assert(out@ =~= optional_field(1, self.user_id));
        put_optional(2, &self.group_id, &mut out);
        put_optional(3, signature, &mut out);
        buf.append(&mut out);
    }

    /// The bytes that this value's `signature` signs: its encoding without that field.
    pub fn signed_payload(&self) -> (r: Vec<u8>)
        ensures
            r@ == self.with_signature(None).wire(),
    {
        let none: Option<Signature> = None;
        let mut buf: Vec<u8> = Vec::new();
        self.encode_with_signature(&none, &mut buf);
        assert(buf@ =~= self.with_signature(None).wire());
        buf
    }
}

/// A group's members, signed by the group id and by its creator.
#[derive(Clone, PartialEq, Eq, Debug)]
pub struct GroupMembersBundle {
    pub created: u64,
    pub group_id: Option<EntityId>,
    pub creator_id: Option<EntityId>,
    pub members: Vec<GroupMemberBundle>,
    /// the group id's signature on all other fields
    pub group_signature: Option<Signature>,
    /// the creator's signature on all other fields
    pub creator_signature: Option<Signature>,
}

impl ProtoMessage for GroupMembersBundle {
    open spec fn wire(&self) -> Seq<u8> {
        u64_field(1, self.created) + optional_field(2, self.group_id) + optional_field(
            3,
            self.creator_id,
        ) + repeated_field(4, self.members@) + optional_field(5, self.group_signature)
            + optional_field(6, self.creator_signature)
    }

    fn encode_raw(&self, buf: &mut Vec<u8>) {
        let mut out: Vec<u8> = Vec::new();
        put_u64(1, self.created, &mut out);
        assert(out@ =~= u64_field(1, self.created));
        put_optional(2, &self.group_id, &mut out);
        put_optional(3, &self.creator_id, &mut out);
        put_repeated(4, &self.members, &mut out);
        put_optional(5, &self.group_signature, &mut out);
        put_optional(6, &self.creator_signature, &mut out);
        buf.append(&mut out);
    }
}

/// How a channel charges its subscribers.
#[derive(Clone, Copy, PartialEq, Eq, Debug)]
pub enum PricingModel {
    Free,
    MonthlyFee,
}

impl PricingModel {
    /// The number that stands for this pricing model on the wire.
    pub fn to_i32(self) -> (r: i32)
        ensures
            r == match self {
                PricingModel::Free => 0i32,
                PricingModel::MonthlyFee => 1i32,
            },
    {
        match self {
            PricingModel::Free => 0,
            PricingModel::MonthlyFee => 1,
        }
    }

    /// The pricing model that a number stands for, if any.
    pub fn from_i32(v: i32) -> (r: Option<PricingModel>)
        ensures
            r == if v == 0 {
                Some(PricingModel::Free)
            } else if v == 1 {
                Some(PricingModel::MonthlyFee)
            } else {
                None::<PricingModel>
            },
    {
        if v == 0 {
            Some(PricingModel::Free)
        } else if v == 1 {
            Some(PricingModel::MonthlyFee)
        } else {
            None
        }
    }
}

/// Kinds of channel.
#[derive(Clone, Copy, PartialEq, Eq, Debug)]
pub enum ChannelType {
    StatusFeed,
    Group,
}

impl ChannelType {
    /// The number that stands for this channel type on the wire.
    pub fn to_i32(self) -> (r: i32)
        ensures
            r == match self {
                ChannelType::StatusFeed => 0i32,
                ChannelType::Group => 1i32,
            },
    {
        match self {
            ChannelType::StatusFeed => 0,
            ChannelType::Group => 1,
        }
    }

    /// The channel type that a number stands for, if any.
    pub fn from_i32(v: i32) -> (r: Option<ChannelType>)
        ensures
            r == if v == 0 {
                Some(ChannelType::StatusFeed)
            } else if v == 1 {
                Some(ChannelType::Group)
            } else {
                None::<ChannelType>
            },
    {
        if v == 0 {
            Some(ChannelType::StatusFeed)
        } else if v == 1 {
            Some(ChannelType::Group)
        } else {
            None
        }
    }
}

/// The MIME types in the order that the protocol declares them.
pub open spec fn mime_types_in_order() -> Seq<MimeType> {
    seq![MimeType::TextUtf8, MimeType::ImagePng, MimeType::ImageGif, MimeType::ImageJpg, MimeType::VideoMp4, MimeType::AudioAac, MimeType::AudioMp3, MimeType::AudioM4a]
}

/// A MIME type's number is its place in the protocol's declaration, counting
/// from 0; every MIME type is declared.
pub proof fn lemma_mime_type_codes_follow_declaration_order()
    ensures
        mime_types_in_order().len() == 8,
        forall|i: int| 0 <= i < 8 ==> mime_type_code(#[trigger] mime_types_in_order()[i]) == i,
        forall|t: MimeType| #[trigger] mime_types_in_order().contains(t),
{
    let order = mime_types_in_order();
    assert forall|i: int| 0 <= i < 8 implies mime_type_code(#[trigger] order[i]) == i by {
        if i == 0 {
            assert(order[0] == MimeType::TextUtf8);
        } else if i == 1 {
            assert(order[1] == MimeType::ImagePng);
        } else if i == 2 {
            assert(order[2] == MimeType::ImageGif);
        } else if i == 3 {
            assert(order[3] == MimeType::ImageJpg);
        } else if i == 4 {
            assert(order[4] == MimeType::VideoMp4);
        } else if i == 5 {
            assert(order[5] == MimeType::AudioAac);
        } else if i == 6 {
            assert(order[6] == MimeType::AudioMp3);
        } else if i == 7 {
            assert(order[7] == MimeType::AudioM4a);
        }
    }
    assert forall|t: MimeType| #[trigger] order.contains(t) by {
        match t {
            MimeType::TextUtf8 => assert(order[0] == t),
            MimeType::ImagePng => assert(order[1] == t),
            MimeType::ImageGif => assert(order[2] == t),
            MimeType::ImageJpg => assert(order[3] == t),
            MimeType::VideoMp4 => assert(order[4] == t),
            MimeType::AudioAac => assert(order[5] == t),
            MimeType::AudioMp3 => assert(order[6] == t),
            MimeType::AudioM4a => assert(order[7] == t),
        }
    }
}

/// The compression codecs in the order that the protocol declares them.
pub open spec fn compression_codecs_in_order() -> Seq<CompressionCodec> {
    seq![CompressionCodec::Uncompressed, CompressionCodec::Zlib030, CompressionCodec::Rar010]
}

/// A compression codec's number is its place in the protocol's declaration, counting
/// from 0; every compression codec is declared.
pub proof fn lemma_compression_codes_follow_declaration_order()
    ensures
        compression_codecs_in_order().len() == 3,
        forall|i: int| 0 <= i < 3 ==> compression_code(#[trigger] compression_codecs_in_order()[i]) == i,
        forall|t: CompressionCodec| #[trigger] compression_codecs_in_order().contains(t),
{
    let order = compression_codecs_in_order();
    assert forall|i: int| 0 <= i < 3 implies compression_code(#[trigger] order[i]) == i by {
        if i == 0 {
            assert(order[0] == CompressionCodec::Uncompressed);
        } else if i == 1 {
            assert(order[1] == CompressionCodec::Zlib030);
        } else if i == 2 {
            assert(order[2] == CompressionCodec::Rar010);
        }
    }
    assert forall|t: CompressionCodec| #[trigger] order.contains(t) by {
        match t {
            CompressionCodec::Uncompressed => assert(order[0] == t),
            CompressionCodec::Zlib030 => assert(order[1] == t),
            CompressionCodec::Rar010 => assert(order[2] == t),
        }
    }
}

/// The end point kinds in the order that the protocol declares them.
pub open spec fn api_end_points_in_order() -> Seq<ApiEndPoint> {
    seq![ApiEndPoint::Unspecified, ApiEndPoint::GrpcWeb2, ApiEndPoint::GrpcWeb2s, ApiEndPoint::JsonHttp, ApiEndPoint::JsonHttps]
}

/// A end point kind's number is its place in the protocol's declaration, counting
/// from 0; every end point kind is declared.
pub proof fn lemma_api_end_point_codes_follow_declaration_order()
    ensures
        api_end_points_in_order().len() == 5,
        forall|i: int| 0 <= i < 5 ==> api_end_point_code(#[trigger] api_end_points_in_order()[i]) == i,
        forall|t: ApiEndPoint| #[trigger] api_end_points_in_order().contains(t),
{
    let order = api_end_points_in_order();
    assert forall|i: int| 0 <= i < 5 implies api_end_point_code(#[trigger] order[i]) == i by {
        if i == 0 {
            assert(order[0] == ApiEndPoint::Unspecified);
        } else if i == 1 {
            assert(order[1] == ApiEndPoint::GrpcWeb2);
        } else if i == 2 {
            assert(order[2] == ApiEndPoint::GrpcWeb2s);
        } else if i == 3 {
            assert(order[3] == ApiEndPoint::JsonHttp);
        } else if i == 4 {
            assert(order[4] == ApiEndPoint::JsonHttps);
        }
    }
    assert forall|t: ApiEndPoint| #[trigger] order.contains(t) by {
        match t {
            ApiEndPoint::Unspecified => assert(order[0] == t),
            ApiEndPoint::GrpcWeb2 => assert(order[1] == t),
            ApiEndPoint::GrpcWeb2s => assert(order[2] == t),
            ApiEndPoint::JsonHttp => assert(order[3] == t),
            ApiEndPoint::JsonHttps => assert(order[4] == t),
        }
    }
}

} // verus!
