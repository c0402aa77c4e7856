//! Content items: text messages, their creation, signing and verification.
use crate::api_types_extensions::{
    id_key_valid, make_signature, signature_made, Signed, SignedWithExternalVerifier,
};
use crate::crypto::{
    consistent_key_pair, ed25519_verifies, signature_form, IdKeyPair, IdPublicKey, IdSignature,
};
use crate::encoding::{ProtoMessage, bytes_field, encode_to_vec, lemma_bytes_field_injective, lemma_middle_cancel_contra, lemma_u64_field_injective, optional_field, repeated_field, string_field, u64_field};
use crate::error::BaseError;
use crate::snp::snp_core_types::{
    ChannelContentItem, CompressionCodec, ContentItem, EntityId, MediaItem, MimeType,
};
use crate::system::{now_nanos, random_u64};
use vstd::prelude::*;
use vstd::slice::slice_to_vec;
use vstd::utf8::{decode_utf8, encode_utf8, valid_utf8};

verus! {

/// `String::from_utf8`: the text that bytes encode. Claimed, as std documents
/// it: it succeeds exactly on valid UTF-8, with the decoded characters.
#[verifier::external_body]
fn string_from_utf8(bytes: Vec<u8>) -> (r: Option<String>)
    ensures
        r is Some <==> valid_utf8(bytes@),
        r matches Some(s) ==> s@ == decode_utf8(bytes@),
{
    String::from_utf8(bytes).ok()
}

/// What verifying a content item's author signature gives, check by check: the
/// signature must be present and in form, the author and its key present and
/// a valid key, and the signature must verify over the item's encoding without
/// the signature.
pub open spec fn content_item_verdict(c: ContentItem) -> Result<(), BaseError> {
    if c.signature is None {
        Err(BaseError::MissingAuthorSignature)
    } else if !signature_form(c.signature->0.signature@) {
        Err(BaseError::InvalidSignature)
    } else if c.author is None {
        Err(BaseError::MissingAuthor)
    } else if c.author->0.public_key is None {
        Err(BaseError::MissingPubKey)
    } else if !id_key_valid(c.author->0.public_key->0@) {
        Err(BaseError::InvalidPublicKey)
    } else if !ed25519_verifies(
        c.author->0.public_key->0@,
        c.with_signature(None).wire(),
        c.signature->0.signature@,
    ) {
        Err(BaseError::SignatureMismatch)
    } else {
        Ok(())
    }
}

/// What verifying a channel item's creator signature gives, check by check:
/// the content item must be present and pass its own verification, the
/// creator's signature present and in form, and it must verify under
/// `signer` over the channel item's encoding without that signature.
pub open spec fn channel_content_item_verdict(c: ChannelContentItem, signer: Seq<u8>) -> Result<
    (),
    BaseError,
> {
    if c.content_item is None {
        Err(BaseError::MissingContentItem)
    } else if content_item_verdict(c.content_item->0) is Err {
        content_item_verdict(c.content_item->0)
    } else if c.signature is None {
        Err(BaseError::MissingChannelCreatorSignature)
    } else if !signature_form(c.signature->0.signature@) {
        Err(BaseError::InvalidSignature)
    } else if !ed25519_verifies(signer, c.with_signature(None).wire(), c.signature->0.signature@) {
        Err(BaseError::ChannelCreatorSignatureMismatch)
    } else {
        Ok(())
    }
}

/// Signing then verifying: a content item that carries no signature, signed
/// with a key pair whose public key is derived from its secret key and is the
/// item's author, passes verification.
pub proof fn lemma_signed_content_item_verifies(
    before: ContentItem,
    after: ContentItem,
    kp: (Seq<u8>, Seq<u8>),
)
    requires
        before.signature is None,
        after.with_signature(None) == before.with_signature(None),
        signature_made(after.signature, kp, before.wire()),
        consistent_key_pair(kp),
        before.author is Some,
        before.author->0.public_key is Some,
        before.author->0.public_key->0@ == kp.1,
    ensures
        content_item_verdict(after) == Ok::<(), BaseError>(()),
{
    assert(before.with_signature(None) == before);
    assert(after.author == before.author);
}

/// Signing then verifying: a channel item that carries no creator signature
/// and holds a verified content item, signed with a key pair whose public key
/// is derived from its secret key, passes verification under that public key.
pub proof fn lemma_signed_channel_item_verifies(
    before: ChannelContentItem,
    after: ChannelContentItem,
    kp: (Seq<u8>, Seq<u8>),
)
    requires
        before.signature is None,
        before.content_item is Some,
        content_item_verdict(before.content_item->0) == Ok::<(), BaseError>(()),
        after.with_signature(None) == before.with_signature(None),
        signature_made(after.signature, kp, before.wire()),
        consistent_key_pair(kp),
    ensures
        channel_content_item_verdict(after, kp.1) == Ok::<(), BaseError>(()),
{
    assert(before.with_signature(None) == before);
    assert(after.content_item == before.content_item);
}

impl ContentItem {
    /// The text of an item whose first media item is its UTF-8 text.
    pub fn get_simple_text_content(&self) -> (r: Result<String, BaseError>)
        ensures
            self.media_item@.len() == 0 ==> r == Err::<String, BaseError>(BaseError::MissingContent),
            self.media_item@.len() > 0 && valid_utf8(self.media_item@[0].content@) ==> (r matches Ok(
                t) && t@ == decode_utf8(self.media_item@[0].content@)),
            self.media_item@.len() > 0 && !valid_utf8(self.media_item@[0].content@) ==> r == Err::<
                String,
                BaseError,
            >(BaseError::InvalidUtf8),
    {
        if self.media_item.len() == 0 {
            return Err(BaseError::MissingContent);
        }
        let content = self.media_item[0].content.clone();
        assert(content@ =~= self.media_item@[0].content@);
        match string_from_utf8(content) {
            Some(t) => Ok(t),
            None => Err(BaseError::InvalidUtf8),
        }
    }

    /// A new one-to-one text message by `author`, outside any channel. Its id
    /// is random and its creation time is now.
    pub fn new_one_to_one_text_message(text: String, author: EntityId, reply_to: u64) -> (r:
        ContentItem)
        ensures
            r.channel_id@ == Seq::<u8>::empty(),
            r.author == Some(author),
            r.ttl == 0,
            r.price == 0,
            r.name@ == Seq::<char>::empty(),
            r.media_item@.len() == 1,
            r.media_item@[0].id == 0,
            r.media_item@[0].name@ == Seq::<char>::empty(),
            r.media_item@[0].mime_type == 0,
            r.media_item@[0].compression == 0,
            r.media_item@[0].content@ == encode_utf8(text@),
            r.signature is None,
            r.reply_to == reply_to,
    {
        let content = slice_to_vec(text.as_str().as_bytes());
        let update_item = MediaItem {
            id: 0,
            name: String::new(),
            mime_type: MimeType::TextUtf8.to_i32(),
            compression: CompressionCodec::Uncompressed.to_i32(),
            content,
        };
        let mut media_item: Vec<MediaItem> = Vec::new();
        media_item.push(update_item);
        ContentItem {
            id: random_u64(),
            created: now_nanos(),
            channel_id: Vec::new(),
            author: Some(author),
            ttl: 0,
            price: 0,
            name: String::new(),
            media_item,
            signature: None,
            reply_to,
        }
    }

    /// A new text status update in the channel `channel_id`.
    pub fn new_channel_text_message(
        text: String,
        author: EntityId,
        channel_id: Vec<u8>,
        reply_to: u64,
    ) -> (r: ContentItem)
        ensures
            r.channel_id == channel_id,
            r.author == Some(author),
            r.ttl == 0,
            r.price == 0,
            r.name@ == Seq::<char>::empty(),
            r.media_item@.len() == 1,
            r.media_item@[0].id == 0,
            r.media_item@[0].name@ == Seq::<char>::empty(),
            r.media_item@[0].mime_type == 0,
            r.media_item@[0].compression == 0,
            r.media_item@[0].content@ == encode_utf8(text@),
            r.signature is None,
            r.reply_to == reply_to,
    {
        let mut item = ContentItem::new_one_to_one_text_message(text, author, reply_to);
        item.channel_id = channel_id;
        item
    }
}

impl Signed for ContentItem {
    /// Signs the item's encoding, as it stands, with the author's key.
    fn sign(&mut self, signer: &IdKeyPair) -> (r: Result<(), BaseError>)
        ensures
            r is Ok,
            final(self).with_signature(None) == old(self).with_signature(None),
            signature_made(final(self).signature, signer@, old(self).wire()),
    {
        let payload = encode_to_vec(&*self);
        self.signature = Some(make_signature(signer, payload.as_slice()));
        Ok(())
    }

    /// Verifies the author's signature on the item.
    fn verify_signature(&self) -> (r: Result<(), BaseError>)
        ensures
            r == content_item_verdict(*self),
    {
        let signature_data = match &self.signature {
            None => return Err(BaseError::MissingAuthorSignature),
            Some(s) => s,
        };
        let payload = self.signed_payload();
        let signature = match IdSignature::from_bytes(signature_data.signature.as_slice()) {
            None => return Err(BaseError::InvalidSignature),
            Some(s) => s,
        };
        let author = match &self.author {
            None => return Err(BaseError::MissingAuthor),
            Some(a) => a,
        };
        let author_id = author.get_id()?;
        let author_pub_key = match IdPublicKey::from_bytes(author_id.as_slice()) {
            None => return Err(BaseError::InvalidPublicKey),
            Some(k) => k,
        };
        if !author_pub_key.verify(payload.as_slice(), &signature) {
            return Err(BaseError::SignatureMismatch);
        }
        Ok(())
    }
}

impl ChannelContentItem {
    /// A channel item holding `content`, not yet signed by the channel's creator.
    pub fn new(content: ContentItem) -> (r: ChannelContentItem)
        ensures
            r.content_item == Some(content),
            r.signature is None,
    {
        ChannelContentItem { content_item: Some(content), signature: None }
    }
}

impl SignedWithExternalVerifier for ChannelContentItem {
    /// Signs the channel item's encoding, as it stands, with the creator's key.
    fn sign(&mut self, signer: &IdKeyPair) -> (r: Result<(), BaseError>)
        ensures
            r is Ok,
            final(self).with_signature(None) == old(self).with_signature(None),
            signature_made(final(self).signature, signer@, old(self).wire()),
    {
        let payload = encode_to_vec(&*self);
        self.signature = Some(make_signature(signer, payload.as_slice()));
        Ok(())
    }

    /// Verifies the content item's author signature, then the channel
    /// creator's signature under `signer`.
    fn verify_signature(&self, signer: &IdPublicKey) -> (r: Result<(), BaseError>)
        ensures
            r == channel_content_item_verdict(*self, signer@),
    {
        let item = match &self.content_item {
            None => return Err(BaseError::MissingContentItem),
            Some(i) => i,
        };
        item.verify_signature()?;
        let signature_data = match &self.signature {
            None => return Err(BaseError::MissingChannelCreatorSignature),
            Some(s) => s,
        };
        let channel_signature = match IdSignature::from_bytes(signature_data.signature.as_slice()) {
            None => return Err(BaseError::InvalidSignature),
            Some(s) => s,
        };
        let payload = self.signed_payload();
        if !signer.verify(payload.as_slice(), &channel_signature) {
            return Err(BaseError::ChannelCreatorSignatureMismatch);
        }
        Ok(())
    }
}

/// A content item's encoding carries its id, channel, creation time, time to
/// live, price and the item it replies to: an item changed in only one of
/// them encodes differently, so its signed bytes differ too.
pub proof fn lemma_content_item_encoding_carries_fields(c: ContentItem)
    ensures
        forall|t: u64| t != c.id ==> (ContentItem { id: t, ..c }).wire() != c.wire(),
        forall|t: Vec<u8>| t@ != c.channel_id@ ==> (ContentItem { channel_id: t, ..c }).wire() != c.wire(),
        forall|t: u64| t != c.created ==> (ContentItem { created: t, ..c }).wire() != c.wire(),
        forall|t: u64| t != c.ttl ==> (ContentItem { ttl: t, ..c }).wire() != c.wire(),
        forall|t: u64| t != c.price ==> (ContentItem { price: t, ..c }).wire() != c.wire(),
        forall|t: u64| t != c.reply_to ==> (ContentItem { reply_to: t, ..c }).wire() != c.wire(),
        forall|t: u64| t != c.reply_to ==> (ContentItem { reply_to: t, ..c }).with_signature(None).wire()
            != c.with_signature(None).wire(),
{
    assert forall|t: u64| t != c.reply_to implies (ContentItem { reply_to: t, ..c }).with_signature(None).wire()
        != c.with_signature(None).wire() by {
        assert((ContentItem { reply_to: t, ..c }).with_signature(None) == (ContentItem { reply_to: t, ..c.with_signature(None) }));
        lemma_content_item_encoding_carries_fields_reply_to(c.with_signature(None), t);
    }
    assert forall|t: u64| t != c.id implies (ContentItem { id: t, ..c }).wire() != c.wire() by {
        lemma_content_item_encoding_carries_fields_id(c, t);
    }
    assert forall|t: Vec<u8>| t@ != c.channel_id@ implies (ContentItem { channel_id: t, ..c }).wire() != c.wire() by {
        lemma_content_item_encoding_carries_fields_channel_id(c, t);
    }
    assert forall|t: u64| t != c.created implies (ContentItem { created: t, ..c }).wire() != c.wire() by {
        lemma_content_item_encoding_carries_fields_created(c, t);
    }
    assert forall|t: u64| t != c.ttl implies (ContentItem { ttl: t, ..c }).wire() != c.wire() by {
        lemma_content_item_encoding_carries_fields_ttl(c, t);
    }
    assert forall|t: u64| t != c.price implies (ContentItem { price: t, ..c }).wire() != c.wire() by {
        lemma_content_item_encoding_carries_fields_price(c, t);
    }
    assert forall|t: u64| t != c.reply_to implies (ContentItem { reply_to: t, ..c }).wire() != c.wire() by {
        lemma_content_item_encoding_carries_fields_reply_to(c, t);
    }
}

/// Changing only `id` changes the encoding.
#[verifier::rlimit(80)]
proof fn lemma_content_item_encoding_carries_fields_id(c: ContentItem, t: u64)
    requires
        t != c.id,
    ensures
        (ContentItem { id: t, ..c }).wire() != c.wire(),
{
    let n = (ContentItem { id: t, ..c });
    let p = Seq::<u8>::empty();
    let s = bytes_field(2, c.channel_id@) + u64_field(3, c.created) + optional_field(4, c.author) + u64_field(5, c.ttl) + u64_field(6, c.price) + string_field(7, c.name@) + repeated_field(8, c.media_item@) + u64_field(9, c.reply_to) + optional_field(10, c.signature);
    assert(c.wire() =~= p + u64_field(1, c.id) + s);
    assert(n.wire() =~= p + u64_field(1, n.id) + s);
    if u64_field(1, n.id) == u64_field(1, c.id) {
        lemma_u64_field_injective(1, n.id, c.id);
    } else {
        lemma_middle_cancel_contra(p, u64_field(1, n.id), u64_field(1, c.id), s);
    }
}

/// Changing only `channel_id` changes the encoding.
#[verifier::rlimit(80)]
proof fn lemma_content_item_encoding_carries_fields_channel_id(c: ContentItem, t: Vec<u8>)
    requires
        t@ != c.channel_id@,
    ensures
        (ContentItem { channel_id: t, ..c }).wire() != c.wire(),
{
    let n = (ContentItem { channel_id: t, ..c });
    let p = u64_field(1, c.id);
    let s = u64_field(3, c.created) + optional_field(4, c.author) + u64_field(5, c.ttl) + u64_field(6, c.price) + string_field(7, c.name@) + repeated_field(8, c.media_item@) + u64_field(9, c.reply_to) + optional_field(10, c.signature);
    assert(c.wire() =~= p + bytes_field(2, c.channel_id@) + s);
    assert(n.wire() =~= p + bytes_field(2, n.channel_id@) + s);
    if bytes_field(2, n.channel_id@) == bytes_field(2, c.channel_id@) {
        lemma_bytes_field_injective(2, n.channel_id@, c.channel_id@);
    } else {
        lemma_middle_cancel_contra(p, bytes_field(2, n.channel_id@), bytes_field(2, c.channel_id@), s);
    }
}

/// Changing only `created` changes the encoding.
#[verifier::rlimit(80)]
proof fn lemma_content_item_encoding_carries_fields_created(c: ContentItem, t: u64)
    requires
        t != c.created,
    ensures
        (ContentItem { created: t, ..c }).wire() != c.wire(),
{
    let n = (ContentItem { created: t, ..c });
    let p = u64_field(1, c.id) + bytes_field(2, c.channel_id@);
    let s = optional_field(4, c.author) + u64_field(5, c.ttl) + u64_field(6, c.price) + string_field(7, c.name@) + repeated_field(8, c.media_item@) + u64_field(9, c.reply_to) + optional_field(10, c.signature);
    assert(c.wire() =~= p + u64_field(3, c.created) + s);
    assert(n.wire() =~= p + u64_field(3, n.created) + s);
    if u64_field(3, n.created) == u64_field(3, c.created) {
        lemma_u64_field_injective(3, n.created, c.created);
    } else {
        lemma_middle_cancel_contra(p, u64_field(3, n.created), u64_field(3, c.created), s);
    }
}

/// Changing only `ttl` changes the encoding.
#[verifier::rlimit(80)]
proof fn lemma_content_item_encoding_carries_fields_ttl(c: ContentItem, t: u64)
    requires
        t != c.ttl,
    ensures
        (ContentItem { ttl: t, ..c }).wire() != c.wire(),
{
    let n = (ContentItem { ttl: t, ..c });
    let p = u64_field(1, c.id) + bytes_field(2, c.channel_id@) + u64_field(3, c.created) + optional_field(4, c.author);
    let s = u64_field(6, c.price) + string_field(7, c.name@) + repeated_field(8, c.media_item@) + u64_field(9, c.reply_to) + optional_field(10, c.signature);
    assert(c.wire() =~= p + u64_field(5, c.ttl) + s);
    assert(n.wire() =~= p + u64_field(5, n.ttl) + s);
    if u64_field(5, n.ttl) == u64_field(5, c.ttl) {
        lemma_u64_field_injective(5, n.ttl, c.ttl);
    } else {
        lemma_middle_cancel_contra(p, u64_field(5, n.ttl), u64_field(5, c.ttl), s);
    }
}

/// Changing only `price` changes the encoding.
#[verifier::rlimit(80)]
proof fn lemma_content_item_encoding_carries_fields_price(c: ContentItem, t: u64)
    requires
        t != c.price,
    ensures
        (ContentItem { price: t, ..c }).wire() != c.wire(),
{
    let n = (ContentItem { price: t, ..c });
    let p = u64_field(1, c.id) + bytes_field(2, c.channel_id@) + u64_field(3, c.created) + optional_field(4, c.author) + u64_field(5, c.ttl);
    let s = string_field(7, c.name@) + repeated_field(8, c.media_item@) + u64_field(9, c.reply_to) + optional_field(10, c.signature);
    assert(c.wire() =~= p + u64_field(6, c.price) + s);
    assert(n.wire() =~= p + u64_field(6, n.price) + s);
    if u64_field(6, n.price) == u64_field(6, c.price) {
        lemma_u64_field_injective(6, n.price, c.price);
    } else {
        lemma_middle_cancel_contra(p, u64_field(6, n.price), u64_field(6, c.price), s);
    }
}

/// Changing only `reply_to` changes the encoding.
#[verifier::rlimit(80)]
proof fn lemma_content_item_encoding_carries_fields_reply_to(c: ContentItem, t: u64)
    requires
        t != c.reply_to,
    ensures
        (ContentItem { reply_to: t, ..c }).wire() != c.wire(),
{
    let n = (ContentItem { reply_to: t, ..c });
    let p = u64_field(1, c.id) + bytes_field(2, c.channel_id@) + u64_field(3, c.created) + optional_field(4, c.author) + u64_field(5, c.ttl) + u64_field(6, c.price) + string_field(7, c.name@) + repeated_field(8, c.media_item@);
    let s = optional_field(10, c.signature);
    assert(c.wire() =~= p + u64_field(9, c.reply_to) + s);
    assert(n.wire() =~= p + u64_field(9, n.reply_to) + s);
    if u64_field(9, n.reply_to) == u64_field(9, c.reply_to) {
        lemma_u64_field_injective(9, n.reply_to, c.reply_to);
    } else {
        lemma_middle_cancel_contra(p, u64_field(9, n.reply_to), u64_field(9, c.reply_to), s);
    }
}

} // verus!
