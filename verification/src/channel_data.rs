//! A channel's state: its bundle and its subscribers.
use crate::byte_seq::bytes_equal;
use crate::channel_subscriber::{has_subscriber_id, subscriber_id_is};
use crate::error::BaseError;
use crate::snp::snp_core_types::{ChannelBundle, ChannelData, ChannelSubscriber};
use vstd::prelude::*;

verus! {

/// Whether `i` is the first position in `subs` whose subscriber has id `id`.
pub open spec fn first_subscriber_with_id(subs: Seq<ChannelSubscriber>, id: Seq<u8>, i: int) -> bool {
    &&& 0 <= i < subs.len()
    &&& subscriber_id_is(subs[i], id)
    &&& forall|j: int| 0 <= j < i ==> !subscriber_id_is(subs[j], id)
}

/// Every subscriber that the search for `id` reads carries an id: each one up
/// to the first whose id is `id`, or all of them when none is.
pub open spec fn subscribers_searchable(subs: Seq<ChannelSubscriber>, id: Seq<u8>) -> bool {
    forall|i: int|
        0 <= i < subs.len() && (forall|j: int| 0 <= j < i ==> !subscriber_id_is(subs[j], id))
            ==> has_subscriber_id(#[trigger] subs[i])
}

impl ChannelData {
    /// The channel's bundle.
    pub fn get_bundle(&self) -> (r: Result<&ChannelBundle, BaseError>)
        ensures
            self.bundle is None ==> r == Err::<&ChannelBundle, BaseError>(BaseError::MissingBundle),
            self.bundle matches Some(b) ==> r == Ok::<&ChannelBundle, BaseError>(&b),
    {
        match &self.bundle {
            Some(b) => Ok(b),
            None => Err(BaseError::MissingBundle),
        }
    }

    /// The channel id's public key bytes, read from the channel's bundle.
    pub fn get_channel_id(&self) -> (r: Result<Vec<u8>, BaseError>)
        ensures
            self.bundle is None ==> r == Err::<Vec<u8>, BaseError>(BaseError::MissingData),
            self.bundle matches Some(b) && b.channel_id is None ==> r == Err::<Vec<u8>, BaseError>(
                BaseError::MissingData,
            ),
            self.bundle matches Some(b) && b.channel_id matches Some(c) && c.public_key is None
                ==> r == Err::<Vec<u8>, BaseError>(BaseError::MissingData),
            self.bundle matches Some(b) ==> (b.channel_id matches Some(c) ==> (
            c.public_key matches Some(k) ==> (r matches Ok(id) && id@ == k.key@))),
    {
        match &self.bundle {
            None => Err(BaseError::MissingData),
            Some(b) => b.get_channel_id(),
        }
    }

    /// The first subscriber whose id is `subscriber_id`, if any.
    pub fn get_subscriber(&self, subscriber_id: &[u8]) -> (r: Result<
        Option<ChannelSubscriber>,
        BaseError,
    >)
        requires
            subscribers_searchable(self.subscribers@, subscriber_id@),
        ensures
            r is Ok,
            r matches Ok(None) ==> forall|i: int|
                0 <= i < self.subscribers@.len() ==> !subscriber_id_is(
                    #[trigger] self.subscribers@[i],
                    subscriber_id@,
                ),
            r matches Ok(Some(s)) ==> exists|i: int|
                first_subscriber_with_id(self.subscribers@, subscriber_id@, i) && s@
                    == #[trigger] self.subscribers@[i]@,
    {
        let mut i: usize = 0;
        while i < self.subscribers.len()
            invariant
                0 <= i <= self.subscribers@.len(),
                subscribers_searchable(self.subscribers@, subscriber_id@),
                forall|j: int| 0 <= j < i ==> !subscriber_id_is(self.subscribers@[j], subscriber_id@),
            decreases self.subscribers@.len() - i,
        {
            let sub = &self.subscribers[i];
            assert(has_subscriber_id(self.subscribers@[i as int]));
            let id = sub.get_subscriber_id().unwrap();
            if bytes_equal(id.as_slice(), subscriber_id) {
                let found = sub.clone();
                assert(first_subscriber_with_id(self.subscribers@, subscriber_id@, i as int));
                return Ok(Some(found));
            }
            i = i + 1;
        }
        Ok(None)
    }
}

} // verus!
