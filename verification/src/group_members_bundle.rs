//! Group membership: members' bundles and the group's members bundle.
use crate::api_types_extensions::{id_key_valid, make_signature, signature_made, Signed};
use crate::byte_seq::bytes_equal;
use crate::crypto::{
    consistent_key_pair, ed25519_verifies, signature_form, IdKeyPair, IdPublicKey, IdSignature,
};
use crate::encoding::{encode_to_vec, ProtoMessage};
use crate::error::BaseError;
use crate::snp::snp_core_types::{GroupMemberBundle, GroupMembersBundle, Signature};
use vstd::prelude::*;

verus! {

/// Whether a member bundle carries a member id (its user's public key).
pub open spec fn has_member_id(m: GroupMemberBundle) -> bool {
    m.user_id matches Some(u) && u.public_key is Some
}

/// Whether a member bundle's member id is present and equals `id`.
pub open spec fn member_id_is(m: GroupMemberBundle, id: Seq<u8>) -> bool {
    has_member_id(m) && m.user_id->0.public_key->0@ == id
}

/// Whether `i` is the first position in `members` whose member id is `id`.
pub open spec fn first_member_with_id(members: Seq<GroupMemberBundle>, id: Seq<u8>, i: int) -> bool {
    &&& 0 <= i < members.len()
    &&& member_id_is(members[i], id)
    &&& forall|j: int| 0 <= j < i ==> !member_id_is(members[j], id)
}

/// Every member that the search for `id` reads carries a member id: each one
/// up to the first whose id is `id`, or all of them when none is.
pub open spec fn members_searchable(members: Seq<GroupMemberBundle>, id: Seq<u8>) -> bool {
    forall|i: int|
        0 <= i < members.len() && (forall|j: int| 0 <= j < i ==> !member_id_is(members[j], id))
            ==> has_member_id(#[trigger] members[i])
}

/// What verifying a member bundle's signature gives, check by check: the
/// signature must be present and in form, the member id present and a valid
/// key, and the signature must verify over the bundle's encoding without it.
pub open spec fn member_bundle_verdict(m: GroupMemberBundle) -> Result<(), BaseError> {
    if m.signature is None {
        Err(BaseError::MissingAuthorSignature)
    } else if !signature_form(m.signature->0.signature@) {
        Err(BaseError::InvalidSignature)
    } else if m.user_id is None {
        Err(BaseError::MissingUserId)
    } else if m.user_id->0.public_key is None {
        Err(BaseError::MissingPubKey)
    } else if !id_key_valid(m.user_id->0.public_key->0@) {
        Err(BaseError::InvalidPublicKey)
    } else if !ed25519_verifies(
        m.user_id->0.public_key->0@,
        m.with_signature(None).wire(),
        m.signature->0.signature@,
    ) {
        Err(BaseError::SignatureMismatch)
    } else {
        Ok(())
    }
}

/// Signing then verifying: a member bundle signed with a key pair whose public
/// key is derived from its secret key and is the member's id passes
/// verification, whatever signature it carried before.
pub proof fn lemma_signed_member_bundle_verifies(
    before: GroupMemberBundle,
    after: GroupMemberBundle,
    kp: (Seq<u8>, Seq<u8>),
)
    requires
        after.with_signature(None) == before.with_signature(None),
        signature_made(after.signature, kp, before.with_signature(None).wire()),
        consistent_key_pair(kp),
        before.user_id is Some,
        before.user_id->0.public_key is Some,
        before.user_id->0.public_key->0@ == kp.1,
    ensures
        member_bundle_verdict(after) == Ok::<(), BaseError>(()),
{
    assert(after.user_id == before.user_id);
}

impl GroupMembersBundle {
    /// This bundle with neither signature.
    pub open spec fn without_signatures(self) -> Self {
        GroupMembersBundle { group_signature: None, creator_signature: None, ..self }
    }

    /// This bundle with its creator signature replaced.
    pub open spec fn with_creator_signature(self, creator_signature: Option<Signature>) -> Self {
        GroupMembersBundle { creator_signature, ..self }
    }

    /// The first member whose id is `user_id`, if any.
    pub fn get_member(&self, user_id: &[u8]) -> (r: Option<GroupMemberBundle>)
        requires
            members_searchable(self.members@, user_id@),
        ensures
            r is None ==> forall|i: int|
                0 <= i < self.members@.len() ==> !member_id_is(#[trigger] self.members@[i], user_id@),
            r matches Some(m) ==> exists|i: int|
                first_member_with_id(self.members@, user_id@, i) && m@ == #[trigger] self.members@[i]@,
    {
        let mut i: usize = 0;
        while i < self.members.len()
            invariant
                0 <= i <= self.members@.len(),
                members_searchable(self.members@, user_id@),
                forall|j: int| 0 <= j < i ==> !member_id_is(self.members@[j], user_id@),
            decreases self.members@.len() - i,
        {
            let member = &self.members[i];
            assert(has_member_id(self.members@[i as int]));
            let id = member.get_member_id().unwrap();
            if bytes_equal(id.as_slice(), user_id) {
                assert(first_member_with_id(self.members@, user_id@, i as int));
                return Some(member.clone());
            }
            i = i + 1;
        }
        None
    }

    /// Signs the bundle without signatures with the group's key, then signs
    /// it, with the group's signature, with the creator's key.
    pub fn sign(&mut self, creator_key_pair: &IdKeyPair, group_key_pair: &IdKeyPair) -> (r: Result<
        (),
        BaseError,
    >)
        ensures
            r is Ok,
            final(self).group_id == old(self).group_id,
            final(self).created == old(self).created,
            final(self).creator_id == old(self).creator_id,
            final(self).members == old(self).members,
            signature_made(
                final(self).group_signature,
                group_key_pair@,
                old(self).without_signatures().wire(),
            ),
            signature_made(
                final(self).creator_signature,
                creator_key_pair@,
                final(self).with_creator_signature(None).wire(),
            ),
    {
        self.group_signature = None;
        self.creator_signature = None;
        let payload = encode_to_vec(&*self);
        self.group_signature = Some(make_signature(group_key_pair, payload.as_slice()));
        let payload = encode_to_vec(&*self);
        self.creator_signature = Some(make_signature(creator_key_pair, payload.as_slice()));
        Ok(())
    }
}

impl GroupMemberBundle {
    /// The member's id: its user's public key bytes.
    pub fn get_member_id(&self) -> (r: Result<Vec<u8>, BaseError>)
        ensures
            self.user_id is None ==> r == Err::<Vec<u8>, BaseError>(BaseError::MissingClientId),
            self.user_id matches Some(u) ==> (u.public_key is None ==> r == Err::<Vec<u8>, BaseError>(
                BaseError::MissingPubKey,
            )),
            self.user_id matches Some(u) ==> (u.public_key matches Some(k) ==> (r matches Ok(id)
                && id@ == k.key@)),
    {
        match &self.user_id {
            None => Err(BaseError::MissingClientId),
            Some(u) => match &u.public_key {
                None => Err(BaseError::MissingPubKey),
                Some(k) => {
                    let id = k.key.clone();
                    assert(id@ =~= k.key@);
                    Ok(id)
                },
            },
        }
    }
}

impl Signed for GroupMemberBundle {
    /// Signs the bundle's encoding without a signature with the member's key.
    fn sign(&mut self, signer: &IdKeyPair) -> (r: Result<(), BaseError>)
        ensures
            r is Ok,
            final(self).with_signature(None) == old(self).with_signature(None),
            signature_made(final(self).signature, signer@, old(self).with_signature(None).wire()),
    {
        self.signature = None;
        let payload = self.signed_payload();
        self.signature = Some(make_signature(signer, payload.as_slice()));
        Ok(())
    }

    /// Verifies the member's signature on the bundle.
    fn verify_signature(&self) -> (r: Result<(), BaseError>)
        ensures
            r == member_bundle_verdict(*self),
    {
        let signature_data = match &self.signature {
            None => return Err(BaseError::MissingAuthorSignature),
            Some(s) => s,
        };
        let payload = self.signed_payload();
        let signature = match IdSignature::from_bytes(signature_data.signature.as_slice()) {
            None => return Err(BaseError::InvalidSignature),
            Some(s) => s,
        };
        let signer = match &self.user_id {
            None => return Err(BaseError::MissingUserId),
            Some(u) => u,
        };
        let signer_id = signer.get_id()?;
        let signer_pub_key = match IdPublicKey::from_bytes(signer_id.as_slice()) {
            None => return Err(BaseError::InvalidPublicKey),
            Some(k) => k,
        };
        if !signer_pub_key.verify(payload.as_slice(), &signature) {
            return Err(BaseError::SignatureMismatch);
        }
        Ok(())
    }
}

} // verus!
