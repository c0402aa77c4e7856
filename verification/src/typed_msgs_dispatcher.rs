//! The typed messages dispatcher's registry: at most one subscriber per
//! message type, and the subscriber that a published message goes to.
//!
//! Delivering a message to its subscriber and awaiting the reply is the
//! caller's part; the registry decides who gets it.
use crate::error::BaseError;
use crate::snp::snp_server_api::TypedMessage;
use std::collections::HashMap;
use vstd::prelude::*;

verus! {

broadcast use {
    vstd::std_specs::hash::axiom_i32_obeys_hash_table_key_model,
    vstd::std_specs::hash::axiom_random_state_builds_valid_hashers,
    vstd::std_specs::hash::axiom_contains_deref_key,
    vstd::std_specs::hash::axiom_maps_deref_key_to_value,
    vstd::std_specs::hash::axiom_deref_key_removed,
};

/// The subscriber that a message of type `message_type` goes to, given the
/// subscriptions `subs`: the one subscribed to that type, if any.
pub open spec fn dispatch_target<S>(subs: Map<i32, S>, message_type: i32) -> Option<S> {
    if subs.contains_key(message_type) {
        Some(subs[message_type])
    } else {
        None
    }
}

/// A broker of typed messages in which at most one subscriber subscribes to
/// each message type, identified by its number. A published message goes to
/// the subscriber of its type.
pub struct TypedMessagesDispatcher<S> {
    subscribes: HashMap<i32, S>,
}

impl<S> View for TypedMessagesDispatcher<S> {
    /// Each subscribed message type, with its subscriber.
    type V = Map<i32, S>;

    closed spec fn view(&self) -> Map<i32, S> {
        self.subscribes@
    }
}

impl<S> TypedMessagesDispatcher<S> {
    /// A dispatcher with no subscriptions.
    pub fn new() -> (r: Self)
        ensures
            r@ == Map::<i32, S>::empty(),
    {
        TypedMessagesDispatcher { subscribes: HashMap::new() }
    }

    /// Subscribes `subscriber` to the messages of type `message_type`, in
    /// place of the subscriber that type had.
    pub fn subscribe(&mut self, message_type: i32, subscriber: S) -> (r: Result<(), BaseError>)
        ensures
            r is Ok,
            final(self)@ == old(self)@.insert(message_type, subscriber),
    {
        self.subscribes.insert(message_type, subscriber);
        Ok(())
    }

    /// Removes the subscription to the messages of type `id`, if there is one.
    pub fn unsubscribe(&mut self, id: i32) -> (r: Result<(), BaseError>)
        ensures
            r is Ok,
            final(self)@ == old(self)@.remove(id),
    {
        self.subscribes.remove(&id);
        Ok(())
    }

    /// The subscriber that `msg` is to be published to: the one subscribed to
    /// its type, or `NoSubscriber`.
    pub fn subscriber_for(&self, msg: &TypedMessage) -> (r: Result<&S, BaseError>)
        ensures
            match dispatch_target(self@, msg.msg_type) {
                Some(s) => r == Ok::<&S, BaseError>(&s),
                None => r == Err::<&S, BaseError>(BaseError::NoSubscriber),
            },
    {
        match self.subscribes.get(&msg.msg_type) {
            Some(s) => Ok(s),
            None => Err(BaseError::NoSubscriber),
        }
    }
}

impl<S> Default for TypedMessagesDispatcher<S> {
    fn default() -> (r: Self)
        ensures
            r@ == Map::<i32, S>::empty(),
    {
        TypedMessagesDispatcher::new()
    }
}

/// After a subscription to a message type, messages of that type go to the
/// new subscriber, and messages of every other type go where they went.
pub proof fn lemma_subscribe_routes<S>(subs: Map<i32, S>, message_type: i32, subscriber: S, other: i32)
    requires
        other != message_type,
    ensures
        dispatch_target(subs.insert(message_type, subscriber), message_type) == Some(subscriber),
        dispatch_target(subs.insert(message_type, subscriber), other) == dispatch_target(subs, other),
{
}

/// After unsubscribing from a message type, messages of that type go to no
/// one, and messages of every other type go where they went.
pub proof fn lemma_unsubscribe_routes<S>(subs: Map<i32, S>, message_type: i32, other: i32)
    requires
        other != message_type,
    ensures
        dispatch_target(subs.remove(message_type), message_type) is None,
        dispatch_target(subs.remove(message_type), other) == dispatch_target(subs, other),
{
}

/// Unsubscribing undoes subscribing: subscribing to a message type that had
/// no subscriber, then unsubscribing from it, leaves the subscriptions as they
/// were.
pub proof fn lemma_unsubscribe_undoes_subscribe<S>(subs: Map<i32, S>, message_type: i32, subscriber: S)
    requires
        !subs.contains_key(message_type),
    ensures
        subs.insert(message_type, subscriber).remove(message_type) == subs,
{
    assert(subs.insert(message_type, subscriber).remove(message_type) =~= subs);
}

} // verus!
