//! A double-ratchet message: a new session request or a session message.
use crate::snp::snp_server_api::{Message, NewSessionRequest};
use vstd::prelude::*;

verus! {

/// The two kinds of double-ratchet message.
#[derive(Clone, PartialEq, Eq, Debug)]
pub enum Data {
    NewSessionRequest(NewSessionRequest),
    Message(Message),
}

} // verus!
