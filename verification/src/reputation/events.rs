use crate::address::Address;
use vstd::prelude::*;

verus! {

/// Notification that new feedback is given.
#[derive(Clone, Debug, PartialEq, Eq)]
pub struct NewFeedback {
    pub agent_id: u64,
    pub client_address: Address,
    pub feedback_index: u64,
    pub score: u8,
    pub tag1: [u8; 32],
    pub tag2: [u8; 32],
    pub file_uri: String,
    pub file_hash: [u8; 32],
}

/// Notification that feedback is revoked.
#[derive(Clone, Copy, Debug, PartialEq, Eq)]
pub struct FeedbackRevoked {
    pub agent_id: u64,
    pub client_address: Address,
    pub feedback_index: u64,
}

/// Notification that a response is appended to feedback.
#[derive(Clone, Debug, PartialEq, Eq)]
pub struct ResponseAppended {
    pub agent_id: u64,
    pub client_address: Address,
    pub feedback_index: u64,
    pub response_index: u64,
    pub responder: Address,
    pub response_uri: String,
}

} // verus!
