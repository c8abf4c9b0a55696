use crate::address::Address;
use vstd::prelude::*;

verus! {

/// Notification that validation is requested.
#[derive(Clone, Debug, PartialEq, Eq)]
pub struct ValidationRequested {
    pub agent_id: u64,
    pub validator_address: Address,
    pub nonce: u32,
    pub request_uri: String,
    pub request_hash: [u8; 32],
    pub requester: Address,
    pub created_at: i64,
}

/// Notification that a validator responded.
#[derive(Clone, Debug, PartialEq, Eq)]
pub struct ValidationResponded {
    pub agent_id: u64,
    pub validator_address: Address,
    pub nonce: u32,
    pub response: u8,
    pub response_uri: String,
    pub response_hash: [u8; 32],
    pub tag: [u8; 32],
    pub responded_at: i64,
}

} // verus!
