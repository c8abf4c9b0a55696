use crate::address::Address;
use vstd::bytes::{spec_u64_from_le_bytes, u64_from_le_bytes};
use vstd::prelude::*;
use vstd::slice::slice_subrange;

verus! {

/// Global validation registry configuration.
#[derive(Clone, Copy, Debug, PartialEq, Eq)]
pub struct ValidationConfig {
    /// Registry authority.
    pub authority: Address,
    /// The identity ledger whose agent records are read.
    pub identity_registry: Address,
    /// Total validation requests created.
    pub total_requests: u64,
    /// Total validation responses recorded: first responses only.
    pub total_responses: u64,
    /// Bump seed of the record's address.
    pub bump: u8,
}

impl ValidationConfig {
    /// Stored size: authority, identity_registry, total_requests,
    /// total_responses, bump.
    pub const SIZE: usize = 32 + 32 + 8 + 8 + 1;
}

/// The response hash of a request without response: 32 zero bytes.
pub open spec fn no_response_hash() -> [u8; 32] {
    vstd::array::spec_array_fill_for_copy_type(0u8)
}

/// Individual validation request: one (agent, validator, nonce) case.
#[derive(Clone, Copy, Debug, PartialEq, Eq)]
pub struct ValidationRequest {
    /// Agent id from the identity ledger.
    pub agent_id: u64,
    /// Validator address (who can respond).
    pub validator_address: Address,
    /// Nonce: tells apart the cases of one validator on one agent.
    pub nonce: u32,
    /// Hash of the request content.
    pub request_hash: [u8; 32],
    /// Hash of the response content; zero until the validator responds.
    pub response_hash: [u8; 32],
    /// Current response value (0-100; 0 while pending).
    pub response: u8,
    /// Timestamp of request creation.
    pub created_at: i64,
    /// Timestamp of last response (0 if no response yet).
    pub responded_at: i64,
    /// Bump seed of the record's address.
    pub bump: u8,
}

impl ValidationRequest {
    /// Stored size: agent_id, validator_address, nonce, request_hash,
    /// response_hash, response, created_at, responded_at, bump.
    pub const SIZE: usize = 8 + 32 + 4 + 32 + 32 + 1 + 8 + 8 + 1;

    /// Maximum URI length (validated, not stored).
    pub const MAX_URI_LENGTH: usize = 200;

    /// Check if validation has been responded to.
    pub fn has_response(&self) -> (r: bool)
        ensures
            r == (self.responded_at > 0),
    {
        self.responded_at > 0
    }

    /// Check if response is pending.
    pub fn is_pending(&self) -> (r: bool)
        ensures
            r == (self.responded_at == 0),
    {
        self.responded_at == 0
    }
}

/// A record of another ledger, as it is stored.
#[derive(Clone, Debug, PartialEq, Eq)]
pub struct StoredRecord {
    /// The ledger that the record belongs to.
    pub owner: Address,
    /// The record's bytes.
    pub data: Vec<u8>,
}

/// Number of bytes of a stored agent record that hold its discriminator,
/// its agent id and its owner.
pub const AGENT_HEADER_LEN: usize = 8 + 8 + 32;

/// The start of a stored agent record: after 8 bytes of discriminator come
/// the agent id, as 8 bytes little-endian, and the 32 bytes of the owner.
pub ghost struct AgentHeader {
    pub agent_id: u64,
    pub owner: Seq<u8>,
}

/// The agent id and owner that a stored agent record starts with; `None`
/// for fewer than 48 bytes.
pub open spec fn agent_header(data: Seq<u8>) -> Option<AgentHeader> {
    if data.len() < AGENT_HEADER_LEN {
        None
    } else {
        Some(
            AgentHeader {
                agent_id: spec_u64_from_le_bytes(data.subrange(8, 16)),
                owner: data.subrange(16, 48),
            },
        )
    }
}

/// Reads the agent id and the owner off a stored agent record.
pub fn read_agent_header(data: &[u8]) -> (r: Option<(u64, Address)>)
    ensures
        match r {
            Some((agent_id, owner)) => agent_header(data@) == Some(
                AgentHeader { agent_id, owner: owner@ },
            ),
            None => agent_header(data@) is None,
        },
{
    if data.len() < AGENT_HEADER_LEN {
        return None;
    }
    let agent_id = u64_from_le_bytes(slice_subrange(data, 8, 16));
    match Address::from_slice(slice_subrange(data, 16, 48)) {
        Some(owner) => Some((agent_id, owner)),
        None => None,
    }
}

} // verus!
