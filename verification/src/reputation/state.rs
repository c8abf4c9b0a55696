use crate::address::Address;
use crate::reputation::error::ReputationError;
use crate::text::byte_len;
use vstd::prelude::*;

verus! {

/// Feedback account: one per feedback of a client on an agent.
#[derive(Clone, Debug, PartialEq, Eq)]
pub struct FeedbackAccount {
    /// Agent id from the identity ledger.
    pub agent_id: u64,
    /// Client who gave the feedback.
    pub client_address: Address,
    /// Sequential index among this client's feedbacks on this agent.
    pub feedback_index: u64,
    /// Score (0-100).
    pub score: u8,
    /// First tag.
    pub tag1: [u8; 32],
    /// Second tag.
    pub tag2: [u8; 32],
    /// File URI (max 200 bytes).
    pub file_uri: String,
    /// File hash.
    pub file_hash: [u8; 32],
    /// Revocation status; the record itself stays.
    pub is_revoked: bool,
    /// Creation timestamp.
    pub created_at: i64,
    /// Bump seed of the record's address.
    pub bump: u8,
}

impl FeedbackAccount {
    /// Maximum stored size: discriminator, agent_id, client_address,
    /// feedback_index, score, tag1, tag2, length prefix and file_uri,
    /// file_hash, is_revoked, created_at, bump.
    pub const MAX_SIZE: usize = 8 + 8 + 32 + 8 + 1 + 32 + 32 + 4 + 200 + 32 + 1 + 8 + 1;

    /// Maximum URI length.
    pub const MAX_URI_LENGTH: usize = 200;

    /// The bytes that the record takes when stored: a discriminator of 8
    /// bytes, then the fields in order, the URI behind a length prefix of 4
    /// bytes.
    pub open spec fn stored_size(self) -> nat {
        8 + 8 + 32 + 8 + 1 + 32 + 32 + 4 + byte_len(self.file_uri@) + 32 + 1 + 8 + 1
    }

    /// The record is within its limits: a score of at most 100 and a URI of
    /// at most 200 bytes.
    pub open spec fn within_limits(self) -> bool {
        self.score <= 100 && byte_len(self.file_uri@) <= Self::MAX_URI_LENGTH
    }

    /// The record with its revocation mark set.
    pub open spec fn revoked(self) -> FeedbackAccount {
        FeedbackAccount { is_revoked: true, ..self }
    }
}

/// Response account: one per response to a feedback.
#[derive(Clone, Debug, PartialEq, Eq)]
pub struct ResponseAccount {
    /// Agent id.
    pub agent_id: u64,
    /// Client who gave the feedback responded to.
    pub client_address: Address,
    /// Index of the feedback responded to.
    pub feedback_index: u64,
    /// Sequential response index for this feedback.
    pub response_index: u64,
    /// Who responded.
    pub responder: Address,
    /// Response URI (max 200 bytes).
    pub response_uri: String,
    /// Response hash.
    pub response_hash: [u8; 32],
    /// Creation timestamp.
    pub created_at: i64,
    /// Bump seed of the record's address.
    pub bump: u8,
}

impl ResponseAccount {
    /// Maximum stored size: discriminator, agent_id, client_address,
    /// feedback_index, response_index, responder, length prefix and
    /// response_uri, response_hash, created_at, bump.
    pub const MAX_SIZE: usize = 8 + 8 + 32 + 8 + 8 + 32 + 4 + 200 + 32 + 8 + 1;

    /// Maximum URI length.
    pub const MAX_URI_LENGTH: usize = 200;

    /// The bytes that the record takes when stored: a discriminator of 8
    /// bytes, then the fields in order, the URI behind a length prefix of 4
    /// bytes.
    pub open spec fn stored_size(self) -> nat {
        8 + 8 + 32 + 8 + 8 + 32 + 4 + byte_len(self.response_uri@) + 32 + 8 + 1
    }
}

/// Client index account: the next feedback index of a client on an agent.
#[derive(Clone, Copy, Debug, PartialEq, Eq)]
pub struct ClientIndexAccount {
    /// Agent id.
    pub agent_id: u64,
    /// Client address.
    pub client_address: Address,
    /// The index that the next feedback will use.
    pub last_index: u64,
    /// Bump seed of the record's address.
    pub bump: u8,
}

impl ClientIndexAccount {
    /// Stored size: discriminator, agent_id, client_address, last_index, bump.
    pub const SIZE: usize = 8 + 8 + 32 + 8 + 1;
}

/// Agent reputation metadata: cached running statistics of an agent.
#[derive(Clone, Copy, Debug, PartialEq, Eq)]
pub struct AgentReputationMetadata {
    /// Agent id.
    pub agent_id: u64,
    /// Total non-revoked feedbacks.
    pub total_feedbacks: u64,
    /// Sum of all non-revoked scores.
    pub total_score_sum: u64,
    /// Average score, recomputed from the sum and the count.
    pub average_score: u8,
    /// Last update timestamp.
    pub last_updated: i64,
    /// Bump seed of the record's address.
    pub bump: u8,
}

impl AgentReputationMetadata {
    /// Stored size: discriminator, agent_id, total_feedbacks,
    /// total_score_sum, average_score, last_updated, bump.
    pub const SIZE: usize = 8 + 8 + 8 + 8 + 1 + 8 + 1;

    /// The average that goes with a sum and a count: the quotient rounded
    /// down, 0 for no feedback; kept to the 8 bits of the field.
    pub open spec fn average_of(total_score_sum: u64, total_feedbacks: u64) -> u8 {
        if total_feedbacks == 0 {
            0
        } else {
            (total_score_sum / total_feedbacks) as u8
        }
    }

    /// The statistics of an agent after its first feedback.
    pub open spec fn first(
        agent_id: u64,
        score: u8,
        now: i64,
        bump: u8,
    ) -> AgentReputationMetadata {
        AgentReputationMetadata {
            agent_id,
            total_feedbacks: 1,
            total_score_sum: score as u64,
            average_score: Self::average_of(score as u64, 1),
            last_updated: now,
            bump,
        }
    }

    /// One more feedback can be counted without overflow.
    pub open spec fn can_add(self, score: u8) -> bool {
        self.total_feedbacks < u64::MAX && self.total_score_sum + score <= u64::MAX
    }

    /// The statistics with one more feedback counted.
    pub open spec fn with_feedback(self, score: u8, now: i64) -> AgentReputationMetadata
        recommends
            self.can_add(score),
    {
        let count = (self.total_feedbacks + 1) as u64;
        let sum = (self.total_score_sum + score) as u64;
        AgentReputationMetadata {
            total_feedbacks: count,
            total_score_sum: sum,
            average_score: Self::average_of(sum, count),
            last_updated: now,
            ..self
        }
    }

    /// One feedback can be taken out without underflow.
    pub open spec fn can_remove(self, score: u8) -> bool {
        self.total_feedbacks >= 1 && self.total_score_sum >= score
    }

    /// The statistics with one feedback taken out.
    pub open spec fn without_feedback(self, score: u8, now: i64) -> AgentReputationMetadata
        recommends
            self.can_remove(score),
    {
        let count = (self.total_feedbacks - 1) as u64;
        let sum = (self.total_score_sum - score) as u64;
        AgentReputationMetadata {
            total_feedbacks: count,
            total_score_sum: sum,
            average_score: Self::average_of(sum, count),
            last_updated: now,
            ..self
        }
    }

    /// Computes the average that goes with a sum and a count.
    pub fn average(total_score_sum: u64, total_feedbacks: u64) -> (r: u8)
        ensures
            r == Self::average_of(total_score_sum, total_feedbacks),
    {
        if total_feedbacks == 0 {
            0
        } else {
            #[verifier::truncate]
            ((total_score_sum / total_feedbacks) as u8)
        }
    }
}

/// Response index account: the next response index of a feedback.
#[derive(Clone, Copy, Debug, PartialEq, Eq)]
pub struct ResponseIndexAccount {
    /// Agent id.
    pub agent_id: u64,
    /// Client address.
    pub client_address: Address,
    /// Feedback index.
    pub feedback_index: u64,
    /// Next response index to use.
    pub next_index: u64,
    /// Bump seed of the record's address.
    pub bump: u8,
}

impl ResponseIndexAccount {
    /// Stored size: discriminator, agent_id, client_address, feedback_index,
    /// next_index, bump.
    pub const SIZE: usize = 8 + 8 + 32 + 8 + 8 + 1;
}

/// The part of an agent record that the reputation ledger reads.
#[derive(Clone, Copy, Debug, PartialEq, Eq)]
pub struct AgentAccountStub {
    pub agent_id: u64,
}

/// Feedback authorization: an agent owner's leave for a client to give feedback.
#[derive(Clone, Debug, PartialEq, Eq)]
pub struct FeedbackAuth {
    /// Agent id this authorization is for.
    pub agent_id: u64,
    /// Client address authorized to give feedback.
    pub client_address: Address,
    /// Maximum number of feedbacks this client can submit.
    pub index_limit: u64,
    /// Expiry timestamp (Unix epoch seconds).
    pub expiry: i64,
    /// Chain identifier.
    pub chain_id: String,
    /// Identity ledger program.
    pub identity_registry: Address,
    /// Signer address (agent owner or delegate).
    pub signer_address: Address,
    /// Signature over the other fields.
    pub signature: [u8; 64],
}

impl FeedbackAuth {
    /// Why the authorization does not cover a feedback of `client` at
    /// `current_index` and `current_time`, if it does not. The checks come
    /// in this order.
    pub open spec fn rejection(
        self,
        client: Address,
        current_index: u64,
        current_time: i64,
    ) -> Option<ReputationError> {
        if self.client_address != client {
            Some(ReputationError::FeedbackAuthClientMismatch)
        } else if current_time >= self.expiry {
            Some(ReputationError::FeedbackAuthExpired)
        } else if current_index >= self.index_limit {
            Some(ReputationError::FeedbackAuthIndexLimitExceeded)
        } else {
            None
        }
    }

    /// Checks that the authorization names the client, is not expired and
    /// that the index is below its limit. The signature is not examined.
    pub fn verify(&self, client: &Address, current_index: u64, current_time: i64) -> (r: Result<(), ReputationError>)
        ensures
            match r {
                Ok(_) => self.rejection(*client, current_index, current_time) is None,
                Err(e) => self.rejection(*client, current_index, current_time) == Some(e),
            },
    {
        if self.client_address != *client {
            return Err(ReputationError::FeedbackAuthClientMismatch);
        }
        if current_time >= self.expiry {
            return Err(ReputationError::FeedbackAuthExpired);
        }
        if current_index >= self.index_limit {
            return Err(ReputationError::FeedbackAuthIndexLimitExceeded);
        }
        Ok(())
    }
}

} // verus!
