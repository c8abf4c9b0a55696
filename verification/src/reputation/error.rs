use vstd::prelude::*;

verus! {

/// Why the reputation ledger refused a request.
#[derive(Clone, Copy, Debug, PartialEq, Eq, Structural)]
pub enum ReputationError {
    /// Score must be between 0 and 100.
    InvalidScore,
    /// File URI exceeds maximum length of 200 bytes.
    UriTooLong,
    /// Response URI exceeds maximum length of 200 bytes.
    ResponseUriTooLong,
    /// Only feedback author can revoke.
    Unauthorized,
    /// Feedback already revoked.
    AlreadyRevoked,
    /// Arithmetic overflow occurred.
    Overflow,
    /// Agent not found in Identity Registry.
    AgentNotFound,
    /// Feedback not found.
    FeedbackNotFound,
    /// Invalid feedback index.
    InvalidFeedbackIndex,
    /// Response not found.
    ResponseNotFound,
    /// FeedbackAuth client_address does not match signer.
    FeedbackAuthClientMismatch,
    /// FeedbackAuth expired.
    FeedbackAuthExpired,
    /// FeedbackAuth index_limit exceeded.
    FeedbackAuthIndexLimitExceeded,
    /// FeedbackAuth signature invalid.
    InvalidFeedbackAuthSignature,
    /// FeedbackAuth signer is not agent owner.
    UnauthorizedSigner,
    /// The record to create already exists.
    AlreadyInitialized,
}

impl ReputationError {
    /// The text that describes the error to a caller.
    pub open spec fn spec_message(self) -> Seq<char> {
        match self {
            ReputationError::InvalidScore => "Score must be between 0 and 100"@,
            ReputationError::UriTooLong => "File URI exceeds maximum length of 200 bytes"@,
            ReputationError::ResponseUriTooLong => "Response URI exceeds maximum length of 200 bytes"@,
            ReputationError::Unauthorized => "Only feedback author can revoke"@,
            ReputationError::AlreadyRevoked => "Feedback already revoked"@,
            ReputationError::Overflow => "Arithmetic overflow occurred"@,
            ReputationError::AgentNotFound => "Agent not found in Identity Registry"@,
            ReputationError::FeedbackNotFound => "Feedback not found"@,
            ReputationError::InvalidFeedbackIndex => "Invalid feedback index"@,
            ReputationError::ResponseNotFound => "Response not found"@,
            ReputationError::FeedbackAuthClientMismatch => "FeedbackAuth client_address does not match signer"@,
            ReputationError::FeedbackAuthExpired => "FeedbackAuth expired"@,
            ReputationError::FeedbackAuthIndexLimitExceeded => "FeedbackAuth index_limit exceeded"@,
            ReputationError::InvalidFeedbackAuthSignature => "FeedbackAuth signature invalid"@,
            ReputationError::UnauthorizedSigner => "FeedbackAuth signer is not agent owner"@,
            ReputationError::AlreadyInitialized => "Record is already initialized"@,
        }
    }

    pub fn message(&self) -> (r: &'static str)
        ensures
            r@ == self.spec_message(),
    {
        match self {
            ReputationError::InvalidScore => "Score must be between 0 and 100",
            ReputationError::UriTooLong => "File URI exceeds maximum length of 200 bytes",
            ReputationError::ResponseUriTooLong => "Response URI exceeds maximum length of 200 bytes",
            ReputationError::Unauthorized => "Only feedback author can revoke",
            ReputationError::AlreadyRevoked => "Feedback already revoked",
            ReputationError::Overflow => "Arithmetic overflow occurred",
            ReputationError::AgentNotFound => "Agent not found in Identity Registry",
            ReputationError::FeedbackNotFound => "Feedback not found",
            ReputationError::InvalidFeedbackIndex => "Invalid feedback index",
            ReputationError::ResponseNotFound => "Response not found",
            ReputationError::FeedbackAuthClientMismatch => "FeedbackAuth client_address does not match signer",
            ReputationError::FeedbackAuthExpired => "FeedbackAuth expired",
            ReputationError::FeedbackAuthIndexLimitExceeded => "FeedbackAuth index_limit exceeded",
            ReputationError::InvalidFeedbackAuthSignature => "FeedbackAuth signature invalid",
            ReputationError::UnauthorizedSigner => "FeedbackAuth signer is not agent owner",
            ReputationError::AlreadyInitialized => "Record is already initialized",
        }
    }
}

} // verus!
