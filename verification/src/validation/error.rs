use vstd::prelude::*;

verus! {

/// Why the validation ledger refused a request.
#[derive(Clone, Copy, Debug, PartialEq, Eq, Structural)]
pub enum ValidationError {
    /// Request URI exceeds maximum length of 200 bytes.
    RequestUriTooLong,
    /// Response URI exceeds maximum length of 200 bytes.
    ResponseUriTooLong,
    /// Response must be between 0 and 100.
    InvalidResponse,
    /// Only the designated validator can respond to this request.
    UnauthorizedValidator,
    /// Only the agent owner can create validation requests.
    UnauthorizedRequester,
    /// Agent not found in Identity Registry.
    AgentNotFound,
    /// Validation request not found.
    RequestNotFound,
    /// Arithmetic overflow occurred.
    Overflow,
    /// Invalid nonce value.
    InvalidNonce,
    /// Request hash mismatch.
    RequestHashMismatch,
    /// The record to create already exists.
    AlreadyInitialized,
}

impl ValidationError {
    /// The text that describes the error to a caller.
    pub open spec fn spec_message(self) -> Seq<char> {
        match self {
            ValidationError::RequestUriTooLong => "Request URI exceeds maximum length of 200 bytes"@,
            ValidationError::ResponseUriTooLong => "Response URI exceeds maximum length of 200 bytes"@,
            ValidationError::InvalidResponse => "Response must be between 0 and 100"@,
            ValidationError::UnauthorizedValidator => "Only the designated validator can respond to this request"@,
            ValidationError::UnauthorizedRequester => "Only the agent owner can create validation requests"@,
            ValidationError::AgentNotFound => "Agent not found in Identity Registry"@,
            ValidationError::RequestNotFound => "Validation request not found"@,
            ValidationError::Overflow => "Arithmetic overflow occurred"@,
            ValidationError::InvalidNonce => "Invalid nonce value"@,
            ValidationError::RequestHashMismatch => "Request hash mismatch"@,
            ValidationError::AlreadyInitialized => "Record is already initialized"@,
        }
    }

    pub fn message(&self) -> (r: &'static str)
        ensures
            r@ == self.spec_message(),
    {
        match self {
            ValidationError::RequestUriTooLong => "Request URI exceeds maximum length of 200 bytes",
            ValidationError::ResponseUriTooLong => "Response URI exceeds maximum length of 200 bytes",
            ValidationError::InvalidResponse => "Response must be between 0 and 100",
            ValidationError::UnauthorizedValidator => "Only the designated validator can respond to this request",
            ValidationError::UnauthorizedRequester => "Only the agent owner can create validation requests",
            ValidationError::AgentNotFound => "Agent not found in Identity Registry",
            ValidationError::RequestNotFound => "Validation request not found",
            ValidationError::Overflow => "Arithmetic overflow occurred",
            ValidationError::InvalidNonce => "Invalid nonce value",
            ValidationError::RequestHashMismatch => "Request hash mismatch",
            ValidationError::AlreadyInitialized => "Record is already initialized",
        }
    }
}

} // verus!
