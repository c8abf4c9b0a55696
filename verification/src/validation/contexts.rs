use crate::address::Address;
use crate::validation::state::{StoredRecord, ValidationConfig, ValidationRequest};
use vstd::prelude::*;

verus! {

/// What `initialize` works on.
#[derive(Clone, Debug, PartialEq, Eq)]
pub struct Initialize {
    /// The configuration record; `None` while it does not exist.
    pub config: Option<ValidationConfig>,
    /// The caller, who becomes the registry authority.
    pub authority: Address,
    /// Bump seed of the configuration record's address.
    pub config_bump: u8,
}

/// What `request_validation` works on.
#[derive(Clone, Debug, PartialEq, Eq)]
pub struct RequestValidation {
    /// The configuration record.
    pub config: ValidationConfig,
    /// The caller: must be the agent's owner.
    pub requester: Address,
    /// The agent record, as the identity ledger stores it.
    pub agent_account: StoredRecord,
    /// The request record to create; `None` while it does not exist.
    pub validation_request: Option<ValidationRequest>,
    /// Bump seed of the request record's address.
    pub validation_request_bump: u8,
}

/// What `respond_to_validation` and `update_validation` work on.
#[derive(Clone, Debug, PartialEq, Eq)]
pub struct RespondToValidation {
    /// The configuration record.
    pub config: ValidationConfig,
    /// The caller: must be the request's validator.
    pub validator: Address,
    /// The request record; `None` when there is none.
    pub validation_request: Option<ValidationRequest>,
}

/// What `close_validation` works on.
#[derive(Clone, Debug, PartialEq, Eq)]
pub struct CloseValidation {
    /// The caller: the agent's owner or the registry authority.
    pub authority: Address,
    /// The configuration record.
    pub config: ValidationConfig,
    /// The agent record, as the identity ledger stores it.
    pub agent_account: StoredRecord,
    /// The request record to remove; `None` when there is none.
    pub validation_request: Option<ValidationRequest>,
    /// Who gets back what the record reserved.
    pub rent_receiver: Address,
}

} // verus!
