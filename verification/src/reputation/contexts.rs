use crate::address::Address;
use crate::reputation::state::{
    AgentAccountStub, AgentReputationMetadata, ClientIndexAccount, FeedbackAccount,
    ResponseAccount, ResponseIndexAccount,
};
use vstd::prelude::*;

verus! {

/// What `initialize` works on: nothing.
#[derive(Clone, Copy, Debug, PartialEq, Eq)]
pub struct Initialize {
}

/// What `give_feedback` works on.
#[derive(Clone, Debug, PartialEq, Eq)]
pub struct GiveFeedback {
    /// The caller, who is the author of the feedback.
    pub client: Address,
    /// The agent record as the identity ledger holds it; `None` when there is none.
    pub agent_account: Option<AgentAccountStub>,
    /// The caller's sequence on this agent; `None` before the first feedback.
    pub client_index: Option<ClientIndexAccount>,
    /// The feedback record to create; `None` while it does not exist.
    pub feedback_account: Option<FeedbackAccount>,
    /// The agent's statistics; `None` before the agent's first feedback.
    pub agent_reputation: Option<AgentReputationMetadata>,
    /// Bump seed of the sequence record's address.
    pub client_index_bump: u8,
    /// Bump seed of the feedback record's address.
    pub feedback_account_bump: u8,
    /// Bump seed of the statistics record's address.
    pub agent_reputation_bump: u8,
}

/// What `revoke_feedback` works on.
#[derive(Clone, Debug, PartialEq, Eq)]
pub struct RevokeFeedback {
    /// The caller.
    pub client: Address,
    /// The feedback record to revoke; `None` when there is none.
    pub feedback_account: Option<FeedbackAccount>,
    /// The agent's statistics.
    pub agent_reputation: AgentReputationMetadata,
}

/// What `append_response` works on.
#[derive(Clone, Debug, PartialEq, Eq)]
pub struct AppendResponse {
    /// The caller: anyone.
    pub responder: Address,
    /// The feedback record responded to; `None` when there is none.
    pub feedback_account: Option<FeedbackAccount>,
    /// The feedback's response sequence; `None` before the first response.
    pub response_index: Option<ResponseIndexAccount>,
    /// The response record to create; `None` while it does not exist.
    pub response_account: Option<ResponseAccount>,
    /// Bump seed of the sequence record's address.
    pub response_index_bump: u8,
    /// Bump seed of the response record's address.
    pub response_account_bump: u8,
}

} // verus!
