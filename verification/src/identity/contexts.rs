use crate::address::Address;
use crate::identity::state::{AgentAccount, MetadataExtension, RegistryConfig, TokenAccount};
use vstd::prelude::*;

verus! {

/// What `initialize` works on.
#[derive(Clone, Debug, PartialEq, Eq)]
pub struct Initialize {
    /// The configuration record; `None` while it does not exist.
    pub config: Option<RegistryConfig>,
    /// Mint of the collection.
    pub collection_mint: Address,
    /// The caller, who becomes the registry authority.
    pub authority: Address,
    /// Bump seed of the configuration record's address.
    pub config_bump: u8,
}

/// What the `register` family works on.
#[derive(Clone, Debug, PartialEq, Eq)]
pub struct Register {
    /// The configuration record.
    pub config: RegistryConfig,
    /// Registry authority: must be the one that the configuration names.
    pub authority: Address,
    /// The agent record to create; `None` while it does not exist.
    pub agent_account: Option<AgentAccount>,
    /// Mint of the agent's ownership token.
    pub agent_mint: Address,
    /// Mint of the collection: must be the one that the configuration names.
    pub collection_mint: Address,
    /// The caller, who becomes the agent's owner.
    pub owner: Address,
    /// Bump seed of the agent record's address.
    pub agent_account_bump: u8,
}

/// What `get_metadata` works on.
#[derive(Clone, Debug, PartialEq, Eq)]
pub struct GetMetadata {
    pub agent_account: AgentAccount,
}

/// What `set_metadata` works on.
#[derive(Clone, Debug, PartialEq, Eq)]
pub struct SetMetadata {
    pub agent_account: AgentAccount,
    /// The caller.
    pub owner: Address,
}

/// What `set_agent_uri` works on.
#[derive(Clone, Debug, PartialEq, Eq)]
pub struct SetAgentUri {
    pub agent_account: AgentAccount,
    /// The caller.
    pub owner: Address,
}

/// What `sync_owner` works on.
#[derive(Clone, Debug, PartialEq, Eq)]
pub struct SyncOwner {
    pub agent_account: AgentAccount,
    /// The holding of the agent's token, as the ownership oracle reports it.
    pub token_account: TokenAccount,
}

/// What `create_metadata_extension` works on.
#[derive(Clone, Debug, PartialEq, Eq)]
pub struct CreateMetadataExtension {
    /// The extension record to create; `None` while it does not exist.
    pub metadata_extension: Option<MetadataExtension>,
    /// Mint of the agent that the extension is for.
    pub agent_mint: Address,
    /// The agent record, to verify ownership.
    pub agent_account: AgentAccount,
    /// The caller.
    pub owner: Address,
    /// Bump seed of the extension record's address.
    pub metadata_extension_bump: u8,
}

/// What `set_metadata_extended` works on.
#[derive(Clone, Debug, PartialEq, Eq)]
pub struct SetMetadataExtended {
    /// The extension record; `None` when there is none.
    pub metadata_extension: Option<MetadataExtension>,
    /// Mint of the agent that the extension is for.
    pub agent_mint: Address,
    /// The agent record, to verify ownership.
    pub agent_account: AgentAccount,
    /// The caller.
    pub owner: Address,
}

/// What `get_metadata_extended` works on.
#[derive(Clone, Debug, PartialEq, Eq)]
pub struct GetMetadataExtended {
    /// The extension record; `None` when there is none.
    pub metadata_extension: Option<MetadataExtension>,
    /// Mint of the agent that the extension is for.
    pub agent_mint: Address,
}

/// What `transfer_agent` works on.
#[derive(Clone, Debug, PartialEq, Eq)]
pub struct TransferAgent {
    pub agent_account: AgentAccount,
    /// Source holding.
    pub from_token_account: TokenAccount,
    /// Destination holding.
    pub to_token_account: TokenAccount,
    /// The caller.
    pub owner: Address,
}

} // verus!
