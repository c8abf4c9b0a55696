use crate::address::Address;
use crate::identity::state::{MetadataEntry, MetadataEntryView};
use vstd::prelude::*;

verus! {

/// Notification that a new agent is registered.
#[derive(Clone, Debug, PartialEq, Eq)]
pub struct Registered {
    pub agent_id: u64,
    pub token_uri: String,
    pub owner: Address,
    pub agent_mint: Address,
}

/// What a `Registered` notification holds.
pub ghost struct RegisteredView {
    pub agent_id: u64,
    pub token_uri: Seq<char>,
    pub owner: Address,
    pub agent_mint: Address,
}

impl View for Registered {
    type V = RegisteredView;

    open spec fn view(&self) -> RegisteredView {
        RegisteredView {
            agent_id: self.agent_id,
            token_uri: self.token_uri@,
            owner: self.owner,
            agent_mint: self.agent_mint,
        }
    }
}

/// Notification that a metadata entry of an agent is set.
#[derive(Clone, Debug, PartialEq, Eq)]
pub struct MetadataSet {
    pub agent_id: u64,
    /// The key once more, for indexing.
    pub indexed_key: String,
    pub key: String,
    pub value: Vec<u8>,
}

/// What a `MetadataSet` notification holds.
pub ghost struct MetadataSetView {
    pub agent_id: u64,
    pub indexed_key: Seq<char>,
    pub key: Seq<char>,
    pub value: Seq<u8>,
}

impl View for MetadataSet {
    type V = MetadataSetView;

    open spec fn view(&self) -> MetadataSetView {
        MetadataSetView {
            agent_id: self.agent_id,
            indexed_key: self.indexed_key@,
            key: self.key@,
            value: self.value@,
        }
    }
}

impl MetadataSet {
    /// The notification for one entry of an agent.
    pub open spec fn of_entry(agent_id: u64, entry: MetadataEntryView) -> MetadataSetView {
        MetadataSetView { agent_id, indexed_key: entry.key, key: entry.key, value: entry.value }
    }

    /// Builds the notification for one entry of an agent.
    pub fn for_entry(agent_id: u64, entry: &MetadataEntry) -> (r: MetadataSet)
        ensures
            r@ == Self::of_entry(agent_id, entry@),
    {
        MetadataSet {
            agent_id,
            indexed_key: entry.key.clone(),
            key: entry.key.clone(),
            value: entry.value.clone(),
        }
    }
}

/// Notification that the URI of an agent is replaced.
#[derive(Clone, Debug, PartialEq, Eq)]
pub struct UriUpdated {
    pub agent_id: u64,
    pub new_uri: String,
    /// Who performed the update.
    pub updated_by: Address,
}

/// What a `UriUpdated` notification holds.
pub ghost struct UriUpdatedView {
    pub agent_id: u64,
    pub new_uri: Seq<char>,
    pub updated_by: Address,
}

impl View for UriUpdated {
    type V = UriUpdatedView;

    open spec fn view(&self) -> UriUpdatedView {
        UriUpdatedView { agent_id: self.agent_id, new_uri: self.new_uri@, updated_by: self.updated_by }
    }
}

/// Notification that the recorded owner of an agent follows its token.
#[derive(Clone, Copy, Debug, PartialEq, Eq)]
pub struct AgentOwnerSynced {
    pub agent_id: u64,
    pub old_owner: Address,
    pub new_owner: Address,
    pub agent_mint: Address,
}

} // verus!
