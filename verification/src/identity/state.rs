use crate::address::Address;
use crate::text::byte_len;
use vstd::prelude::*;

verus! {

/// Global registry configuration.
#[derive(Clone, Copy, Debug, PartialEq, Eq)]
pub struct RegistryConfig {
    /// Registry authority (admin).
    pub authority: Address,
    /// Next agent id to assign (sequential counter).
    pub next_agent_id: u64,
    /// Total agents registered.
    pub total_agents: u64,
    /// Mint of the collection that all agents are part of.
    pub collection_mint: Address,
    /// Bump seed of the record's address.
    pub bump: u8,
}

impl RegistryConfig {
    /// Stored size: authority, next_agent_id, total_agents, collection_mint, bump.
    pub const SIZE: usize = 32 + 8 + 8 + 32 + 1;
}

/// Metadata entry (key-value pair).
#[derive(Debug, PartialEq, Eq)]
pub struct MetadataEntry {
    /// Metadata key (max 32 bytes).
    pub key: String,
    /// Metadata value (arbitrary bytes, max 256 bytes).
    pub value: Vec<u8>,
}

/// What a metadata entry holds.
pub ghost struct MetadataEntryView {
    pub key: Seq<char>,
    pub value: Seq<u8>,
}

impl View for MetadataEntry {
    type V = MetadataEntryView;

    open spec fn view(&self) -> MetadataEntryView {
        MetadataEntryView { key: self.key@, value: self.value@ }
    }
}

impl Clone for MetadataEntry {
    fn clone(&self) -> (r: MetadataEntry)
        ensures
            r@ == self@,
    {
        MetadataEntry { key: self.key.clone(), value: self.value.clone() }
    }
}

impl MetadataEntry {
    /// Maximum stored size: length prefix and key, length prefix and value.
    pub const MAX_SIZE: usize = 4 + 32 + 4 + 256;

    /// Maximum key length in bytes.
    pub const MAX_KEY_LENGTH: usize = 32;

    /// Maximum value length in bytes.
    pub const MAX_VALUE_LENGTH: usize = 256;
}

/// What a list of metadata entries holds.
pub open spec fn entries_view(entries: Seq<MetadataEntry>) -> Seq<MetadataEntryView> {
    entries.map_values(|e: MetadataEntry| e@)
}

/// Entry `i` is the first one under `key`.
pub open spec fn is_first_match(entries: Seq<MetadataEntryView>, key: Seq<char>, i: int) -> bool {
    &&& 0 <= i < entries.len()
    &&& entries[i].key == key
    &&& forall|j: int| 0 <= j < i ==> entries[j].key != key
}

/// Where the first entry under `key` stands, if there is one.
pub open spec fn position_of(entries: Seq<MetadataEntryView>, key: Seq<char>) -> Option<int> {
    if exists|i: int| is_first_match(entries, key, i) {
        Some(choose|i: int| is_first_match(entries, key, i))
    } else {
        None
    }
}

/// The value stored under `key`: that of the first entry under it, and no
/// bytes when there is none.
pub open spec fn value_of(entries: Seq<MetadataEntryView>, key: Seq<char>) -> Seq<u8> {
    match position_of(entries, key) {
        Some(i) => entries[i].value,
        None => Seq::empty(),
    }
}

/// The entries after `key` is set to `value`: the first entry under the key
/// gets the value, and without one a new entry is put at the end.
pub open spec fn with_entry(
    entries: Seq<MetadataEntryView>,
    key: Seq<char>,
    value: Seq<u8>,
) -> Seq<MetadataEntryView> {
    match position_of(entries, key) {
        Some(i) => entries.update(i, MetadataEntryView { key: entries[i].key, value }),
        None => entries.push(MetadataEntryView { key, value }),
    }
}

/// The first entry under a key is the only first one.
pub proof fn lemma_position_found(entries: Seq<MetadataEntryView>, key: Seq<char>, i: int)
    requires
        is_first_match(entries, key, i),
    ensures
        position_of(entries, key) == Some(i),
{
    let j = choose|j: int| is_first_match(entries, key, j);
    assert(is_first_match(entries, key, j));
}

/// No entry under the key means no position.
pub proof fn lemma_position_absent(entries: Seq<MetadataEntryView>, key: Seq<char>)
    requires
        forall|j: int| 0 <= j < entries.len() ==> entries[j].key != key,
    ensures
        position_of(entries, key) is None,
{
}

/// Finds the first entry under `key`.
pub fn position(entries: &Vec<MetadataEntry>, key: &str) -> (r: Option<usize>)
    ensures
        match r {
            Some(i) => position_of(entries_view(entries@), key@) == Some(i as int),
            None => position_of(entries_view(entries@), key@) is None,
        },
{
    let probe = key.to_owned();
    let mut i: usize = 0;
    while i < entries.len()
        invariant
            i <= entries@.len(),
            probe@ == key@,
            forall|j: int| 0 <= j < i ==> entries_view(entries@)[j].key != key@,
        decreases entries@.len() - i,
    {
        if entries[i].key == probe {
            proof {
                lemma_position_found(entries_view(entries@), key@, i as int);
            }
            return Some(i);
        }
        i += 1;
    }
    proof {
        lemma_position_absent(entries_view(entries@), key@);
    }
    None
}

/// Agent account: one registered identity.
#[derive(Clone, Debug, PartialEq, Eq)]
pub struct AgentAccount {
    /// Sequential agent id, assigned once.
    pub agent_id: u64,
    /// Agent owner, as last recorded.
    pub owner: Address,
    /// Mint of the agent's ownership token.
    pub agent_mint: Address,
    /// Token URI (max 200 bytes).
    pub token_uri: String,
    /// Key-value metadata (max 10 entries).
    pub metadata: Vec<MetadataEntry>,
    /// Creation timestamp.
    pub created_at: i64,
    /// Bump seed of the record's address.
    pub bump: u8,
}

/// What an agent account holds.
pub ghost struct AgentAccountView {
    pub agent_id: u64,
    pub owner: Address,
    pub agent_mint: Address,
    pub token_uri: Seq<char>,
    pub metadata: Seq<MetadataEntryView>,
    pub created_at: i64,
    pub bump: u8,
}

impl MetadataEntryView {
    /// The entry is within its lengths: a key of at most 32 bytes and a
    /// value of at most 256.
    pub open spec fn within_limits(self) -> bool {
        byte_len(self.key) <= MetadataEntry::MAX_KEY_LENGTH && self.value.len()
            <= MetadataEntry::MAX_VALUE_LENGTH
    }
}

/// The bytes that a list of entries takes when stored, without the length
/// prefix of the list: each entry takes a length prefix of 4 bytes and its
/// key, and a length prefix of 4 bytes and its value.
pub open spec fn entries_stored_size(entries: Seq<MetadataEntryView>) -> nat
    decreases entries.len(),
{
    if entries.len() == 0 {
        0
    } else {
        entries_stored_size(entries.drop_last()) + 4 + byte_len(entries.last().key) + 4
            + entries.last().value.len()
    }
}

/// Every entry is within its lengths, and there are at most 10.
pub open spec fn entries_within_limits(entries: Seq<MetadataEntryView>) -> bool {
    &&& entries.len() <= AgentAccount::MAX_METADATA_ENTRIES
    &&& forall|i: int| 0 <= i < entries.len() ==> (#[trigger] entries[i]).within_limits()
}

impl AgentAccountView {
    /// The record is within its limits: a URI of at most 200 bytes and at
    /// most 10 entries, each within its lengths.
    pub open spec fn within_limits(self) -> bool {
        byte_len(self.token_uri) <= AgentAccount::MAX_URI_LENGTH && entries_within_limits(
            self.metadata,
        )
    }
}

impl AgentAccountView {
    /// The bytes that the record takes when stored: a discriminator of 8
    /// bytes, then the fields in order, numbers and addresses in their
    /// width, the URI and the list of entries behind a length prefix of 4
    /// bytes each.
    pub open spec fn stored_size(self) -> nat {
        8 + 8 + 32 + 32 + 4 + byte_len(self.token_uri) + 4 + entries_stored_size(self.metadata) + 8
            + 1
    }
}

impl View for AgentAccount {
    type V = AgentAccountView;

    open spec fn view(&self) -> AgentAccountView {
        AgentAccountView {
            agent_id: self.agent_id,
            owner: self.owner,
            agent_mint: self.agent_mint,
            token_uri: self.token_uri@,
            metadata: entries_view(self.metadata@),
            created_at: self.created_at,
            bump: self.bump,
        }
    }
}

impl AgentAccount {
    /// Maximum stored size: discriminator, agent_id, owner, agent_mint,
    /// length prefix and token_uri, length prefix and 10 entries, created_at, bump.
    pub const MAX_SIZE: usize = 8 + 8 + 32 + 32 + 4 + 200 + 4 + (10 * MetadataEntry::MAX_SIZE) + 8 + 1;

    /// Maximum number of metadata entries allowed.
    pub const MAX_METADATA_ENTRIES: usize = 10;

    /// Maximum token URI length in bytes.
    pub const MAX_URI_LENGTH: usize = 200;

    /// Find metadata entry by key.
    pub fn find_metadata(&self, key: &str) -> (r: Option<&MetadataEntry>)
        ensures
            match r {
                Some(entry) => match position_of(self@.metadata, key@) {
                    Some(i) => *entry == self.metadata@[i],
                    None => false,
                },
                None => position_of(self@.metadata, key@) is None,
            },
    {
        match position(&self.metadata, key) {
            Some(i) => Some(&self.metadata[i]),
            None => None,
        }
    }

    /// Find mutable metadata entry by key.
    pub fn find_metadata_mut(&mut self, key: &str) -> (r: Option<&mut MetadataEntry>)
        ensures
            match r {
                Some(entry) => match position_of(old(self)@.metadata, key@) {
                    Some(i) => {
                        &&& *entry == old(self).metadata@[i]
                        &&& final(self).metadata@ == old(self).metadata@.update(i, *final(entry))
                        &&& final(self).agent_id == old(self).agent_id
                        &&& final(self).owner == old(self).owner
                        &&& final(self).agent_mint == old(self).agent_mint
                        &&& final(self).token_uri == old(self).token_uri
                        &&& final(self).created_at == old(self).created_at
                        &&& final(self).bump == old(self).bump
                    },
                    None => false,
                },
                None => position_of(old(self)@.metadata, key@) is None && *final(self) == *old(self),
            },
    {
        match position(&self.metadata, key) {
            Some(i) => Some(&mut self.metadata[i]),
            None => None,
        }
    }
}

/// Metadata extension: a further segment of entries beyond the base 10.
#[derive(Clone, Debug, PartialEq, Eq)]
pub struct MetadataExtension {
    /// Mint of the agent that the segment belongs to.
    pub agent_mint: Address,
    /// Extension index (0, 1, 2, ...).
    pub extension_index: u8,
    /// Additional metadata entries (max 10 per extension).
    pub metadata: Vec<MetadataEntry>,
    /// Bump seed of the record's address.
    pub bump: u8,
}

/// What a metadata extension holds.
pub ghost struct MetadataExtensionView {
    pub agent_mint: Address,
    pub extension_index: u8,
    pub metadata: Seq<MetadataEntryView>,
    pub bump: u8,
}

impl MetadataExtensionView {
    /// The bytes that the record takes when stored: a discriminator of 8
    /// bytes, then the fields in order, the list of entries behind a length
    /// prefix of 4 bytes.
    pub open spec fn stored_size(self) -> nat {
        8 + 32 + 1 + 4 + entries_stored_size(self.metadata) + 1
    }
}

impl View for MetadataExtension {
    type V = MetadataExtensionView;

    open spec fn view(&self) -> MetadataExtensionView {
        MetadataExtensionView {
            agent_mint: self.agent_mint,
            extension_index: self.extension_index,
            metadata: entries_view(self.metadata@),
            bump: self.bump,
        }
    }
}

impl MetadataExtension {
    /// Maximum stored size: discriminator, agent_mint, extension_index,
    /// length prefix and 10 entries, bump.
    pub const MAX_SIZE: usize = 8 + 32 + 1 + 4 + (10 * MetadataEntry::MAX_SIZE) + 1;

    /// Maximum number of metadata entries per extension.
    pub const MAX_METADATA_ENTRIES: usize = 10;

    /// Find metadata entry by key.
    pub fn find_metadata(&self, key: &str) -> (r: Option<&MetadataEntry>)
        ensures
            match r {
                Some(entry) => match position_of(self@.metadata, key@) {
                    Some(i) => *entry == self.metadata@[i],
                    None => false,
                },
                None => position_of(self@.metadata, key@) is None,
            },
    {
        match position(&self.metadata, key) {
            Some(i) => Some(&self.metadata[i]),
            None => None,
        }
    }

    /// Find mutable metadata entry by key.
    pub fn find_metadata_mut(&mut self, key: &str) -> (r: Option<&mut MetadataEntry>)
        ensures
            match r {
                Some(entry) => match position_of(old(self)@.metadata, key@) {
                    Some(i) => {
                        &&& *entry == old(self).metadata@[i]
                        &&& final(self).metadata@ == old(self).metadata@.update(i, *final(entry))
                        &&& final(self).agent_mint == old(self).agent_mint
                        &&& final(self).extension_index == old(self).extension_index
                        &&& final(self).bump == old(self).bump
                    },
                    None => false,
                },
                None => position_of(old(self)@.metadata, key@) is None && *final(self) == *old(self),
            },
    {
        match position(&self.metadata, key) {
            Some(i) => Some(&mut self.metadata[i]),
            None => None,
        }
    }
}

/// What the ownership oracle reports of one token holding.
#[derive(Clone, Copy, Debug, PartialEq, Eq)]
pub struct TokenAccount {
    /// Address of the holding itself.
    pub address: Address,
    /// Mint of the token held.
    pub mint: Address,
    /// The holder.
    pub owner: Address,
    /// Units held.
    pub amount: u64,
}

/// An order to the ownership oracle: move `amount` units of a token from
/// one holding to another, on the authority of the source's holder.
#[derive(Clone, Copy, Debug, PartialEq, Eq)]
pub struct TokenTransfer {
    /// Address of the source holding.
    pub from: Address,
    /// Address of the destination holding.
    pub to: Address,
    /// The holder of the source, who orders the transfer.
    pub authority: Address,
    /// Units to move.
    pub amount: u64,
}

} // verus!
