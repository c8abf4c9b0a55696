use crate::identity::contexts::{
    CreateMetadataExtension, Register, SetAgentUri, SetMetadata, SetMetadataExtended,
    TransferAgent,
};
use crate::identity::error::IdentityError;
use crate::identity::state::{
    entries_stored_size, entries_within_limits, is_first_match, lemma_position_found, position_of,
    with_entry, AgentAccount, AgentAccountView, MetadataEntry, MetadataEntryView,
    MetadataExtension, MetadataExtensionView, RegistryConfig,
};
use crate::identity::{
    config_after_register, create_metadata_extension_rejection, entries_fault, entry_fault,
    entry_rejection, is_extension_of, register_rejection, registered_agent,
    set_agent_uri_rejection, set_metadata_extended_rejection, set_metadata_rejection,
    transfer_agent_rejection,
};
use crate::text::byte_len;
use vstd::prelude::*;

verus! {

/// One call of the `register` family: the configuration it meets is that
/// which the calls before it left, whatever `ctx.config` says.
pub ghost struct RegisterAttempt {
    pub ctx: Register,
    pub token_uri: Seq<char>,
    pub metadata: Seq<MetadataEntryView>,
}

impl RegisterAttempt {
    /// The attempt is accepted when it meets `config`.
    pub open spec fn accepted(self, config: RegistryConfig) -> bool {
        register_rejection(Register { config, ..self.ctx }, self.token_uri, self.metadata) is None
    }
}

/// The configuration after a list of attempts, made one after another.
pub open spec fn config_after_attempts(
    initial: RegistryConfig,
    attempts: Seq<RegisterAttempt>,
) -> RegistryConfig
    decreases attempts.len(),
{
    if attempts.len() == 0 {
        initial
    } else {
        let before = config_after_attempts(initial, attempts.drop_last());
        if attempts.last().accepted(before) {
            config_after_register(before)
        } else {
            before
        }
    }
}

/// The agent ids that a list of attempts assigns, in call order: one for
/// each accepted attempt.
pub open spec fn assigned_ids(initial: RegistryConfig, attempts: Seq<RegisterAttempt>) -> Seq<u64>
    decreases attempts.len(),
{
    if attempts.len() == 0 {
        Seq::empty()
    } else {
        let before = config_after_attempts(initial, attempts.drop_last());
        let ids = assigned_ids(initial, attempts.drop_last());
        if attempts.last().accepted(before) {
            ids.push(before.next_agent_id)
        } else {
            ids
        }
    }
}

/// Starting from a fresh configuration, the agent ids assigned are exactly
/// 0, 1, 2, ... in call order: the k-th accepted registration gets id k.
/// So they increase strictly and none is used twice. Both counters of the
/// configuration equal the number of agents registered.
pub proof fn lemma_agent_ids_sequential(initial: RegistryConfig, attempts: Seq<RegisterAttempt>)
    requires
        initial.next_agent_id == 0,
        initial.total_agents == 0,
    ensures
        forall|k: int|
            0 <= k < assigned_ids(initial, attempts).len() ==> #[trigger] assigned_ids(
                initial,
                attempts,
            )[k] == k,
        config_after_attempts(initial, attempts).next_agent_id == assigned_ids(
            initial,
            attempts,
        ).len(),
        config_after_attempts(initial, attempts).total_agents == assigned_ids(
            initial,
            attempts,
        ).len(),
    decreases attempts.len(),
{
    if attempts.len() > 0 {
        lemma_agent_ids_sequential(initial, attempts.drop_last());
    }
}

/// An entry under the key means that there is a first one.
pub proof fn lemma_key_has_position(entries: Seq<MetadataEntryView>, key: Seq<char>, i: int)
    requires
        0 <= i < entries.len(),
        entries[i].key == key,
    ensures
        position_of(entries, key) is Some,
    decreases i,
{
    if forall|j: int| 0 <= j < i ==> entries[j].key != key {
        lemma_position_found(entries, key, i);
    } else {
        let j = choose|j: int| 0 <= j < i && entries[j].key == key;
        lemma_key_has_position(entries, key, j);
    }
}

/// Setting a new key where 10 entries stand is refused for the limit,
/// when the caller is the owner and key and value are within their lengths.
pub proof fn lemma_new_key_at_limit_refused(ctx: SetMetadata, key: Seq<char>, value: Seq<u8>)
    requires
        ctx.owner == ctx.agent_account.owner,
        byte_len(key) <= MetadataEntry::MAX_KEY_LENGTH,
        value.len() <= MetadataEntry::MAX_VALUE_LENGTH,
        ctx.agent_account@.metadata.len() >= AgentAccount::MAX_METADATA_ENTRIES,
        forall|i: int|
            0 <= i < ctx.agent_account@.metadata.len() ==> ctx.agent_account@.metadata[i].key != key,
    ensures
        set_metadata_rejection(ctx, key, value) == Some(IdentityError::MetadataLimitReached),
{
    let entries = ctx.agent_account@.metadata;
    if position_of(entries, key) is Some {
        let i = choose|i: int| is_first_match(entries, key, i);
        assert(entries[i].key == key);
    }
}

/// Setting a key that an entry stands under is accepted whatever the
/// number of entries, when the caller is the owner and key and value are
/// within their lengths.
pub proof fn lemma_existing_key_accepted(ctx: SetMetadata, key: Seq<char>, value: Seq<u8>, i: int)
    requires
        ctx.owner == ctx.agent_account.owner,
        byte_len(key) <= MetadataEntry::MAX_KEY_LENGTH,
        value.len() <= MetadataEntry::MAX_VALUE_LENGTH,
        0 <= i < ctx.agent_account@.metadata.len(),
        ctx.agent_account@.metadata[i].key == key,
    ensures
        set_metadata_rejection(ctx, key, value) is None,
{
    lemma_key_has_position(ctx.agent_account@.metadata, key, i);
}

/// The same two facts hold of the entries of an extension.
pub proof fn lemma_entry_limit(entries: Seq<MetadataEntryView>, key: Seq<char>, value: Seq<u8>)
    requires
        byte_len(key) <= MetadataEntry::MAX_KEY_LENGTH,
        value.len() <= MetadataEntry::MAX_VALUE_LENGTH,
    ensures
        (exists|i: int| 0 <= i < entries.len() && entries[i].key == key) ==> entry_rejection(
            entries,
            key,
            value,
        ) is None,
        entries.len() < AgentAccount::MAX_METADATA_ENTRIES ==> entry_rejection(entries, key, value)
            is None,
        entries.len() >= AgentAccount::MAX_METADATA_ENTRIES && (forall|i: int|
            0 <= i < entries.len() ==> entries[i].key != key) ==> entry_rejection(
            entries,
            key,
            value,
        ) == Some(IdentityError::MetadataLimitReached),
{
    if exists|i: int| 0 <= i < entries.len() && entries[i].key == key {
        let i = choose|i: int| 0 <= i < entries.len() && entries[i].key == key;
        lemma_key_has_position(entries, key, i);
    }
    if position_of(entries, key) is Some {
        let i = choose|i: int| is_first_match(entries, key, i);
        assert(entries[i].key == key);
    }
}

/// Only the recorded owner changes an agent's metadata or URI: any other
/// caller is refused as unauthorized.
pub proof fn lemma_only_owner_sets(
    metadata: SetMetadata,
    key: Seq<char>,
    value: Seq<u8>,
    uri: SetAgentUri,
    new_uri: Seq<char>,
)
    ensures
        metadata.owner != metadata.agent_account.owner ==> set_metadata_rejection(
            metadata,
            key,
            value,
        ) == Some(IdentityError::Unauthorized),
        uri.owner != uri.agent_account.owner ==> set_agent_uri_rejection(uri, new_uri) == Some(
            IdentityError::Unauthorized,
        ),
{
}

/// Only the recorded owner creates or fills an extension of an agent's
/// metadata: any other caller is refused as unauthorized, when the
/// extension asked for exists.
pub proof fn lemma_only_owner_extends(
    create: CreateMetadataExtension,
    set: SetMetadataExtended,
    extension_index: u8,
    key: Seq<char>,
    value: Seq<u8>,
)
    ensures
        create.owner != create.agent_account.owner ==> create_metadata_extension_rejection(create)
            == Some(IdentityError::Unauthorized),
        set.owner != set.agent_account.owner && is_extension_of(
            set.metadata_extension,
            set.agent_mint,
            extension_index,
        ) ==> set_metadata_extended_rejection(set, extension_index, key, value) == Some(
            IdentityError::Unauthorized,
        ),
{
}

/// Only the holder of the source holding transfers an agent: any other
/// caller is refused, as unauthorized when the source is a holding of the
/// agent's token.
pub proof fn lemma_only_holder_transfers(ctx: TransferAgent)
    requires
        ctx.from_token_account.owner != ctx.owner,
    ensures
        transfer_agent_rejection(ctx) is Some,
        ctx.from_token_account.mint == ctx.agent_account.agent_mint ==> transfer_agent_rejection(
            ctx,
        ) == Some(IdentityError::Unauthorized),
{
}

/// A list of entries has no fault exactly when every entry is within its
/// lengths.
pub proof fn lemma_no_fault_iff_all_fit(entries: Seq<MetadataEntryView>)
    ensures
        entries_fault(entries) is None <==> forall|i: int|
            0 <= i < entries.len() ==> (#[trigger] entries[i]).within_limits(),
    decreases entries.len(),
{
    if entries.len() > 0 {
        let rest = entries.drop_first();
        lemma_no_fault_iff_all_fit(rest);
        if entries_fault(entries) is None {
            assert forall|i: int| 0 <= i < entries.len() implies (
            #[trigger] entries[i]).within_limits() by {
                if i > 0 {
                    assert(entries[i] == rest[i - 1]);
                }
            }
        } else if entry_fault(entries[0]) is None {
            let i = choose|i: int| 0 <= i < rest.len() && !(#[trigger] rest[i]).within_limits();
            assert(entries[i + 1] == rest[i]);
        }
    }
}

/// A registered agent is within its limits.
pub proof fn lemma_registered_agent_within_limits(
    ctx: Register,
    token_uri: Seq<char>,
    metadata: Seq<MetadataEntryView>,
    now: i64,
)
    requires
        register_rejection(ctx, token_uri, metadata) is None,
    ensures
        registered_agent(ctx, token_uri, metadata, now).within_limits(),
{
    lemma_no_fault_iff_all_fit(metadata);
}

/// Setting an entry keeps the entries within their limits.
pub proof fn lemma_with_entry_within_limits(
    entries: Seq<MetadataEntryView>,
    key: Seq<char>,
    value: Seq<u8>,
)
    requires
        entries_within_limits(entries),
        entry_rejection(entries, key, value) is None,
    ensures
        entries_within_limits(with_entry(entries, key, value)),
{
    let after = with_entry(entries, key, value);
    assert forall|i: int| 0 <= i < after.len() implies (#[trigger] after[i]).within_limits() by {
        match position_of(entries, key) {
            Some(p) => {
                if i != p {
                    assert(after[i] == entries[i]);
                }
            },
            None => {
                if i < entries.len() {
                    assert(after[i] == entries[i]);
                }
            },
        }
    }
}

/// An accepted change of metadata or URI keeps an agent within its limits.
pub proof fn lemma_agent_stays_within_limits(
    agent: AgentAccountView,
    key: Seq<char>,
    value: Seq<u8>,
    new_uri: Seq<char>,
)
    requires
        agent.within_limits(),
    ensures
        entry_rejection(agent.metadata, key, value) is None ==> (AgentAccountView {
            metadata: with_entry(agent.metadata, key, value),
            ..agent
        }).within_limits(),
        byte_len(new_uri) <= AgentAccount::MAX_URI_LENGTH ==> (AgentAccountView {
            token_uri: new_uri,
            ..agent
        }).within_limits(),
{
    if entry_rejection(agent.metadata, key, value) is None {
        lemma_with_entry_within_limits(agent.metadata, key, value);
    }
}

/// Entries within their lengths take at most 296 bytes each.
pub proof fn lemma_entries_size_bound(entries: Seq<MetadataEntryView>)
    requires
        forall|i: int| 0 <= i < entries.len() ==> (#[trigger] entries[i]).within_limits(),
    ensures
        entries_stored_size(entries) <= 296 * entries.len(),
    decreases entries.len(),
{
    if entries.len() > 0 {
        let rest = entries.drop_last();
        assert forall|i: int| 0 <= i < rest.len() implies (#[trigger] rest[i]).within_limits() by {
            assert(rest[i] == entries[i]);
        }
        lemma_entries_size_bound(rest);
        assert(entries.last().within_limits());
    }
}

/// A record within its limits fits the space that is set aside for it: an
/// agent record takes at most `AgentAccount::MAX_SIZE` bytes, an extension
/// with entries within their limits at most `MetadataExtension::MAX_SIZE`.
pub proof fn lemma_record_fits_its_space(agent: AgentAccountView, extension: MetadataExtensionView)
    ensures
        agent.within_limits() ==> agent.stored_size() <= AgentAccount::MAX_SIZE,
        entries_within_limits(extension.metadata) ==> extension.stored_size()
            <= MetadataExtension::MAX_SIZE,
{
    if agent.within_limits() {
        lemma_entries_size_bound(agent.metadata);
    }
    if entries_within_limits(extension.metadata) {
        lemma_entries_size_bound(extension.metadata);
    }
}

} // verus!
