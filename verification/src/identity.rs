use crate::identity::contexts::{
    CreateMetadataExtension, GetMetadata, GetMetadataExtended, Initialize, Register, SetAgentUri,
    SetMetadata, SetMetadataExtended, SyncOwner, TransferAgent,
};
use crate::identity::error::IdentityError;
use crate::identity::events::{
    AgentOwnerSynced, MetadataSet, MetadataSetView, Registered, RegisteredView, UriUpdated,
};
use crate::identity::state::{
    entries_view, position_of, value_of, with_entry, AgentAccount, AgentAccountView,
    MetadataEntry, MetadataEntryView, MetadataExtension, MetadataExtensionView, RegistryConfig,
    TokenTransfer,
};
use crate::text::{byte_len, stored_len};
use vstd::prelude::*;

pub mod contexts;
pub mod error;
pub mod events;
pub mod laws;
pub mod state;

verus! {

/// Creates the configuration record, with the caller as authority and no
/// agent registered yet. Refused when the record already exists.
pub fn initialize(ctx: &mut Initialize) -> (r: Result<(), IdentityError>)
    ensures
        r is Ok <==> old(ctx).config is None,
        r is Err ==> r == Err::<(), IdentityError>(IdentityError::AlreadyInitialized) && *final(ctx)
            == *old(ctx),
        r is Ok ==> *final(ctx) == (Initialize {
            config: Some(
                RegistryConfig {
                    authority: old(ctx).authority,
                    next_agent_id: 0,
                    total_agents: 0,
                    collection_mint: old(ctx).collection_mint,
                    bump: old(ctx).config_bump,
                },
            ),
            ..*old(ctx)
        }),
{
    if ctx.config.is_some() {
        return Err(IdentityError::AlreadyInitialized);
    }
    ctx.config = Some(
        RegistryConfig {
            authority: ctx.authority,
            next_agent_id: 0,
            total_agents: 0,
            collection_mint: ctx.collection_mint,
            bump: ctx.config_bump,
        },
    );
    Ok(())
}

/// The fault of one metadata entry: its key is checked before its value.
pub open spec fn entry_fault(entry: MetadataEntryView) -> Option<IdentityError> {
    if byte_len(entry.key) > MetadataEntry::MAX_KEY_LENGTH {
        Some(IdentityError::KeyTooLong)
    } else if entry.value.len() > MetadataEntry::MAX_VALUE_LENGTH {
        Some(IdentityError::ValueTooLong)
    } else {
        None
    }
}

/// The fault of the first faulty entry of a list, if any entry is faulty.
pub open spec fn entries_fault(entries: Seq<MetadataEntryView>) -> Option<IdentityError>
    decreases entries.len(),
{
    if entries.len() == 0 {
        None
    } else {
        match entry_fault(entries[0]) {
            Some(e) => Some(e),
            None => entries_fault(entries.drop_first()),
        }
    }
}

/// Why a registration is refused, if it is. The checks come in this order.
pub open spec fn register_rejection(
    ctx: Register,
    token_uri: Seq<char>,
    metadata: Seq<MetadataEntryView>,
) -> Option<IdentityError> {
    if ctx.authority != ctx.config.authority {
        Some(IdentityError::Unauthorized)
    } else if ctx.collection_mint != ctx.config.collection_mint {
        Some(IdentityError::InvalidCollectionMint)
    } else if byte_len(token_uri) > AgentAccount::MAX_URI_LENGTH {
        Some(IdentityError::UriTooLong)
    } else if metadata.len() > AgentAccount::MAX_METADATA_ENTRIES {
        Some(IdentityError::MetadataLimitReached)
    } else if entries_fault(metadata) is Some {
        entries_fault(metadata)
    } else if ctx.config.next_agent_id == u64::MAX || ctx.config.total_agents == u64::MAX {
        Some(IdentityError::Overflow)
    } else if ctx.agent_account is Some {
        Some(IdentityError::AlreadyInitialized)
    } else {
        None
    }
}

/// The configuration after one more registration.
pub open spec fn config_after_register(config: RegistryConfig) -> RegistryConfig
    recommends
        config.next_agent_id < u64::MAX,
        config.total_agents < u64::MAX,
{
    RegistryConfig {
        next_agent_id: (config.next_agent_id + 1) as u64,
        total_agents: (config.total_agents + 1) as u64,
        ..config
    }
}

/// The agent record that a registration creates.
pub open spec fn registered_agent(
    ctx: Register,
    token_uri: Seq<char>,
    metadata: Seq<MetadataEntryView>,
    now: i64,
) -> AgentAccountView {
    AgentAccountView {
        agent_id: ctx.config.next_agent_id,
        owner: ctx.owner,
        agent_mint: ctx.agent_mint,
        token_uri,
        metadata,
        created_at: now,
        bump: ctx.agent_account_bump,
    }
}

/// What a list of `MetadataSet` notifications holds.
pub open spec fn metadata_set_views(events: Seq<MetadataSet>) -> Seq<MetadataSetView> {
    events.map_values(|e: MetadataSet| e@)
}

/// What a registration leaves behind and returns: `before` and `after` are
/// what it works on before and after the call, `r` its result.
pub open spec fn registration_outcome(
    before: Register,
    token_uri: Seq<char>,
    metadata: Seq<MetadataEntryView>,
    now: i64,
    after: Register,
    r: Result<(Registered, Vec<MetadataSet>), IdentityError>,
) -> bool {
    match r {
        Ok((registered, metadata_set)) => {
            &&& register_rejection(before, token_uri, metadata) is None
            &&& after.config == config_after_register(before.config)
            &&& match after.agent_account {
                Some(agent) => agent@ == registered_agent(before, token_uri, metadata, now),
                None => false,
            }
            &&& after == (Register {
                config: after.config,
                agent_account: after.agent_account,
                ..before
            })
            &&& registered@ == (RegisteredView {
                agent_id: before.config.next_agent_id,
                token_uri,
                owner: before.owner,
                agent_mint: before.agent_mint,
            })
            &&& metadata_set_views(metadata_set@) == metadata.map_values(
                |e: MetadataEntryView| MetadataSet::of_entry(before.config.next_agent_id, e),
            )
        },
        Err(e) => {
            &&& register_rejection(before, token_uri, metadata) == Some(e)
            &&& after == before
        },
    }
}

/// Finds the first faulty entry of a list.
fn check_entries(metadata: &Vec<MetadataEntry>) -> (r: Option<IdentityError>)
    ensures
        r == entries_fault(entries_view(metadata@)),
{
    let ghost all = entries_view(metadata@);
    let mut i: usize = 0;
    assert(all.skip(0) =~= all);
    while i < metadata.len()
        invariant
            i <= metadata@.len(),
            all == entries_view(metadata@),
            entries_fault(all) == entries_fault(all.skip(i as int)),
        decreases metadata@.len() - i,
    {
        let entry = &metadata[i];
        proof {
            assert(all.skip(i as int).drop_first() =~= all.skip(i + 1));
        }
        if stored_len(entry.key.as_str()) > MetadataEntry::MAX_KEY_LENGTH {
            return Some(IdentityError::KeyTooLong);
        }
        if entry.value.len() > MetadataEntry::MAX_VALUE_LENGTH {
            return Some(IdentityError::ValueTooLong);
        }
        i += 1;
    }
    None
}

/// Registers a new agent under the next agent id.
///
/// The id is the configuration's `next_agent_id`; both counters of the
/// configuration then go up by one. The agent record is created with the
/// caller as owner, the given URI and metadata, and `now` as creation time.
/// Returns the `Registered` notification and one `MetadataSet` per entry, in
/// the order of the entries. On refusal nothing changes.
pub fn register_internal(
    ctx: &mut Register,
    token_uri: String,
    metadata: Vec<MetadataEntry>,
    now: i64,
) -> (r: Result<(Registered, Vec<MetadataSet>), IdentityError>)
    ensures
        registration_outcome(*old(ctx), token_uri@, entries_view(metadata@), now, *final(ctx), r),
{
    if ctx.authority != ctx.config.authority {
        return Err(IdentityError::Unauthorized);
    }
    if ctx.collection_mint != ctx.config.collection_mint {
        return Err(IdentityError::InvalidCollectionMint);
    }
    if stored_len(token_uri.as_str()) > AgentAccount::MAX_URI_LENGTH {
        return Err(IdentityError::UriTooLong);
    }
    if metadata.len() > AgentAccount::MAX_METADATA_ENTRIES {
        return Err(IdentityError::MetadataLimitReached);
    }
    match check_entries(&metadata) {
        Some(e) => {
            return Err(e);
        },
        None => {},
    }
    let agent_id = ctx.config.next_agent_id;
    if ctx.config.next_agent_id == u64::MAX || ctx.config.total_agents == u64::MAX {
        return Err(IdentityError::Overflow);
    }
    if ctx.agent_account.is_some() {
        return Err(IdentityError::AlreadyInitialized);
    }
    let mut metadata_set: Vec<MetadataSet> = Vec::new();
    let mut i: usize = 0;
    while i < metadata.len()
        invariant
            i <= metadata@.len(),
            metadata_set@.len() == i,
            forall|k: int|
                0 <= k < i ==> (#[trigger] metadata_set@[k])@ == MetadataSet::of_entry(
                    agent_id,
                    metadata@[k]@,
                ),
        decreases metadata@.len() - i,
    {
        metadata_set.push(MetadataSet::for_entry(agent_id, &metadata[i]));
        i += 1;
    }
    assert(metadata_set_views(metadata_set@) =~= entries_view(metadata@).map_values(
        |e: MetadataEntryView| MetadataSet::of_entry(agent_id, e),
    ));
    let registered = Registered {
        agent_id,
        token_uri: token_uri.clone(),
        owner: ctx.owner,
        agent_mint: ctx.agent_mint,
    };
    ctx.config.next_agent_id = ctx.config.next_agent_id + 1;
    ctx.config.total_agents = ctx.config.total_agents + 1;
    ctx.agent_account = Some(
        AgentAccount {
            agent_id,
            owner: ctx.owner,
            agent_mint: ctx.agent_mint,
            token_uri,
            metadata,
            created_at: now,
            bump: ctx.agent_account_bump,
        },
    );
    Ok((registered, metadata_set))
}

/// Why setting a metadata entry among `entries` is refused, if it is. The
/// checks come in this order.
pub open spec fn entry_rejection(
    entries: Seq<MetadataEntryView>,
    key: Seq<char>,
    value: Seq<u8>,
) -> Option<IdentityError> {
    if byte_len(key) > MetadataEntry::MAX_KEY_LENGTH {
        Some(IdentityError::KeyTooLong)
    } else if value.len() > MetadataEntry::MAX_VALUE_LENGTH {
        Some(IdentityError::ValueTooLong)
    } else if position_of(entries, key) is None && entries.len()
        >= AgentAccount::MAX_METADATA_ENTRIES {
        Some(IdentityError::MetadataLimitReached)
    } else {
        None
    }
}

/// Why setting a metadata entry of an agent is refused, if it is.
pub open spec fn set_metadata_rejection(ctx: SetMetadata, key: Seq<char>, value: Seq<u8>) -> Option<IdentityError> {
    if ctx.owner != ctx.agent_account.owner {
        Some(IdentityError::Unauthorized)
    } else {
        entry_rejection(ctx.agent_account@.metadata, key, value)
    }
}

/// Reads the metadata value of an agent under a key: the value of the first
/// entry under the key, and no bytes when there is none.
pub fn get_metadata(ctx: &GetMetadata, key: String) -> (r: Result<Vec<u8>, IdentityError>)
    ensures
        r matches Ok(value) && value@ == value_of(ctx.agent_account@.metadata, key@),
{
    match ctx.agent_account.find_metadata(key.as_str()) {
        Some(entry) => Ok(entry.value.clone()),
        None => Ok(Vec::new()),
    }
}

/// Sets a metadata entry of an agent. Only the agent's owner may do so.
///
/// The key must be at most 32 bytes and the value at most 256. An entry
/// under the key gets the value; without one a new entry is put at the end,
/// which is refused when the agent holds 10 entries. On refusal nothing
/// changes.
pub fn set_metadata(ctx: &mut SetMetadata, key: String, value: Vec<u8>) -> (r: Result<MetadataSet, IdentityError>)
    ensures
        match r {
            Ok(event) => {
                &&& set_metadata_rejection(*old(ctx), key@, value@) is None
                &&& final(ctx).agent_account@ == (AgentAccountView {
                    metadata: with_entry(old(ctx).agent_account@.metadata, key@, value@),
                    ..old(ctx).agent_account@
                })
                &&& final(ctx).owner == old(ctx).owner
                &&& event@ == MetadataSet::of_entry(
                    old(ctx).agent_account.agent_id,
                    MetadataEntryView { key: key@, value: value@ },
                )
            },
            Err(e) => {
                &&& set_metadata_rejection(*old(ctx), key@, value@) == Some(e)
                &&& *final(ctx) == *old(ctx)
            },
        },
{
    if ctx.owner != ctx.agent_account.owner {
        return Err(IdentityError::Unauthorized);
    }
    if stored_len(key.as_str()) > MetadataEntry::MAX_KEY_LENGTH {
        return Err(IdentityError::KeyTooLong);
    }
    if value.len() > MetadataEntry::MAX_VALUE_LENGTH {
        return Err(IdentityError::ValueTooLong);
    }
    let event = MetadataSet {
        agent_id: ctx.agent_account.agent_id,
        indexed_key: key.clone(),
        key: key.clone(),
        value: value.clone(),
    };
    let agent = &mut ctx.agent_account;
    match agent.find_metadata_mut(key.as_str()) {
        Some(entry) => {
            entry.value = value;
        },
        None => {
            if agent.metadata.len() >= AgentAccount::MAX_METADATA_ENTRIES {
                return Err(IdentityError::MetadataLimitReached);
            }
            agent.metadata.push(MetadataEntry { key, value });
        },
    }
    assert(ctx.agent_account@.metadata =~= with_entry(
        old(ctx).agent_account@.metadata,
        key@,
        value@,
    ));
    Ok(event)
}

/// Registers a new agent with an empty URI and no metadata.
pub fn register_empty(ctx: &mut Register, now: i64) -> (r: Result<(Registered, Vec<MetadataSet>), IdentityError>)
    ensures
        registration_outcome(*old(ctx), Seq::empty(), Seq::empty(), now, *final(ctx), r),
{
    let metadata: Vec<MetadataEntry> = Vec::new();
    assert(entries_view(metadata@) =~= Seq::empty());
    register_internal(ctx, String::new(), metadata, now)
}

/// Registers a new agent with the given URI and no metadata.
pub fn register(ctx: &mut Register, token_uri: String, now: i64) -> (r: Result<(Registered, Vec<MetadataSet>), IdentityError>)
    ensures
        registration_outcome(*old(ctx), token_uri@, Seq::empty(), now, *final(ctx), r),
{
    let metadata: Vec<MetadataEntry> = Vec::new();
    assert(entries_view(metadata@) =~= Seq::empty());
    register_internal(ctx, token_uri, metadata, now)
}

/// Registers a new agent with the given URI and initial metadata.
pub fn register_with_metadata(
    ctx: &mut Register,
    token_uri: String,
    metadata: Vec<MetadataEntry>,
    now: i64,
) -> (r: Result<(Registered, Vec<MetadataSet>), IdentityError>)
    ensures
        registration_outcome(*old(ctx), token_uri@, entries_view(metadata@), now, *final(ctx), r),
{
    register_internal(ctx, token_uri, metadata, now)
}

/// Why replacing the URI of an agent is refused, if it is.
pub open spec fn set_agent_uri_rejection(ctx: SetAgentUri, new_uri: Seq<char>) -> Option<IdentityError> {
    if ctx.owner != ctx.agent_account.owner {
        Some(IdentityError::Unauthorized)
    } else if byte_len(new_uri) > AgentAccount::MAX_URI_LENGTH {
        Some(IdentityError::UriTooLong)
    } else {
        None
    }
}

/// Replaces the URI of an agent. Only the agent's owner may do so, with a
/// URI of at most 200 bytes. On refusal nothing changes.
pub fn set_agent_uri(ctx: &mut SetAgentUri, new_uri: String) -> (r: Result<UriUpdated, IdentityError>)
    ensures
        match r {
            Ok(event) => {
                &&& set_agent_uri_rejection(*old(ctx), new_uri@) is None
                &&& *final(ctx) == (SetAgentUri {
                    agent_account: AgentAccount { token_uri: new_uri, ..old(ctx).agent_account },
                    ..*old(ctx)
                })
                &&& event == (UriUpdated {
                    agent_id: old(ctx).agent_account.agent_id,
                    new_uri,
                    updated_by: old(ctx).owner,
                })
            },
            Err(e) => {
                &&& set_agent_uri_rejection(*old(ctx), new_uri@) == Some(e)
                &&& *final(ctx) == *old(ctx)
            },
        },
{
    if ctx.owner != ctx.agent_account.owner {
        return Err(IdentityError::Unauthorized);
    }
    if stored_len(new_uri.as_str()) > AgentAccount::MAX_URI_LENGTH {
        return Err(IdentityError::UriTooLong);
    }
    let event = UriUpdated {
        agent_id: ctx.agent_account.agent_id,
        new_uri: new_uri.clone(),
        updated_by: ctx.owner,
    };
    ctx.agent_account.token_uri = new_uri;
    Ok(event)
}

/// Why taking over the owner from a token holding is refused, if it is.
pub open spec fn sync_owner_rejection(ctx: SyncOwner) -> Option<IdentityError> {
    if ctx.token_account.mint != ctx.agent_account.agent_mint {
        Some(IdentityError::InvalidTokenAccount)
    } else if ctx.token_account.amount != 1 {
        Some(IdentityError::InvalidTokenAccount)
    } else {
        None
    }
}

/// Makes the recorded owner of an agent follow its token.
///
/// The holding must be of the agent's token and hold exactly one unit; its
/// holder becomes the recorded owner. On refusal nothing changes.
pub fn sync_owner(ctx: &mut SyncOwner) -> (r: Result<AgentOwnerSynced, IdentityError>)
    ensures
        match r {
            Ok(event) => {
                &&& sync_owner_rejection(*old(ctx)) is None
                &&& *final(ctx) == (SyncOwner {
                    agent_account: AgentAccount {
                        owner: old(ctx).token_account.owner,
                        ..old(ctx).agent_account
                    },
                    ..*old(ctx)
                })
                &&& event == (AgentOwnerSynced {
                    agent_id: old(ctx).agent_account.agent_id,
                    old_owner: old(ctx).agent_account.owner,
                    new_owner: old(ctx).token_account.owner,
                    agent_mint: old(ctx).agent_account.agent_mint,
                })
            },
            Err(e) => {
                &&& sync_owner_rejection(*old(ctx)) == Some(e)
                &&& *final(ctx) == *old(ctx)
            },
        },
{
    if ctx.token_account.mint != ctx.agent_account.agent_mint {
        return Err(IdentityError::InvalidTokenAccount);
    }
    if ctx.token_account.amount != 1 {
        return Err(IdentityError::InvalidTokenAccount);
    }
    let old_owner = ctx.agent_account.owner;
    let new_owner = ctx.token_account.owner;
    ctx.agent_account.owner = new_owner;
    Ok(
        AgentOwnerSynced {
            agent_id: ctx.agent_account.agent_id,
            old_owner,
            new_owner,
            agent_mint: ctx.agent_account.agent_mint,
        },
    )
}

/// Why a transfer is refused, if it is. The checks come in this order.
pub open spec fn transfer_agent_rejection(ctx: TransferAgent) -> Option<IdentityError> {
    if ctx.from_token_account.mint != ctx.agent_account.agent_mint {
        Some(IdentityError::InvalidTokenAccount)
    } else if ctx.from_token_account.owner != ctx.owner {
        Some(IdentityError::Unauthorized)
    } else if ctx.from_token_account.amount != 1 {
        Some(IdentityError::InvalidTokenAccount)
    } else if ctx.to_token_account.mint != ctx.agent_account.agent_mint {
        Some(IdentityError::InvalidTokenAccount)
    } else if ctx.from_token_account.address == ctx.to_token_account.address
        || ctx.from_token_account.owner == ctx.to_token_account.owner {
        Some(IdentityError::TransferToSelf)
    } else {
        None
    }
}

/// Decides a transfer of an agent's token and records the new owner.
///
/// Both holdings must be of the agent's token, the source must belong to
/// the caller and hold exactly one unit, and source and destination must
/// differ, as holdings and as holders. Then the destination's holder
/// becomes the recorded owner. Returns the order to move the one unit from
/// source to destination, which the caller has the ownership oracle carry
/// out, and the notification. On refusal nothing changes.
pub fn transfer_agent(ctx: &mut TransferAgent) -> (r: Result<(TokenTransfer, AgentOwnerSynced), IdentityError>)
    ensures
        match r {
            Ok((transfer, event)) => {
                &&& transfer_agent_rejection(*old(ctx)) is None
                &&& transfer == (TokenTransfer {
                    from: old(ctx).from_token_account.address,
                    to: old(ctx).to_token_account.address,
                    authority: old(ctx).owner,
                    amount: 1,
                })
                &&& *final(ctx) == (TransferAgent {
                    agent_account: AgentAccount {
                        owner: old(ctx).to_token_account.owner,
                        ..old(ctx).agent_account
                    },
                    ..*old(ctx)
                })
                &&& event == (AgentOwnerSynced {
                    agent_id: old(ctx).agent_account.agent_id,
                    old_owner: old(ctx).agent_account.owner,
                    new_owner: old(ctx).to_token_account.owner,
                    agent_mint: old(ctx).agent_account.agent_mint,
                })
            },
            Err(e) => {
                &&& transfer_agent_rejection(*old(ctx)) == Some(e)
                &&& *final(ctx) == *old(ctx)
            },
        },
{
    if ctx.from_token_account.mint != ctx.agent_account.agent_mint {
        return Err(IdentityError::InvalidTokenAccount);
    }
    if ctx.from_token_account.owner != ctx.owner {
        return Err(IdentityError::Unauthorized);
    }
    if ctx.from_token_account.amount != 1 {
        return Err(IdentityError::InvalidTokenAccount);
    }
    if ctx.to_token_account.mint != ctx.agent_account.agent_mint {
        return Err(IdentityError::InvalidTokenAccount);
    }
    if ctx.from_token_account.address == ctx.to_token_account.address
        || ctx.from_token_account.owner == ctx.to_token_account.owner {
        return Err(IdentityError::TransferToSelf);
    }
    let old_owner = ctx.agent_account.owner;
    let new_owner = ctx.to_token_account.owner;
    ctx.agent_account.owner = new_owner;
    Ok(
        (
            TokenTransfer {
                from: ctx.from_token_account.address,
                to: ctx.to_token_account.address,
                authority: ctx.owner,
                amount: 1,
            },
            AgentOwnerSynced {
                agent_id: ctx.agent_account.agent_id,
                old_owner,
                new_owner,
                agent_mint: ctx.agent_account.agent_mint,
            },
        ),
    )
}

/// Why creating a metadata extension is refused, if it is.
pub open spec fn create_metadata_extension_rejection(ctx: CreateMetadataExtension) -> Option<IdentityError> {
    if ctx.agent_account.agent_mint != ctx.agent_mint {
        Some(IdentityError::Unauthorized)
    } else if ctx.agent_account.owner != ctx.owner {
        Some(IdentityError::Unauthorized)
    } else if ctx.metadata_extension is Some {
        Some(IdentityError::AlreadyInitialized)
    } else {
        None
    }
}

/// Creates an empty metadata extension of an agent under an index. Only the
/// agent's owner may do so. On refusal nothing changes.
pub fn create_metadata_extension(ctx: &mut CreateMetadataExtension, extension_index: u8) -> (r: Result<(), IdentityError>)
    ensures
        match r {
            Ok(_) => {
                &&& create_metadata_extension_rejection(*old(ctx)) is None
                &&& match final(ctx).metadata_extension {
                    Some(extension) => extension@ == (MetadataExtensionView {
                        agent_mint: old(ctx).agent_mint,
                        extension_index,
                        metadata: Seq::empty(),
                        bump: old(ctx).metadata_extension_bump,
                    }),
                    None => false,
                }
                &&& *final(ctx) == (CreateMetadataExtension {
                    metadata_extension: final(ctx).metadata_extension,
                    ..*old(ctx)
                })
            },
            Err(e) => {
                &&& create_metadata_extension_rejection(*old(ctx)) == Some(e)
                &&& *final(ctx) == *old(ctx)
            },
        },
{
    if ctx.agent_account.agent_mint != ctx.agent_mint {
        return Err(IdentityError::Unauthorized);
    }
    if ctx.agent_account.owner != ctx.owner {
        return Err(IdentityError::Unauthorized);
    }
    if ctx.metadata_extension.is_some() {
        return Err(IdentityError::AlreadyInitialized);
    }
    let extension = MetadataExtension {
        agent_mint: ctx.agent_mint,
        extension_index,
        metadata: Vec::new(),
        bump: ctx.metadata_extension_bump,
    };
    assert(extension@.metadata =~= Seq::empty());
    ctx.metadata_extension = Some(extension);
    Ok(())
}

/// The extension record is the one of the agent with mint `agent_mint`
/// under `extension_index`.
pub open spec fn is_extension_of(
    extension: Option<MetadataExtension>,
    agent_mint: crate::address::Address,
    extension_index: u8,
) -> bool {
    extension matches Some(e) && e.agent_mint == agent_mint && e.extension_index
        == extension_index
}

/// Why setting a metadata entry of an extension is refused, if it is. The
/// checks come in this order.
pub open spec fn set_metadata_extended_rejection(
    ctx: SetMetadataExtended,
    extension_index: u8,
    key: Seq<char>,
    value: Seq<u8>,
) -> Option<IdentityError> {
    if !is_extension_of(ctx.metadata_extension, ctx.agent_mint, extension_index) {
        Some(IdentityError::ExtensionNotFound)
    } else if ctx.agent_account.agent_mint != ctx.agent_mint {
        Some(IdentityError::Unauthorized)
    } else if ctx.agent_account.owner != ctx.owner {
        Some(IdentityError::Unauthorized)
    } else {
        entry_rejection(ctx.metadata_extension.unwrap()@.metadata, key, value)
    }
}

/// Sets a metadata entry of an extension. Only the agent's owner may do so.
///
/// The key must be at most 32 bytes and the value at most 256. An entry
/// under the key gets the value; without one a new entry is put at the end,
/// which is refused when the extension holds 10 entries. On refusal nothing
/// changes.
pub fn set_metadata_extended(
    ctx: &mut SetMetadataExtended,
    extension_index: u8,
    key: String,
    value: Vec<u8>,
) -> (r: Result<MetadataSet, IdentityError>)
    ensures
        match r {
            Ok(event) => {
                &&& set_metadata_extended_rejection(*old(ctx), extension_index, key@, value@)
                    is None
                &&& old(ctx).metadata_extension matches Some(before)
                &&& final(ctx).metadata_extension matches Some(after)
                &&& after@ == (MetadataExtensionView {
                    metadata: with_entry(before@.metadata, key@, value@),
                    ..before@
                })
                &&& *final(ctx) == (SetMetadataExtended {
                    metadata_extension: final(ctx).metadata_extension,
                    ..*old(ctx)
                })
                &&& event@ == MetadataSet::of_entry(
                    old(ctx).agent_account.agent_id,
                    MetadataEntryView { key: key@, value: value@ },
                )
            },
            Err(e) => {
                &&& set_metadata_extended_rejection(*old(ctx), extension_index, key@, value@)
                    == Some(e)
                &&& *final(ctx) == *old(ctx)
            },
        },
{
    let agent_mint = ctx.agent_mint;
    let authorized = ctx.agent_account.agent_mint == ctx.agent_mint && ctx.agent_account.owner
        == ctx.owner;
    let agent_id = ctx.agent_account.agent_id;
    match &mut ctx.metadata_extension {
        None => Err(IdentityError::ExtensionNotFound),
        Some(extension) => {
            if extension.agent_mint != agent_mint || extension.extension_index != extension_index {
                return Err(IdentityError::ExtensionNotFound);
            }
            if !authorized {
                return Err(IdentityError::Unauthorized);
            }
            if stored_len(key.as_str()) > MetadataEntry::MAX_KEY_LENGTH {
                return Err(IdentityError::KeyTooLong);
            }
            if value.len() > MetadataEntry::MAX_VALUE_LENGTH {
                return Err(IdentityError::ValueTooLong);
            }
            let event = MetadataSet {
                agent_id,
                indexed_key: key.clone(),
                key: key.clone(),
                value: value.clone(),
            };
            let ghost before = extension@;
            match extension.find_metadata_mut(key.as_str()) {
                Some(entry) => {
                    entry.value = value;
                },
                None => {
                    if extension.metadata.len() >= MetadataExtension::MAX_METADATA_ENTRIES {
                        return Err(IdentityError::MetadataLimitReached);
                    }
                    extension.metadata.push(MetadataEntry { key, value });
                },
            }
            assert(extension@.metadata =~= with_entry(before.metadata, key@, value@));
            Ok(event)
        },
    }
}

/// Why reading a metadata value of an extension is refused, if it is.
pub open spec fn get_metadata_extended_rejection(
    ctx: GetMetadataExtended,
    extension_index: u8,
) -> Option<IdentityError> {
    if !is_extension_of(ctx.metadata_extension, ctx.agent_mint, extension_index) {
        Some(IdentityError::ExtensionNotFound)
    } else {
        None
    }
}

/// Reads the metadata value of an extension under a key: the value of the
/// first entry under the key, and no bytes when there is none.
pub fn get_metadata_extended(ctx: &GetMetadataExtended, extension_index: u8, key: String) -> (r: Result<Vec<u8>, IdentityError>)
    ensures
        match r {
            Ok(value) => {
                &&& get_metadata_extended_rejection(*ctx, extension_index) is None
                &&& value@ == value_of(ctx.metadata_extension.unwrap()@.metadata, key@)
            },
            Err(e) => get_metadata_extended_rejection(*ctx, extension_index) == Some(e),
        },
{
    match &ctx.metadata_extension {
        None => Err(IdentityError::ExtensionNotFound),
        Some(extension) => {
            if extension.agent_mint != ctx.agent_mint || extension.extension_index
                != extension_index {
                return Err(IdentityError::ExtensionNotFound);
            }
            match extension.find_metadata(key.as_str()) {
                Some(entry) => Ok(entry.value.clone()),
                None => Ok(Vec::new()),
            }
        },
    }
}

} // verus!
