use agent_registry::address::Address;
use agent_registry::identity::contexts::{
    CreateMetadataExtension, GetMetadata, GetMetadataExtended, Initialize, Register, SetAgentUri,
    SetMetadata, SetMetadataExtended, SyncOwner, TransferAgent,
};
use agent_registry::identity::error::IdentityError;
use agent_registry::identity::state::{
    AgentAccount, MetadataEntry, MetadataExtension, RegistryConfig, TokenAccount, TokenTransfer,
};
use agent_registry::identity::{
    create_metadata_extension, get_metadata, get_metadata_extended, initialize, register,
    register_empty, register_internal, register_with_metadata, set_agent_uri, set_metadata,
    set_metadata_extended, sync_owner, transfer_agent,
};

fn addr(n: u8) -> Address {
    Address::new([n; 32])
}

fn fresh_config() -> RegistryConfig {
    let mut ctx = Initialize { config: None, collection_mint: addr(9), authority: addr(1), config_bump: 254 };
    initialize(&mut ctx).unwrap();
    ctx.config.unwrap()
}

fn register_ctx(config: RegistryConfig, owner: Address, mint: Address) -> Register {
    Register {
        config,
        authority: addr(1),
        agent_account: None,
        agent_mint: mint,
        collection_mint: addr(9),
        owner,
        agent_account_bump: 250,
    }
}

fn entry(key: &str, value: &[u8]) -> MetadataEntry {
    MetadataEntry { key: key.to_string(), value: value.to_vec() }
}

fn agent_with(entries: Vec<MetadataEntry>) -> AgentAccount {
    AgentAccount {
        agent_id: 7,
        owner: addr(2),
        agent_mint: addr(3),
        token_uri: "ipfs://agent".to_string(),
        metadata: entries,
        created_at: 1_700_000_000,
        bump: 255,
    }
}

fn ten_entries() -> Vec<MetadataEntry> {
    (0..10).map(|i| entry(&format!("key{}", i), &[i as u8])).collect()
}

#[test]
fn initialize_creates_the_configuration_once() {
    let mut ctx = Initialize { config: None, collection_mint: addr(9), authority: addr(1), config_bump: 254 };
    assert_eq!(initialize(&mut ctx), Ok(()));
    let config = ctx.config.unwrap();
    assert_eq!(config.authority, addr(1));
    assert_eq!(config.next_agent_id, 0);
    assert_eq!(config.total_agents, 0);
    assert_eq!(config.collection_mint, addr(9));
    assert_eq!(config.bump, 254);

    let before = ctx.clone();
    assert_eq!(initialize(&mut ctx), Err(IdentityError::AlreadyInitialized));
    assert_eq!(ctx, before);
}

#[test]
fn agent_ids_follow_the_call_order() {
    let mut config = fresh_config();
    for expected in 0u64..5 {
        let mut ctx = register_ctx(config, addr(2), addr(100 + expected as u8));
        let (registered, metadata_set) =
            register(&mut ctx, format!("ipfs://agent/{}", expected), 1_700_000_000 + expected as i64).unwrap();
        assert_eq!(registered.agent_id, expected);
        assert_eq!(registered.token_uri, format!("ipfs://agent/{}", expected));
        assert_eq!(registered.owner, addr(2));
        assert_eq!(registered.agent_mint, addr(100 + expected as u8));
        assert!(metadata_set.is_empty());
        let agent = ctx.agent_account.clone().unwrap();
        assert_eq!(agent.agent_id, expected);
        assert_eq!(agent.owner, addr(2));
        assert_eq!(agent.agent_mint, addr(100 + expected as u8));
        assert_eq!(agent.created_at, 1_700_000_000 + expected as i64);
        assert_eq!(agent.bump, 250);
        assert_eq!(ctx.config.next_agent_id, expected + 1);
        assert_eq!(ctx.config.total_agents, expected + 1);
        config = ctx.config;
    }
}

#[test]
fn refused_registration_uses_up_no_id() {
    let mut config = fresh_config();
    let mut first = register_ctx(config, addr(2), addr(100));
    assert_eq!(register_empty(&mut first, 10).unwrap().0.agent_id, 0);
    config = first.config;

    let mut refused = register_ctx(config, addr(2), addr(101));
    let before = refused.clone();
    assert_eq!(register(&mut refused, "x".repeat(201), 11).unwrap_err(), IdentityError::UriTooLong);
    assert_eq!(refused, before);

    let mut second = register_ctx(refused.config, addr(2), addr(101));
    assert_eq!(register_empty(&mut second, 12).unwrap().0.agent_id, 1);
}

#[test]
fn register_empty_stores_an_empty_uri() {
    let mut ctx = register_ctx(fresh_config(), addr(2), addr(100));
    let (registered, metadata_set) = register_empty(&mut ctx, 5).unwrap();
    assert_eq!(registered.token_uri, "");
    assert!(metadata_set.is_empty());
    let agent = ctx.agent_account.unwrap();
    assert_eq!(agent.token_uri, "");
    assert!(agent.metadata.is_empty());
    assert_eq!(agent.created_at, 5);
}

#[test]
fn register_with_metadata_stores_and_announces_each_entry() {
    let mut ctx = register_ctx(fresh_config(), addr(2), addr(100));
    let entries = vec![entry("name", b"alpha"), entry("kind", b"bot")];
    let (registered, metadata_set) =
        register_with_metadata(&mut ctx, "ipfs://a".to_string(), entries.clone(), 5).unwrap();
    assert_eq!(registered.agent_id, 0);
    assert_eq!(metadata_set.len(), 2);
    assert_eq!(metadata_set[0].agent_id, 0);
    assert_eq!(metadata_set[0].indexed_key, "name");
    assert_eq!(metadata_set[0].key, "name");
    assert_eq!(metadata_set[0].value, b"alpha".to_vec());
    assert_eq!(metadata_set[1].key, "kind");
    assert_eq!(metadata_set[1].value, b"bot".to_vec());
    assert_eq!(ctx.agent_account.unwrap().metadata, entries);
}

#[test]
fn register_accepts_the_largest_lengths() {
    let mut ctx = register_ctx(fresh_config(), addr(2), addr(100));
    let entries: Vec<MetadataEntry> =
        (0..10).map(|i| MetadataEntry { key: format!("{:0>32}", i), value: vec![i as u8; 256] }).collect();
    let r = register_internal(&mut ctx, "u".repeat(200), entries, 5);
    assert!(r.is_ok());
    assert_eq!(ctx.agent_account.unwrap().metadata.len(), 10);
}

#[test]
fn register_counts_bytes_not_characters() {
    // 67 characters of 3 bytes each: 201 bytes
    let mut ctx = register_ctx(fresh_config(), addr(2), addr(100));
    assert_eq!(register(&mut ctx, "\u{20ac}".repeat(67), 5).unwrap_err(), IdentityError::UriTooLong);
    // 66 of them and two of 1 byte: 200 bytes
    let mut uri = "\u{20ac}".repeat(66);
    uri.push_str("ab");
    assert!(register(&mut ctx, uri, 5).is_ok());
}

#[test]
fn register_refusals() {
    let config = fresh_config();

    let mut ctx = register_ctx(config, addr(2), addr(100));
    ctx.authority = addr(77);
    assert_eq!(register_empty(&mut ctx, 5).unwrap_err(), IdentityError::Unauthorized);

    let mut ctx = register_ctx(config, addr(2), addr(100));
    ctx.collection_mint = addr(77);
    assert_eq!(register_empty(&mut ctx, 5).unwrap_err(), IdentityError::InvalidCollectionMint);

    let mut ctx = register_ctx(config, addr(2), addr(100));
    assert_eq!(register(&mut ctx, "u".repeat(201), 5).unwrap_err(), IdentityError::UriTooLong);

    let mut ctx = register_ctx(config, addr(2), addr(100));
    let eleven: Vec<MetadataEntry> = (0..11).map(|i| entry(&format!("k{}", i), b"v")).collect();
    assert_eq!(
        register_with_metadata(&mut ctx, String::new(), eleven, 5).unwrap_err(),
        IdentityError::MetadataLimitReached
    );

    let mut ctx = register_ctx(config, addr(2), addr(100));
    let long_key = vec![entry("ok", b"v"), entry(&"k".repeat(33), b"v")];
    assert_eq!(
        register_with_metadata(&mut ctx, String::new(), long_key, 5).unwrap_err(),
        IdentityError::KeyTooLong
    );

    let mut ctx = register_ctx(config, addr(2), addr(100));
    let long_value = vec![entry("ok", &[0u8; 257]), entry(&"k".repeat(33), b"v")];
    assert_eq!(
        register_with_metadata(&mut ctx, String::new(), long_value, 5).unwrap_err(),
        IdentityError::ValueTooLong
    );

    let mut ctx = register_ctx(config, addr(2), addr(100));
    ctx.agent_account = Some(agent_with(vec![]));
    let before = ctx.clone();
    assert_eq!(register_empty(&mut ctx, 5).unwrap_err(), IdentityError::AlreadyInitialized);
    assert_eq!(ctx, before);
}

#[test]
fn register_refuses_to_wrap_the_counters() {
    let mut config = fresh_config();
    config.next_agent_id = u64::MAX;
    let mut ctx = register_ctx(config, addr(2), addr(100));
    let before = ctx.clone();
    assert_eq!(register_empty(&mut ctx, 5).unwrap_err(), IdentityError::Overflow);
    assert_eq!(ctx, before);

    let mut config = fresh_config();
    config.total_agents = u64::MAX;
    let mut ctx = register_ctx(config, addr(2), addr(100));
    assert_eq!(register_empty(&mut ctx, 5).unwrap_err(), IdentityError::Overflow);

    let mut config = fresh_config();
    config.next_agent_id = u64::MAX - 1;
    let mut ctx = register_ctx(config, addr(2), addr(100));
    assert_eq!(register_empty(&mut ctx, 5).unwrap().0.agent_id, u64::MAX - 1);
    assert_eq!(ctx.config.next_agent_id, u64::MAX);
}

#[test]
fn find_metadata_gives_the_first_entry_under_the_key() {
    let mut agent = agent_with(vec![entry("a", b"1"), entry("b", b"2"), entry("a", b"3")]);
    assert_eq!(agent.find_metadata("a"), Some(&entry("a", b"1")));
    assert_eq!(agent.find_metadata("b"), Some(&entry("b", b"2")));
    assert_eq!(agent.find_metadata("c"), None);
    agent.find_metadata_mut("a").unwrap().value = b"9".to_vec();
    assert_eq!(agent.metadata, vec![entry("a", b"9"), entry("b", b"2"), entry("a", b"3")]);
    assert!(agent.find_metadata_mut("zz").is_none());

    let mut extension = MetadataExtension {
        agent_mint: addr(3),
        extension_index: 0,
        metadata: vec![entry("x", b"1")],
        bump: 1,
    };
    assert_eq!(extension.find_metadata("x"), Some(&entry("x", b"1")));
    assert_eq!(extension.find_metadata("y"), None);
    extension.find_metadata_mut("x").unwrap().value = b"2".to_vec();
    assert_eq!(extension.metadata, vec![entry("x", b"2")]);
    assert!(extension.find_metadata_mut("y").is_none());
}

#[test]
fn get_metadata_is_empty_for_a_missing_key() {
    let ctx = GetMetadata { agent_account: agent_with(vec![entry("a", b"1"), entry("b", b"22")]) };
    assert_eq!(get_metadata(&ctx, "b".to_string()), Ok(b"22".to_vec()));
    assert_eq!(get_metadata(&ctx, "zz".to_string()), Ok(Vec::new()));
}

#[test]
fn set_metadata_adds_and_replaces() {
    let mut ctx = SetMetadata { agent_account: agent_with(vec![entry("a", b"1")]), owner: addr(2) };
    let event = set_metadata(&mut ctx, "b".to_string(), b"2".to_vec()).unwrap();
    assert_eq!(event.agent_id, 7);
    assert_eq!(event.indexed_key, "b");
    assert_eq!(event.key, "b");
    assert_eq!(event.value, b"2".to_vec());
    assert_eq!(ctx.agent_account.metadata, vec![entry("a", b"1"), entry("b", b"2")]);

    set_metadata(&mut ctx, "a".to_string(), b"333".to_vec()).unwrap();
    assert_eq!(ctx.agent_account.metadata, vec![entry("a", b"333"), entry("b", b"2")]);
    assert_eq!(ctx.agent_account.token_uri, "ipfs://agent");
    assert_eq!(ctx.agent_account.owner, addr(2));
}

#[test]
fn eleventh_key_is_refused_and_existing_keys_stay_writable() {
    let mut ctx = SetMetadata { agent_account: agent_with(ten_entries()), owner: addr(2) };
    let before = ctx.clone();
    assert_eq!(
        set_metadata(&mut ctx, "key10".to_string(), b"v".to_vec()).unwrap_err(),
        IdentityError::MetadataLimitReached
    );
    assert_eq!(ctx, before);
    for i in 0..10 {
        assert!(set_metadata(&mut ctx, format!("key{}", i), b"new".to_vec()).is_ok());
    }
    assert_eq!(ctx.agent_account.metadata.len(), 10);
    assert!(ctx.agent_account.metadata.iter().all(|e| e.value == b"new".to_vec()));
}

#[test]
fn tenth_key_is_accepted() {
    let mut nine = ten_entries();
    nine.pop();
    let mut ctx = SetMetadata { agent_account: agent_with(nine), owner: addr(2) };
    assert!(set_metadata(&mut ctx, "tenth".to_string(), b"v".to_vec()).is_ok());
    assert_eq!(ctx.agent_account.metadata.len(), 10);
    assert_eq!(ctx.agent_account.metadata[9], entry("tenth", b"v"));
}

#[test]
fn set_metadata_refusals() {
    let mut ctx = SetMetadata { agent_account: agent_with(vec![entry("a", b"1")]), owner: addr(66) };
    let before = ctx.clone();
    assert_eq!(set_metadata(&mut ctx, "a".to_string(), b"2".to_vec()).unwrap_err(), IdentityError::Unauthorized);
    assert_eq!(ctx, before);

    let mut ctx = SetMetadata { agent_account: agent_with(vec![]), owner: addr(2) };
    assert_eq!(set_metadata(&mut ctx, "k".repeat(33), b"2".to_vec()).unwrap_err(), IdentityError::KeyTooLong);
    assert_eq!(set_metadata(&mut ctx, "k".repeat(32), vec![0u8; 257]).unwrap_err(), IdentityError::ValueTooLong);
    assert!(set_metadata(&mut ctx, "k".repeat(32), vec![0u8; 256]).is_ok());
}

#[test]
fn set_agent_uri_replaces_the_uri() {
    let mut ctx = SetAgentUri { agent_account: agent_with(vec![entry("a", b"1")]), owner: addr(2) };
    let event = set_agent_uri(&mut ctx, "ar://new".to_string()).unwrap();
    assert_eq!(event.agent_id, 7);
    assert_eq!(event.new_uri, "ar://new");
    assert_eq!(event.updated_by, addr(2));
    assert_eq!(ctx.agent_account.token_uri, "ar://new");
    assert_eq!(ctx.agent_account.metadata, vec![entry("a", b"1")]);

    assert!(set_agent_uri(&mut ctx, "u".repeat(200)).is_ok());
    let before = ctx.clone();
    assert_eq!(set_agent_uri(&mut ctx, "u".repeat(201)).unwrap_err(), IdentityError::UriTooLong);
    assert_eq!(ctx, before);

    ctx.owner = addr(66);
    let before = ctx.clone();
    assert_eq!(set_agent_uri(&mut ctx, "x".to_string()).unwrap_err(), IdentityError::Unauthorized);
    assert_eq!(ctx, before);
}

fn holding(address: u8, owner: u8, amount: u64) -> TokenAccount {
    TokenAccount { address: addr(address), mint: addr(3), owner: addr(owner), amount }
}

#[test]
fn sync_owner_follows_the_token() {
    let mut ctx = SyncOwner { agent_account: agent_with(vec![]), token_account: holding(40, 50, 1) };
    let event = sync_owner(&mut ctx).unwrap();
    assert_eq!(event.agent_id, 7);
    assert_eq!(event.old_owner, addr(2));
    assert_eq!(event.new_owner, addr(50));
    assert_eq!(event.agent_mint, addr(3));
    assert_eq!(ctx.agent_account.owner, addr(50));

    for amount in [0u64, 2] {
        let mut ctx = SyncOwner { agent_account: agent_with(vec![]), token_account: holding(40, 50, amount) };
        let before = ctx.clone();
        assert_eq!(sync_owner(&mut ctx).unwrap_err(), IdentityError::InvalidTokenAccount);
        assert_eq!(ctx, before);
    }

    let mut other_mint = holding(40, 50, 1);
    other_mint.mint = addr(99);
    let mut ctx = SyncOwner { agent_account: agent_with(vec![]), token_account: other_mint };
    assert_eq!(sync_owner(&mut ctx).unwrap_err(), IdentityError::InvalidTokenAccount);
}

fn transfer_ctx() -> TransferAgent {
    TransferAgent {
        agent_account: agent_with(vec![]),
        from_token_account: holding(40, 2, 1),
        to_token_account: holding(41, 50, 0),
        owner: addr(2),
    }
}

#[test]
fn transfer_agent_records_the_new_owner() {
    let mut ctx = transfer_ctx();
    let (transfer, event) = transfer_agent(&mut ctx).unwrap();
    assert_eq!(transfer, TokenTransfer { from: addr(40), to: addr(41), authority: addr(2), amount: 1 });
    assert_eq!(event.agent_id, 7);
    assert_eq!(event.old_owner, addr(2));
    assert_eq!(event.new_owner, addr(50));
    assert_eq!(event.agent_mint, addr(3));
    assert_eq!(ctx.agent_account.owner, addr(50));
}

#[test]
fn transfer_agent_refusals() {
    let mut ctx = transfer_ctx();
    ctx.to_token_account = ctx.from_token_account;
    let before = ctx.clone();
    assert_eq!(transfer_agent(&mut ctx).unwrap_err(), IdentityError::TransferToSelf);
    assert_eq!(ctx, before);

    let mut ctx = transfer_ctx();
    ctx.to_token_account.owner = addr(2);
    assert_eq!(transfer_agent(&mut ctx).unwrap_err(), IdentityError::TransferToSelf);

    let mut ctx = transfer_ctx();
    ctx.owner = addr(66);
    let before = ctx.clone();
    assert_eq!(transfer_agent(&mut ctx).unwrap_err(), IdentityError::Unauthorized);
    assert_eq!(ctx, before);

    let mut ctx = transfer_ctx();
    ctx.from_token_account.mint = addr(99);
    assert_eq!(transfer_agent(&mut ctx).unwrap_err(), IdentityError::InvalidTokenAccount);

    let mut ctx = transfer_ctx();
    ctx.from_token_account.amount = 0;
    assert_eq!(transfer_agent(&mut ctx).unwrap_err(), IdentityError::InvalidTokenAccount);

    let mut ctx = transfer_ctx();
    ctx.to_token_account.mint = addr(99);
    assert_eq!(transfer_agent(&mut ctx).unwrap_err(), IdentityError::InvalidTokenAccount);
}

#[test]
fn metadata_extension_life() {
    let mut create = CreateMetadataExtension {
        metadata_extension: None,
        agent_mint: addr(3),
        agent_account: agent_with(ten_entries()),
        owner: addr(2),
        metadata_extension_bump: 200,
    };
    assert_eq!(create_metadata_extension(&mut create, 4), Ok(()));
    let extension = create.metadata_extension.clone().unwrap();
    assert_eq!(extension.agent_mint, addr(3));
    assert_eq!(extension.extension_index, 4);
    assert!(extension.metadata.is_empty());
    assert_eq!(extension.bump, 200);

    let before = create.clone();
    assert_eq!(create_metadata_extension(&mut create, 4).unwrap_err(), IdentityError::AlreadyInitialized);
    assert_eq!(create, before);

    let mut set = SetMetadataExtended {
        metadata_extension: Some(extension),
        agent_mint: addr(3),
        agent_account: agent_with(ten_entries()),
        owner: addr(2),
    };
    for i in 0..10 {
        let event = set_metadata_extended(&mut set, 4, format!("more{}", i), vec![i as u8]).unwrap();
        assert_eq!(event.agent_id, 7);
        assert_eq!(event.key, format!("more{}", i));
        assert_eq!(event.indexed_key, format!("more{}", i));
        assert_eq!(event.value, vec![i as u8]);
    }
    let before = set.clone();
    assert_eq!(
        set_metadata_extended(&mut set, 4, "more10".to_string(), vec![1]).unwrap_err(),
        IdentityError::MetadataLimitReached
    );
    assert_eq!(set, before);
    assert!(set_metadata_extended(&mut set, 4, "more3".to_string(), b"again".to_vec()).is_ok());
    let stored = set.metadata_extension.clone().unwrap();
    assert_eq!(stored.metadata.len(), 10);
    assert_eq!(stored.metadata[3], entry("more3", b"again"));
    assert_eq!(set.agent_account.metadata.len(), 10);

    let get = GetMetadataExtended { metadata_extension: Some(stored), agent_mint: addr(3) };
    assert_eq!(get_metadata_extended(&get, 4, "more3".to_string()), Ok(b"again".to_vec()));
    assert_eq!(get_metadata_extended(&get, 4, "nothing".to_string()), Ok(Vec::new()));
    assert_eq!(get_metadata_extended(&get, 5, "more3".to_string()), Err(IdentityError::ExtensionNotFound));
    let none = GetMetadataExtended { metadata_extension: None, agent_mint: addr(3) };
    assert_eq!(get_metadata_extended(&none, 4, "more3".to_string()), Err(IdentityError::ExtensionNotFound));
}

#[test]
fn metadata_extension_refusals() {
    let mut create = CreateMetadataExtension {
        metadata_extension: None,
        agent_mint: addr(3),
        agent_account: agent_with(vec![]),
        owner: addr(66),
        metadata_extension_bump: 200,
    };
    let before = create.clone();
    assert_eq!(create_metadata_extension(&mut create, 0).unwrap_err(), IdentityError::Unauthorized);
    assert_eq!(create, before);
    create.owner = addr(2);
    create.agent_mint = addr(99);
    assert_eq!(create_metadata_extension(&mut create, 0).unwrap_err(), IdentityError::Unauthorized);

    let extension = MetadataExtension { agent_mint: addr(3), extension_index: 1, metadata: vec![], bump: 9 };
    let base = SetMetadataExtended {
        metadata_extension: Some(extension),
        agent_mint: addr(3),
        agent_account: agent_with(vec![]),
        owner: addr(2),
    };

    let mut ctx = base.clone();
    ctx.metadata_extension = None;
    assert_eq!(
        set_metadata_extended(&mut ctx, 1, "k".to_string(), vec![1]).unwrap_err(),
        IdentityError::ExtensionNotFound
    );
    let mut ctx = base.clone();
    assert_eq!(
        set_metadata_extended(&mut ctx, 2, "k".to_string(), vec![1]).unwrap_err(),
        IdentityError::ExtensionNotFound
    );
    let mut ctx = base.clone();
    ctx.owner = addr(66);
    let before = ctx.clone();
    assert_eq!(
        set_metadata_extended(&mut ctx, 1, "k".to_string(), vec![1]).unwrap_err(),
        IdentityError::Unauthorized
    );
    assert_eq!(ctx, before);
    let mut ctx = base.clone();
    assert_eq!(
        set_metadata_extended(&mut ctx, 1, "k".repeat(33), vec![1]).unwrap_err(),
        IdentityError::KeyTooLong
    );
    assert_eq!(
        set_metadata_extended(&mut ctx, 1, "k".to_string(), vec![1; 257]).unwrap_err(),
        IdentityError::ValueTooLong
    );
}

#[test]
fn identity_error_messages() {
    let expected = [
        (IdentityError::UriTooLong, "Token URI exceeds maximum length of 200 bytes"),
        (IdentityError::KeyTooLong, "Metadata key exceeds maximum length of 32 bytes"),
        (IdentityError::ValueTooLong, "Metadata value exceeds maximum length of 256 bytes"),
        (IdentityError::MetadataLimitReached, "Maximum of 10 metadata entries reached"),
        (IdentityError::Unauthorized, "Only agent owner can perform this action"),
        (IdentityError::Overflow, "Arithmetic overflow occurred"),
        (IdentityError::MetadataNotFound, "Metadata key not found"),
        (IdentityError::InvalidTokenAccount, "Invalid token account: does not hold the agent NFT"),
        (IdentityError::ExtensionNotFound, "Metadata extension not found for this agent"),
        (IdentityError::InvalidExtensionIndex, "Invalid extension index"),
        (IdentityError::InvalidCollectionMint, "Collection mint does not match registry config"),
        (IdentityError::InvalidNftSupply, "NFT supply must be exactly 1"),
        (IdentityError::InvalidNftDecimals, "NFT decimals must be 0"),
        (IdentityError::TransferToSelf, "Transfer destination is same as source"),
        (IdentityError::AlreadyInitialized, "Record is already initialized"),
    ];
    for (error, message) in expected {
        assert_eq!(error.message(), message);
    }
}
