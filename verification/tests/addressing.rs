use agent_registry::address::Address;
use agent_registry::addressing::{is_derived, RecordKey};
use anchor_lang::prelude::Pubkey;

fn addr(n: u8) -> Address {
    Address::new([n; 32])
}

fn all_keys() -> Vec<RecordKey> {
    vec![
        RecordKey::Config,
        RecordKey::Agent { agent_mint: addr(3) },
        RecordKey::Agent { agent_mint: addr(4) },
        RecordKey::MetadataExtension { agent_mint: addr(3), extension_index: 0 },
        RecordKey::MetadataExtension { agent_mint: addr(3), extension_index: 1 },
        RecordKey::ClientIndex { agent_id: 7, client: addr(5) },
        RecordKey::ClientIndex { agent_id: 8, client: addr(5) },
        RecordKey::Feedback { agent_id: 7, client: addr(5), feedback_index: 0 },
        RecordKey::Feedback { agent_id: 7, client: addr(5), feedback_index: 1 },
        RecordKey::Feedback { agent_id: 7, client: addr(6), feedback_index: 0 },
        RecordKey::AgentReputation { agent_id: 7 },
        RecordKey::ResponseIndex { agent_id: 7, client: addr(5), feedback_index: 0 },
        RecordKey::Response { agent_id: 7, client: addr(5), feedback_index: 0, response_index: 0 },
        RecordKey::Response { agent_id: 7, client: addr(5), feedback_index: 0, response_index: 1 },
        RecordKey::Validation { agent_id: 7, validator: addr(5), nonce: 0 },
        RecordKey::Validation { agent_id: 7, validator: addr(5), nonce: 1 },
    ]
}

#[test]
fn seeds_are_the_tag_and_the_identifiers() {
    assert_eq!(RecordKey::Config.seeds(), vec![b"config".to_vec()]);
    assert_eq!(RecordKey::Agent { agent_mint: addr(3) }.seeds(), vec![b"agent".to_vec(), vec![3u8; 32]]);
    assert_eq!(
        RecordKey::MetadataExtension { agent_mint: addr(3), extension_index: 9 }.seeds(),
        vec![b"metadata_ext".to_vec(), vec![3u8; 32], vec![9u8]]
    );
    assert_eq!(
        RecordKey::ClientIndex { agent_id: 0x0102, client: addr(5) }.seeds(),
        vec![b"client_index".to_vec(), vec![2, 1, 0, 0, 0, 0, 0, 0], vec![5u8; 32]]
    );
    assert_eq!(
        RecordKey::Feedback { agent_id: 7, client: addr(5), feedback_index: u64::MAX }.seeds(),
        vec![b"feedback".to_vec(), 7u64.to_le_bytes().to_vec(), vec![5u8; 32], vec![255u8; 8]]
    );
    assert_eq!(
        RecordKey::AgentReputation { agent_id: 7 }.seeds(),
        vec![b"agent_reputation".to_vec(), 7u64.to_le_bytes().to_vec()]
    );
    assert_eq!(
        RecordKey::ResponseIndex { agent_id: 7, client: addr(5), feedback_index: 2 }.seeds(),
        vec![b"response_index".to_vec(), 7u64.to_le_bytes().to_vec(), vec![5u8; 32], 2u64.to_le_bytes().to_vec()]
    );
    assert_eq!(
        RecordKey::Response { agent_id: 7, client: addr(5), feedback_index: 2, response_index: 3 }.seeds(),
        vec![
            b"response".to_vec(),
            7u64.to_le_bytes().to_vec(),
            vec![5u8; 32],
            2u64.to_le_bytes().to_vec(),
            3u64.to_le_bytes().to_vec()
        ]
    );
    assert_eq!(
        RecordKey::Validation { agent_id: 7, validator: addr(5), nonce: 0x01020304 }.seeds(),
        vec![b"validation".to_vec(), 7u64.to_le_bytes().to_vec(), vec![5u8; 32], vec![4, 3, 2, 1]]
    );
    assert_eq!(RecordKey::Feedback { agent_id: 7, client: addr(5), feedback_index: 0 }.tag_bytes(), b"feedback".to_vec());
}

#[test]
fn address_is_the_program_derived_address_of_the_seeds() {
    let program = Pubkey::new_from_array([42; 32]);
    for key in all_keys() {
        let seeds = key.seeds();
        let slices: Vec<&[u8]> = seeds.iter().map(|s| s.as_slice()).collect();
        let (expected, bump) = Pubkey::find_program_address(&slices, &program);
        let found = key.find_address(&Address::new([42; 32]));
        assert_eq!(found, Some((Address::new(expected.to_bytes()), bump)));
        assert_ne!(found.unwrap().0, Address::new([42; 32]));
        assert!(key.is_at(&Address::new([42; 32]), &Address::new(expected.to_bytes())));
        assert!(!key.is_at(&Address::new([43; 32]), &Address::new(expected.to_bytes())));
        assert!(!key.is_at(&Address::new([42; 32]), &addr(1)));
    }
}

#[test]
fn address_is_stable_and_tells_records_apart() {
    let program = addr(42);
    let keys = all_keys();
    let addresses: Vec<Address> = keys.iter().map(|k| k.find_address(&program).unwrap().0).collect();
    for (i, key) in keys.iter().enumerate() {
        assert_eq!(key.find_address(&program).unwrap().0, addresses[i]);
        for j in 0..i {
            assert_ne!(keys[i].seeds(), keys[j].seeds());
            assert_ne!(keys[i].seeds().concat(), keys[j].seeds().concat());
            assert_ne!(addresses[i], addresses[j]);
        }
    }
    // the configuration records of two ledgers are two records
    assert_ne!(RecordKey::Config.find_address(&addr(1)), RecordKey::Config.find_address(&addr(2)));
}

#[test]
fn is_derived_compares_with_what_was_found() {
    assert!(is_derived(&Some((addr(1), 255)), &addr(1)));
    assert!(!is_derived(&Some((addr(1), 255)), &addr(2)));
    assert!(!is_derived(&None, &addr(1)));
}

#[test]
fn address_from_slice_and_back() {
    let bytes: Vec<u8> = (0u8..32).collect();
    let address = Address::from_slice(&bytes).unwrap();
    assert_eq!(address.to_vec(), bytes);
    assert_eq!(address.bytes[31], 31);
    assert_eq!(Address::from_slice(&bytes[..31]), None);
    assert_eq!(Address::from_slice(&[0u8; 33]), None);
    assert_eq!(address, Address::new(address.bytes));
    let mut other = address.bytes;
    other[31] = 0;
    assert_ne!(address, Address::new(other));
}
