use agent_registry::identity::state::{AgentAccount, MetadataEntry, MetadataExtension, RegistryConfig};
use agent_registry::validation::state::{ValidationConfig, ValidationRequest};

#[test]
fn test_registry_config_size() {
    assert_eq!(RegistryConfig::SIZE, 81);
}

#[test]
fn test_metadata_entry_size() {
    assert_eq!(MetadataEntry::MAX_SIZE, 296);
}

#[test]
fn test_agent_account_max_size() {
    // Should be under 10KB for reasonable rent costs
    assert!(AgentAccount::MAX_SIZE < 10240);
    // Actual expected size
    assert_eq!(AgentAccount::MAX_SIZE, 3257);
}

#[test]
fn test_metadata_extension_max_size() {
    // Should be under 10KB for reasonable rent costs
    assert!(MetadataExtension::MAX_SIZE < 10240);
    // Actual expected size: 8 + 32 + 1 + 4 + (10 * 296) + 1 = 3006
    assert_eq!(MetadataExtension::MAX_SIZE, 3006);
}

#[test]
fn test_validation_config_size() {
    assert_eq!(ValidationConfig::SIZE, 81);
}

#[test]
fn test_validation_request_size() {
    assert_eq!(ValidationRequest::SIZE, 126);
}

#[test]
fn test_max_uri_length() {
    assert_eq!(ValidationRequest::MAX_URI_LENGTH, 200);
}
