use vstd::prelude::*;

verus! {

/// Why the identity ledger refused a request.
#[derive(Clone, Copy, Debug, PartialEq, Eq, Structural)]
pub enum IdentityError {
    /// Token URI exceeds maximum length of 200 bytes.
    UriTooLong,
    /// Metadata key exceeds maximum length of 32 bytes.
    KeyTooLong,
    /// Metadata value exceeds maximum length of 256 bytes.
    ValueTooLong,
    /// Maximum of 10 metadata entries reached.
    MetadataLimitReached,
    /// Only agent owner can perform this action.
    Unauthorized,
    /// Arithmetic overflow occurred.
    Overflow,
    /// Metadata key not found.
    MetadataNotFound,
    /// Invalid token account: does not hold the agent NFT.
    InvalidTokenAccount,
    /// Metadata extension not found for this agent.
    ExtensionNotFound,
    /// Invalid extension index.
    InvalidExtensionIndex,
    /// Collection mint does not match registry config.
    InvalidCollectionMint,
    /// NFT supply must be exactly 1.
    InvalidNftSupply,
    /// NFT decimals must be 0.
    InvalidNftDecimals,
    /// Transfer destination is same as source.
    TransferToSelf,
    /// The record to create already exists.
    AlreadyInitialized,
}

impl IdentityError {
    /// The text that describes the error to a caller.
    pub open spec fn spec_message(self) -> Seq<char> {
        match self {
            IdentityError::UriTooLong => "Token URI exceeds maximum length of 200 bytes"@,
            IdentityError::KeyTooLong => "Metadata key exceeds maximum length of 32 bytes"@,
            IdentityError::ValueTooLong => "Metadata value exceeds maximum length of 256 bytes"@,
            IdentityError::MetadataLimitReached => "Maximum of 10 metadata entries reached"@,
            IdentityError::Unauthorized => "Only agent owner can perform this action"@,
            IdentityError::Overflow => "Arithmetic overflow occurred"@,
            IdentityError::MetadataNotFound => "Metadata key not found"@,
            IdentityError::InvalidTokenAccount => "Invalid token account: does not hold the agent NFT"@,
            IdentityError::ExtensionNotFound => "Metadata extension not found for this agent"@,
            IdentityError::InvalidExtensionIndex => "Invalid extension index"@,
            IdentityError::InvalidCollectionMint => "Collection mint does not match registry config"@,
            IdentityError::InvalidNftSupply => "NFT supply must be exactly 1"@,
            IdentityError::InvalidNftDecimals => "NFT decimals must be 0"@,
            IdentityError::TransferToSelf => "Transfer destination is same as source"@,
            IdentityError::AlreadyInitialized => "Record is already initialized"@,
        }
    }

    pub fn message(&self) -> (r: &'static str)
        ensures
            r@ == self.spec_message(),
    {
        match self {
            IdentityError::UriTooLong => "Token URI exceeds maximum length of 200 bytes",
            IdentityError::KeyTooLong => "Metadata key exceeds maximum length of 32 bytes",
            IdentityError::ValueTooLong => "Metadata value exceeds maximum length of 256 bytes",
            IdentityError::MetadataLimitReached => "Maximum of 10 metadata entries reached",
            IdentityError::Unauthorized => "Only agent owner can perform this action",
            IdentityError::Overflow => "Arithmetic overflow occurred",
            IdentityError::MetadataNotFound => "Metadata key not found",
            IdentityError::InvalidTokenAccount => "Invalid token account: does not hold the agent NFT",
            IdentityError::ExtensionNotFound => "Metadata extension not found for this agent",
            IdentityError::InvalidExtensionIndex => "Invalid extension index",
            IdentityError::InvalidCollectionMint => "Collection mint does not match registry config",
            IdentityError::InvalidNftSupply => "NFT supply must be exactly 1",
            IdentityError::InvalidNftDecimals => "NFT decimals must be 0",
            IdentityError::TransferToSelf => "Transfer destination is same as source",
            IdentityError::AlreadyInitialized => "Record is already initialized",
        }
    }
}

} // verus!
