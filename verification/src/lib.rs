//! Three ledgers for autonomous agents: identity, reputation and
//! validation.
//!
//! Each operation of a ledger is a function from the records that a request
//! touches, and its arguments, to the records afterwards and a
//! notification. It accepts or refuses as a whole: a refused request changes
//! nothing. What must hold of the records of a ledger taken together, after
//! any requests in any order, is stated over a model of the storage behind
//! the ledger and proved of these functions.
//!
//! The address of a record is derived from its semantic identifiers alone,
//! by `addressing`.

pub mod address;
pub mod addressing;
pub mod identity;
pub mod reputation;
pub mod text;
pub mod validation;
