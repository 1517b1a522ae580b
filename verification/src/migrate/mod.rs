//! Contains the migration route of the contract.

/// Moves a stored configuration to the version of a newer code instance.
pub mod migrate_contract;
