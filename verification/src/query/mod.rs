//! Contains all query routes used by the contract.

/// Hands out the stored configuration.
pub mod query_contract_state;
