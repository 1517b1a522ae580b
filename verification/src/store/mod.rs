//! Contains the configuration record of the contract and the store that keeps it.

/// The singleton configuration record, and the functions that read and write it.
pub mod contract_state;
