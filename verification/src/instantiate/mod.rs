//! Contains the instantiation route of the contract.

/// Creates the configuration of a new contract instance.
pub mod instantiate_contract;
