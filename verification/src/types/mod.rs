//! Contains all types and base functionality used to construct the logic of the contract.

/// Defines a blockchain denom associated with a marker in reference to the contract's usages.
pub mod denom;
/// Defines all errors emitted by the contract.
pub mod error;
/// Defines what the host hands to an operation: the caller, the attached funds, the
/// contract's own address.
pub mod host;
/// Defines what the ledger is asked by an operation, and what it answers.
pub mod ledger;
/// Defines all msg payloads sent to the contract.
pub mod msg;
/// Defines what an operation hands back: settlement instructions and a descriptive log.
pub mod response;
