//! A value bridge between two restricted marker denominations.
//!
//! A deposit denom and a trading denom stand for the same value at different decimal
//! precisions. Holders exchange one for the other one-to-one, up to the digits that the
//! coarser precision cannot hold. Every operation is a function from the stored
//! configuration and the answers of the ledger to an ordered list of settlement
//! instructions and a list of descriptive attributes.
//!
//! The library reads nothing and sends nothing. Its caller keeps the configuration in a
//! [Storage](store::contract_state::Storage), asks the ledger what
//! [ledger_question](contract::ledger_question) names for a message, one question after
//! another until nothing is left to ask, and hands the answers to
//! [execute](contract::execute). What comes back is a
//! [Response](types::response::Response), or the error of the first fault that was found,
//! in which case the configuration is left as it was.

/// The entrypoint for all external commands sent to the contract.
pub mod contract;
/// All code and functions pertaining to the execute entrypoint.
pub mod execute;
/// All code and functions pertaining to the instantiate entrypoint.
pub mod instantiate;
/// All code and functions pertaining to the migrate entrypoint.
pub mod migrate;
/// All code and functions pertaining to the query entrypoint.
pub mod query;
/// All code and functions pertaining to interacting with mutable contract data storage.
pub mod store;
/// All globally-defined structs used by functions throughout the contract.
pub mod types;
/// Utility functions and traits adopted by various aspects of the contract.
pub mod util;
