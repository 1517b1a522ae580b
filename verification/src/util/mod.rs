//! Additional functionality that does not strictly belong to a category.

/// Utility functions for converting denominations to other types.
pub mod conversion_utils;
/// Utility functions for interacting with Provenance Blockchain resources.
pub mod provenance_utils;
/// A trait for describing functions on various structs to validate their contents.
pub mod self_validating;
/// Utility functions for writing, reading and splitting text.
pub mod text_utils;
/// Utility functions that the two trade routes share.
pub mod trade_utils;
/// Utility functions for validating requests.
pub mod validation_utils;
