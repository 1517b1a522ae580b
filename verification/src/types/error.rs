use vstd::prelude::*;

verus! {

/// The base error enum that is used to wrap any errors that occur throughout contract execution.
#[derive(Debug)]
pub enum ContractError {
    /// An error that occurs when a conversion between two denominations fails.
    ConversionError {
        /// A free-form message describing the nature of the error.
        message: String,
    },
    /// An error that occurs when a blockchain account contains invalid information.
    InvalidAccountError {
        /// A free-form message describing the nature of the error.
        message: String,
    },
    /// An error that occurs when an invalid text format is detected.
    InvalidFormatError {
        /// A free-form message describing the nature of the error.
        message: String,
    },
    /// An error that occurs when invalid funds are sent to the contract.
    InvalidFundsError {
        /// A free-form message describing the nature of the error.
        message: String,
    },
    /// An error that occurs when a migration fails.
    MigrationError {
        /// A free-form message describing the nature of the error.
        message: String,
    },
    /// An error that occurs when the executing sender is not authorized to take an action.
    NotAuthorizedError {
        /// A free-form message describing the nature of the error.
        message: String,
    },
    /// An error that occurs when a target resource cannot be found.
    NotFoundError {
        /// A free-form message describing the nature of the error.
        message: String,
    },
    /// A wrapper for a core library integer parsing error.
    ParseIntError(std::num::ParseIntError),
    /// A wrapper for a semver library error.
    SemVerError(semver::Error),
    /// An error that occurs when smart contract storage fails.
    StorageError {
        /// A free-form message describing the nature of the error.
        message: String,
    },
    /// An error that occurs when type validation fails.
    ValidationError {
        /// A free-form message describing the nature of the error.
        message: String,
    },
}

/// What a [ContractError] is in contracts: its kind, and its message as characters. Of an
/// error that wraps the error of another library only the kind is known.
pub enum ContractErrorView {
    ConversionError { message: Seq<char> },
    InvalidAccountError { message: Seq<char> },
    InvalidFormatError { message: Seq<char> },
    InvalidFundsError { message: Seq<char> },
    MigrationError { message: Seq<char> },
    NotAuthorizedError { message: Seq<char> },
    NotFoundError { message: Seq<char> },
    ParseIntError,
    SemVerError,
    StorageError { message: Seq<char> },
    ValidationError { message: Seq<char> },
}

impl View for ContractError {
    type V = ContractErrorView;

    open spec fn view(&self) -> ContractErrorView {
        match self {
            ContractError::ConversionError { message } => ContractErrorView::ConversionError {
                message: message@,
            },
            ContractError::InvalidAccountError { message } => {
                ContractErrorView::InvalidAccountError { message: message@ }
            },
            ContractError::InvalidFormatError { message } => ContractErrorView::InvalidFormatError {
                message: message@,
            },
            ContractError::InvalidFundsError { message } => ContractErrorView::InvalidFundsError {
                message: message@,
            },
            ContractError::MigrationError { message } => ContractErrorView::MigrationError {
                message: message@,
            },
            ContractError::NotAuthorizedError { message } => ContractErrorView::NotAuthorizedError {
                message: message@,
            },
            ContractError::NotFoundError { message } => ContractErrorView::NotFoundError {
                message: message@,
            },
            ContractError::ParseIntError(_) => ContractErrorView::ParseIntError,
            ContractError::SemVerError(_) => ContractErrorView::SemVerError,
            ContractError::StorageError { message } => ContractErrorView::StorageError {
                message: message@,
            },
            ContractError::ValidationError { message } => ContractErrorView::ValidationError {
                message: message@,
            },
        }
    }
}

/// Whether a result is the error that `fault` describes.
pub open spec fn fails_with<T>(result: Result<T, ContractError>, fault: ContractErrorView) -> bool {
    result matches Err(error) && error@ == fault
}

/// Whether a result is in order where there is no fault, and the error of the fault where
/// there is one.
pub open spec fn passes_unless<T>(
    result: Result<T, ContractError>,
    fault: Option<ContractErrorView>,
) -> bool {
    match fault {
        None => result is Ok,
        Some(fault) => fails_with(result, fault),
    }
}

} // verus!
