use crate::types::error::{passes_unless, ContractError, ContractErrorView};
use vstd::prelude::*;

verus! {

/// The validation error that carries a complaint, where there is a complaint.
pub open spec fn validation_fault(complaint: Option<Seq<char>>) -> Option<ContractErrorView> {
    match complaint {
        None => None,
        Some(message) => Some(ContractErrorView::ValidationError { message }),
    }
}

/// A trait that defines a struct that validates its own fields.
pub trait SelfValidating {
    /// What is wrong with the fields, where anything is: the message of the error that
    /// [self_validate](SelfValidating::self_validate) returns.
    spec fn complaint(&self) -> Option<Seq<char>>;

    /// Validates all fields by self-reference, where necessary.
    fn self_validate(&self) -> (result: Result<(), ContractError>)
        ensures
            passes_unless(result, validation_fault(self.complaint())),
    ;
}

} // verus!
