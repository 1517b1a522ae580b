use crate::store::contract_state::{
    get_contract_state_v1, missing_state_fault, ContractStateV1, Storage,
};
use crate::types::error::{fails_with, ContractError};
use vstd::prelude::*;

verus! {

/// Fetches the current values within the contract state.
///
/// # Parameters
///
/// * `storage` The store of the contract instance.
pub fn query_contract_state(storage: &Storage) -> (result: Result<ContractStateV1, ContractError>)
    ensures
        match storage@ {
            Some(stored) => result matches Ok(state) && state@ == stored,
            None => fails_with(result, missing_state_fault()),
        },
{
    get_contract_state_v1(storage)
}

} // verus!
