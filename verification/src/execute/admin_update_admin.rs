use crate::store::contract_state::{
    get_contract_state_v1, set_contract_state_v1, ContractStateV1View, Storage, CONTRACT_TYPE,
};
use crate::types::error::{fails_with, ContractError};
use crate::types::host::{Env, MessageInfo};
use crate::types::response::{pair, Response, ResponseView};
use crate::util::validation_utils::{
    admin_route_fault, check_funds_are_empty, check_sender_is_admin,
};
use vstd::prelude::*;

verus! {

/// The message of the error for a sender who is not the admin.
pub open spec fn change_admin_message() -> Seq<char> {
    "only the contract admin may change the admin"@
}

/// The stored configuration with a new admin: the same but for the admin.
pub open spec fn state_with_admin(stored: ContractStateV1View, new_admin: Seq<char>)
    -> ContractStateV1View {
    ContractStateV1View { admin: new_admin, ..stored }
}

/// The response to a change of admin: no instructions, and in the log the action, the
/// contract, the admin before and the admin after.
pub open spec fn admin_update_admin_response(
    stored: ContractStateV1View,
    contract_address: Seq<char>,
    new_admin: Seq<char>,
) -> ResponseView {
    ResponseView {
        messages: Seq::empty(),
        attributes: seq![
            pair("action"@, "admin_update_admin"@),
            pair("contract_address"@, contract_address),
            pair("contract_type"@, CONTRACT_TYPE@),
            pair("contract_name"@, stored.contract_name),
            pair("previous_admin"@, stored.admin),
            pair("new_admin"@, new_admin),
        ],
        data: None,
    }
}

/// What a change of admin makes of the store and hands back. A call that
/// [admin_route_fault] turns away fails with that fault and leaves the store as it was.
/// Else the new admin takes the place of the stored admin and nothing else changes.
pub open spec fn admin_update_admin_outcome(
    before: Option<ContractStateV1View>,
    after: Option<ContractStateV1View>,
    result: Result<Response, ContractError>,
    contract_address: Seq<char>,
    funds: nat,
    sender: Seq<char>,
    new_admin: Seq<char>,
) -> bool {
    match admin_route_fault(before, funds, sender, change_admin_message()) {
        Some(fault) => fails_with(result, fault) && after == before,
        None => {
            &&& result matches Ok(response) && response@ == admin_update_admin_response(
                before.unwrap(),
                contract_address,
                new_admin,
            )
            &&& after == Some(state_with_admin(before.unwrap(), new_admin))
        },
    }
}

/// Invoked via the contract's execute functionality.  This function will only accept the request if
/// the sender is the registered contract admin in the contract state.  The function swaps the
/// current value in the contract state for the newly-provided value, effectively removing the
/// previous admin and setting a new one.
///
/// # Parameters
/// * `storage` The store of the contract instance.
/// * `env` Describes the contract instance that runs the route.
/// * `info` Describes the sender of the message, as well as the funds provided as an amount
/// during the transaction.
/// * `new_admin_address` The bech32 Provenance Blockchain address that will become the new admin
/// upon successful invocation of this function.
pub fn admin_update_admin(
    storage: &mut Storage,
    env: &Env,
    info: &MessageInfo,
    new_admin_address: String,
) -> (result: Result<Response, ContractError>)
    ensures
        admin_update_admin_outcome(
            old(storage)@,
            final(storage)@,
            result,
            env.contract_address@,
            info.funds@.len(),
            info.sender@,
            new_admin_address@,
        ),
{
    check_funds_are_empty(info)?;
    let mut contract_state = get_contract_state_v1(storage)?;
    check_sender_is_admin(
        info,
        &contract_state,
        "only the contract admin may change the admin",
    )?;
    let previous_admin_addr = contract_state.admin.clone();
    contract_state.admin = new_admin_address.clone();
    set_contract_state_v1(storage, &contract_state)?;
    let response = Response::new()
        .add_attribute("action", "admin_update_admin")
        .add_attribute("contract_address", env.contract_address.as_str())
        .add_attribute("contract_type", CONTRACT_TYPE)
        .add_attribute("contract_name", contract_state.contract_name.as_str())
        .add_attribute("previous_admin", previous_admin_addr.as_str())
        .add_attribute("new_admin", new_admin_address.as_str());
    assert(response@.attributes =~= admin_update_admin_response(
        old(storage)@.unwrap(),
        env.contract_address@,
        new_admin_address@,
    ).attributes);
    Ok(response)
}

} // verus!
