use crate::store::contract_state::{
    get_contract_state_v1, set_contract_state_v1, ContractStateV1View, Storage, CONTRACT_TYPE,
};
use crate::types::error::{fails_with, ContractError};
use crate::types::host::{Env, MessageInfo};
use crate::types::response::{pair, Response, ResponseView};
use crate::util::text_utils::{join_texts, joined, texts};
use crate::util::validation_utils::{
    admin_route_fault, check_funds_are_empty, check_sender_is_admin,
};
use vstd::prelude::*;

verus! {

/// The message of the error for a sender who is not the admin.
pub open spec fn update_attributes_message() -> Seq<char> {
    "only the contract admin may update attributes"@
}

/// The stored configuration with a new list of attributes required to fund trading: the
/// same but for that list, which is replaced whole.
pub open spec fn state_with_deposit_attributes(
    stored: ContractStateV1View,
    attributes: Seq<Seq<char>>,
) -> ContractStateV1View {
    ContractStateV1View { required_deposit_attributes: attributes, ..stored }
}

/// The response to a new list of attributes required to fund trading: no instructions, and
/// in the log the action, the contract, and the list before and after, each joined by
/// commas.
pub open spec fn admin_update_deposit_required_attributes_response(
    stored: ContractStateV1View,
    contract_address: Seq<char>,
    attributes: Seq<Seq<char>>,
) -> ResponseView {
    ResponseView {
        messages: Seq::empty(),
        attributes: seq![
            pair("action"@, "admin_update_deposit_required_attributes"@),
            pair("contract_address"@, contract_address),
            pair("contract_type"@, CONTRACT_TYPE@),
            pair("contract_name"@, stored.contract_name),
            pair("previous_attributes"@, joined(stored.required_deposit_attributes, ","@)),
            pair("new_attributes"@, joined(attributes, ","@)),
        ],
        data: None,
    }
}

/// What a new list of attributes required to fund trading makes of the store and hands
/// back. A call that [admin_route_fault] turns away fails with that fault and leaves the
/// store as it was. Else the new list takes the place of the stored list and nothing else
/// changes.
pub open spec fn admin_update_deposit_required_attributes_outcome(
    before: Option<ContractStateV1View>,
    after: Option<ContractStateV1View>,
    result: Result<Response, ContractError>,
    contract_address: Seq<char>,
    funds: nat,
    sender: Seq<char>,
    attributes: Seq<Seq<char>>,
) -> bool {
    match admin_route_fault(before, funds, sender, update_attributes_message()) {
        Some(fault) => fails_with(result, fault) && after == before,
        None => {
            &&& result matches Ok(response) && response@
                == admin_update_deposit_required_attributes_response(
                before.unwrap(),
                contract_address,
                attributes,
            )
            &&& after == Some(state_with_deposit_attributes(before.unwrap(), attributes))
        },
    }
}

/// Invoked via the contract's execute functionality.  This function will only accept the request if
/// the sender is the registered contract admin in the contract state.  The function sets a new
/// collection of attribute names required when an account deposits their deposit denom into the
/// contract to fund trading.
///
/// # Parameters
/// * `storage` The store of the contract instance.
/// * `env` Describes the contract instance that runs the route.
/// * `info` Describes the sender of the message, as well as the funds provided as an amount
/// during the transaction.
/// * `attributes` The new attributes that will be set in the contract state's required deposit
/// attributes upon successful execution.
pub fn admin_update_deposit_required_attributes(
    storage: &mut Storage,
    env: &Env,
    info: &MessageInfo,
    attributes: Vec<String>,
) -> (result: Result<Response, ContractError>)
    ensures
        admin_update_deposit_required_attributes_outcome(
            old(storage)@,
            final(storage)@,
            result,
            env.contract_address@,
            info.funds@.len(),
            info.sender@,
            texts(attributes@),
        ),
{
    check_funds_are_empty(info)?;
    let mut contract_state = get_contract_state_v1(storage)?;
    check_sender_is_admin(
        info,
        &contract_state,
        "only the contract admin may update attributes",
    )?;
    let previous_attributes = join_texts(
        contract_state.required_deposit_attributes.as_slice(),
        ",",
    );
    contract_state.required_deposit_attributes = attributes;
    set_contract_state_v1(storage, &contract_state)?;
    let new_attributes = join_texts(contract_state.required_deposit_attributes.as_slice(), ",");
    let response = Response::new()
        .add_attribute("action", "admin_update_deposit_required_attributes")
        .add_attribute("contract_address", env.contract_address.as_str())
        .add_attribute("contract_type", CONTRACT_TYPE)
        .add_attribute("contract_name", contract_state.contract_name.as_str())
        .add_attribute("previous_attributes", previous_attributes.as_str())
        .add_attribute("new_attributes", new_attributes.as_str());
    assert(response@.attributes =~= admin_update_deposit_required_attributes_response(
        old(storage)@.unwrap(),
        env.contract_address@,
        texts(attributes@),
    ).attributes);
    Ok(response)
}

} // verus!
