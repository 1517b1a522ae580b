use crate::store::contract_state::{
    set_contract_state_v1, ContractStateV1, ContractStateV1View, Storage, CONTRACT_TYPE,
    CONTRACT_VERSION,
};
use crate::types::error::{fails_with, ContractError, ContractErrorView};
use crate::types::host::{Env, MessageInfo};
use crate::types::msg::InstantiateMsg;
use crate::types::response::{pair, Instruction, InstructionView, Response, ResponseView};
use crate::util::provenance_utils::{bind_name_request, empty_bind_name_message, msg_bind_name};
use crate::util::text_utils::texts;
use crate::util::validation_utils::{check_funds_are_empty, funds_fault};
use vstd::prelude::*;

verus! {

/// The name that an instantiation asks to bind to the contract, where it asks for one.
pub open spec fn name_to_bind_text(msg: InstantiateMsg) -> Option<Seq<char>> {
    match msg.name_to_bind {
        Some(name) => Some(name@),
        None => None,
    }
}

/// The configuration that an instantiation stores: the sender is the admin, the type and
/// the version are those of this crate, and the rest is as the message has it.
pub open spec fn instantiated_state(sender: Seq<char>, msg: InstantiateMsg) -> ContractStateV1View {
    ContractStateV1View {
        admin: sender,
        contract_name: msg.contract_name@,
        contract_type: CONTRACT_TYPE@,
        contract_version: CONTRACT_VERSION@,
        deposit_marker: msg.deposit_marker@,
        trading_marker: msg.trading_marker@,
        required_deposit_attributes: texts(msg.required_deposit_attributes@),
        required_withdraw_attributes: texts(msg.required_withdraw_attributes@),
    }
}

/// What is wrong with an instantiation. Attached funds are judged first; then a name to
/// bind must not start with a dot.
pub open spec fn instantiate_fault(funds: nat, contract_address: Seq<char>, msg: InstantiateMsg)
    -> Option<ContractErrorView> {
    if funds_fault(funds) is Some {
        funds_fault(funds)
    } else {
        match name_to_bind_text(msg) {
            Some(name) => if bind_name_request(name, contract_address, true) is None {
                Some(
                    ContractErrorView::InvalidFormatError {
                        message: empty_bind_name_message(name),
                    },
                )
            } else {
                None
            },
            None => None,
        }
    }
}

/// The response to an instantiation: in the log the action, the name of the contract and
/// the names of the two markers; and, where a name is to be bound, the instruction that
/// binds it, restricted, to the address of the contract, and the name in the log.
pub open spec fn instantiate_response(contract_address: Seq<char>, msg: InstantiateMsg)
    -> ResponseView {
    let attributes = seq![
        pair("action"@, "instantiate"@),
        pair("contract_name"@, msg.contract_name@),
        pair("deposit_marker_name"@, msg.deposit_marker.name@),
        pair("trading_marker_name"@, msg.trading_marker.name@),
    ];
    match name_to_bind_text(msg) {
        Some(name) => ResponseView {
            messages: seq![
                InstructionView::BindName(bind_name_request(name, contract_address, true).unwrap()),
            ],
            attributes: attributes.push(pair("contract_bound_with_name"@, name)),
            data: None,
        },
        None => ResponseView { messages: Seq::empty(), attributes, data: None },
    }
}

/// What an instantiation makes of the store and hands back. Where [instantiate_fault]
/// finds a fault it fails with that fault and leaves the store as it was. Else the store
/// holds the new configuration, whatever it held before.
pub open spec fn instantiate_outcome(
    before: Option<ContractStateV1View>,
    after: Option<ContractStateV1View>,
    result: Result<Response, ContractError>,
    contract_address: Seq<char>,
    funds: nat,
    sender: Seq<char>,
    msg: InstantiateMsg,
) -> bool {
    match instantiate_fault(funds, contract_address, msg) {
        Some(fault) => fails_with(result, fault) && after == before,
        None => {
            &&& result matches Ok(response) && response@ == instantiate_response(
                contract_address,
                msg,
            )
            &&& after == Some(instantiated_state(sender, msg))
        },
    }
}

/// The core functionality that runs when the contract is first instantiated.  This creates the
/// singleton instance of the contract state used to denote the various configurations for the
/// contract, as well as optionally binding the contract's name if it does not need to be bound
/// after creation due to namespace restrictions.
///
/// # Parameters
/// * `storage` The store of the contract instance.
/// * `env` Describes the contract instance that is created.
/// * `info` Describes the sender of the instantiation message, as well as the funds provided as
/// an amount during the transaction.
/// * `msg` A custom instantiation message defined by this contract for creating the initial
/// configuration used by the contract.
pub fn instantiate_contract(
    storage: &mut Storage,
    env: &Env,
    info: &MessageInfo,
    msg: &InstantiateMsg,
) -> (result: Result<Response, ContractError>)
    ensures
        instantiate_outcome(
            old(storage)@,
            final(storage)@,
            result,
            env.contract_address@,
            info.funds@.len(),
            info.sender@,
            *msg,
        ),
{
    check_funds_are_empty(info)?;
    let contract_state = ContractStateV1::new(
        info.sender.as_str(),
        msg.contract_name.as_str(),
        &msg.deposit_marker,
        &msg.trading_marker,
        msg.required_deposit_attributes.as_slice(),
        msg.required_withdraw_attributes.as_slice(),
    );
    let mut response = Response::new()
        .add_attribute("action", "instantiate")
        .add_attribute("contract_name", msg.contract_name.as_str())
        .add_attribute("deposit_marker_name", msg.deposit_marker.name.as_str())
        .add_attribute("trading_marker_name", msg.trading_marker.name.as_str());
    if let Some(name) = &msg.name_to_bind {
        let bind = msg_bind_name(name.as_str(), env.contract_address.as_str(), true)?;
        response = response
            .add_message(Instruction::BindName(bind))
            .add_attribute("contract_bound_with_name", name.as_str());
    }
    set_contract_state_v1(storage, &contract_state)?;
    proof {
        let expected = instantiate_response(env.contract_address@, *msg);
        assert(response@.messages =~= expected.messages);
        assert(response@.attributes =~= expected.attributes);
    }
    Ok(response)
}

} // verus!
