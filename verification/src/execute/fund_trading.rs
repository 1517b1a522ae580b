use crate::store::contract_state::{
    get_contract_state_v1, missing_state_fault, ContractStateV1View, Storage, CONTRACT_TYPE,
};
use crate::types::denom::DenomConversion;
use crate::types::error::{fails_with, ContractError, ContractErrorView};
use crate::types::host::{Env, MessageInfo};
use crate::types::ledger::{page_views, AttributePage, AttributePageView, LedgerCoin};
use crate::types::response::{pair, Instruction, InstructionView, Response, ResponseView};
use crate::util::conversion_utils::converted;
use crate::util::provenance_utils::balance_text;
use crate::util::text_utils::{decimal_digits, decimal_text};
use crate::util::trade_utils::{
    add_remainder_attributes, check_trade, remainder_attributes, trade_fault,
};
use crate::util::validation_utils::{check_funds_are_empty, funds_fault};
use vstd::prelude::*;

verus! {

/// What is wrong with a request to fund trading. Attached funds are judged first, then the
/// store must hold a configuration, then the trade of deposit denom for trading denom must
/// be in order, for an account with the attributes required to deposit.
pub open spec fn fund_trading_fault(
    stored: Option<ContractStateV1View>,
    funds: nat,
    sender: Seq<char>,
    balance: Option<Seq<char>>,
    attribute_pages: Seq<AttributePageView>,
    trade_amount: u128,
) -> Option<ContractErrorView> {
    if funds_fault(funds) is Some {
        funds_fault(funds)
    } else {
        match stored {
            None => Some(missing_state_fault()),
            Some(stored) => trade_fault(
                sender,
                stored.deposit_marker,
                stored.trading_marker,
                stored.required_deposit_attributes,
                balance,
                attribute_pages,
                trade_amount,
            ),
        }
    }
}

/// The instructions that fund trading, in their order. First the contract collects from the
/// sender the requested amount of deposit denom, less the remainder that does not convert.
/// Then it mints the converted amount of trading denom. Last it releases the minted amount
/// to the sender. Nothing is released before its backing is collected.
pub open spec fn fund_trading_messages(
    stored: ContractStateV1View,
    contract_address: Seq<char>,
    sender: Seq<char>,
    conversion: DenomConversion,
) -> Seq<InstructionView> {
    seq![
        InstructionView::Transfer {
            administrator: contract_address,
            denom: stored.deposit_marker.name,
            amount: (conversion.source_amount - conversion.remainder) as u128,
            from_address: sender,
            to_address: contract_address,
        },
        InstructionView::Mint {
            administrator: contract_address,
            denom: stored.trading_marker.name,
            amount: conversion.target_amount,
        },
        InstructionView::Withdraw {
            administrator: contract_address,
            denom: stored.trading_marker.name,
            amount: conversion.target_amount,
            to_address: sender,
        },
    ]
}

/// The response to a request that funds trading: the instructions, and in the log the
/// action, the contract, the deposit denom with the amount requested and the amount
/// collected, the trading denom with the amount received, and the remainder where there
/// is one.
pub open spec fn fund_trading_response(
    stored: ContractStateV1View,
    contract_address: Seq<char>,
    sender: Seq<char>,
    conversion: DenomConversion,
) -> ResponseView {
    ResponseView {
        messages: fund_trading_messages(stored, contract_address, sender, conversion),
        attributes: seq![
            pair("action"@, "fund_trading"@),
            pair("contract_address"@, contract_address),
            pair("contract_type"@, CONTRACT_TYPE@),
            pair("contract_name"@, stored.contract_name),
            pair("deposit_input_denom"@, stored.deposit_marker.name),
            pair("deposit_requested_amount"@, decimal_digits(conversion.source_amount as nat)),
            pair(
                "deposit_actual_amount"@,
                decimal_digits((conversion.source_amount - conversion.remainder) as nat),
            ),
            pair("received_denom"@, stored.trading_marker.name),
            pair("received_amount"@, decimal_digits(conversion.target_amount as nat)),
        ] + remainder_attributes(stored.deposit_marker.name, conversion.remainder),
        data: None,
    }
}

/// What a request to fund trading hands back: the error of the first fault that
/// [fund_trading_fault] finds, or the response for the conversion of the requested amount
/// from the deposit denom to the trading denom.
pub open spec fn fund_trading_outcome(
    result: Result<Response, ContractError>,
    stored: Option<ContractStateV1View>,
    contract_address: Seq<char>,
    funds: nat,
    sender: Seq<char>,
    balance: Option<Seq<char>>,
    attribute_pages: Seq<AttributePageView>,
    trade_amount: u128,
) -> bool {
    match fund_trading_fault(stored, funds, sender, balance, attribute_pages, trade_amount) {
        Some(fault) => fails_with(result, fault),
        None => result matches Ok(response) && response@ == fund_trading_response(
            stored.unwrap(),
            contract_address,
            sender,
            converted(
                trade_amount,
                stored.unwrap().deposit_marker.precision,
                stored.unwrap().trading_marker.precision,
            ).unwrap(),
        ),
    }
}

/// Invoked via the contract's execute functionality.  The function will attempt to pull the
/// trade amount of the deposit marker's denom from the sender's account with a marker transfer,
/// discern how much of the trading denom to which the submitted amount is equivalent, and then
/// mint and withdraw that equivalent amount into the sender's account.
///
/// # Parameters
/// * `storage` The store of the contract instance.
/// * `env` Describes the contract instance that runs the route.
/// * `info` Describes the sender of the message, as well as the funds provided as an amount
/// during the transaction.
/// * `balance` What the bank module answered when asked for the sender's balance in the
/// deposit denom.
/// * `attribute_pages` The pages of the sender's attributes, read as
/// [attribute_step](crate::util::provenance_utils::attribute_step) asked for them.
/// * `trade_amount` The amount of the deposit marker to pull from the sender's account in exchange
/// for trading denom.
pub fn fund_trading(
    storage: &Storage,
    env: &Env,
    info: &MessageInfo,
    balance: &Option<LedgerCoin>,
    attribute_pages: &[AttributePage],
    trade_amount: u128,
) -> (result: Result<Response, ContractError>)
    ensures
        fund_trading_outcome(
            result,
            storage@,
            env.contract_address@,
            info.funds@.len(),
            info.sender@,
            balance_text(*balance),
            page_views(attribute_pages@),
            trade_amount,
        ),
{
    check_funds_are_empty(info)?;
    let contract_state = get_contract_state_v1(storage)?;
    let conversion = check_trade(
        info.sender.as_str(),
        &contract_state.deposit_marker,
        &contract_state.trading_marker,
        contract_state.required_deposit_attributes.as_slice(),
        balance,
        attribute_pages,
        trade_amount,
    )?;
    // Transfer the necessary amount from the sender (total amount requested - remainder that
    // cannot be converted)
    let transferred_amount = trade_amount - conversion.remainder;
    let transfer_msg = Instruction::Transfer {
        administrator: env.contract_address.clone(),
        denom: contract_state.deposit_marker.name.clone(),
        amount: transferred_amount,
        from_address: info.sender.clone(),
        to_address: env.contract_address.clone(),
    };
    // Mint the amount of coin to which the conversion equates
    let mint_msg = Instruction::Mint {
        administrator: env.contract_address.clone(),
        denom: contract_state.trading_marker.name.clone(),
        amount: conversion.target_amount,
    };
    // Withdraw the newly-minted coin to the sender, effectively making the trade
    let withdraw_msg = Instruction::Withdraw {
        administrator: env.contract_address.clone(),
        denom: contract_state.trading_marker.name.clone(),
        amount: conversion.target_amount,
        to_address: info.sender.clone(),
    };
    let response = Response::new()
        .add_message(transfer_msg)
        .add_message(mint_msg)
        .add_message(withdraw_msg)
        .add_attribute("action", "fund_trading")
        .add_attribute("contract_address", env.contract_address.as_str())
        .add_attribute("contract_type", CONTRACT_TYPE)
        .add_attribute("contract_name", contract_state.contract_name.as_str())
        .add_attribute("deposit_input_denom", contract_state.deposit_marker.name.as_str())
        .add_attribute("deposit_requested_amount", decimal_text(trade_amount).as_str())
        .add_attribute("deposit_actual_amount", decimal_text(transferred_amount).as_str())
        .add_attribute("received_denom", contract_state.trading_marker.name.as_str())
        .add_attribute("received_amount", decimal_text(conversion.target_amount).as_str());
    let response = add_remainder_attributes(
        response,
        contract_state.deposit_marker.name.as_str(),
        conversion.remainder,
    );
    proof {
        let expected = fund_trading_response(
            storage@.unwrap(),
            env.contract_address@,
            info.sender@,
            conversion,
        );
        assert(response@.messages =~= expected.messages);
        assert(response@.attributes =~= expected.attributes);
    }
    Ok(response)
}

} // verus!
