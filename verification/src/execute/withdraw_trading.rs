use crate::execute::fund_trading::fund_trading_messages;
use crate::store::contract_state::{
    get_contract_state_v1, missing_state_fault, ContractStateV1View, Storage, CONTRACT_TYPE,
};
use crate::types::denom::DenomConversion;
use crate::types::error::{fails_with, ContractError, ContractErrorView};
use crate::types::host::{Env, MessageInfo};
use crate::types::ledger::{
    page_views, AttributePage, AttributePageView, LedgerCoin, PackedAccount,
};
use crate::types::response::{pair, Instruction, InstructionView, Response, ResponseView};
use crate::util::conversion_utils::{
    converted, lemma_remainder_is_part_of_amount, lemma_round_trip_loses_only_the_remainder,
};
use crate::util::provenance_utils::{
    balance_text, get_marker_address_for_denom, marker_address_for_denom,
};
use crate::util::text_utils::{decimal_digits, decimal_text};
use crate::util::trade_utils::{
    add_remainder_attributes, check_trade, remainder_attributes, trade_fault,
};
use crate::util::validation_utils::{check_funds_are_empty, funds_fault};
use vstd::prelude::*;

verus! {

/// What is wrong with a request to withdraw trading. Attached funds are judged first, then
/// the store must hold a configuration, then the trade of trading denom for deposit denom
/// must be in order, for an account with the attributes required to withdraw, and last the
/// marker of the trading denom must have an address.
pub open spec fn withdraw_trading_fault(
    stored: Option<ContractStateV1View>,
    funds: nat,
    sender: Seq<char>,
    balance: Option<Seq<char>>,
    attribute_pages: Seq<AttributePageView>,
    marker: Option<PackedAccount>,
    trade_amount: u128,
) -> Option<ContractErrorView> {
    if funds_fault(funds) is Some {
        funds_fault(funds)
    } else {
        match stored {
            None => Some(missing_state_fault()),
            Some(stored) => {
                let fault = trade_fault(
                    sender,
                    stored.trading_marker,
                    stored.deposit_marker,
                    stored.required_withdraw_attributes,
                    balance,
                    attribute_pages,
                    trade_amount,
                );
                if fault is Some {
                    fault
                } else {
                    match marker_address_for_denom(stored.trading_marker.name, marker) {
                        Err(fault) => Some(fault),
                        Ok(_) => None,
                    }
                }
            },
        }
    }
}

/// The instructions that withdraw trading, in their order. First the requested amount of
/// trading denom, less the remainder that does not convert, moves from the sender to the
/// marker of the trading denom, where it is staged to be burned. Then the contract releases
/// the converted amount of deposit denom to the sender. Last the staged amount is burned.
pub open spec fn withdraw_trading_messages(
    stored: ContractStateV1View,
    contract_address: Seq<char>,
    sender: Seq<char>,
    marker_address: Seq<char>,
    conversion: DenomConversion,
) -> Seq<InstructionView> {
    seq![
        InstructionView::Transfer {
            administrator: contract_address,
            denom: stored.trading_marker.name,
            amount: (conversion.source_amount - conversion.remainder) as u128,
            from_address: sender,
            to_address: marker_address,
        },
        InstructionView::Transfer {
            administrator: contract_address,
            denom: stored.deposit_marker.name,
            amount: conversion.target_amount,
            from_address: contract_address,
            to_address: sender,
        },
        InstructionView::Burn {
            administrator: contract_address,
            denom: stored.trading_marker.name,
            amount: (conversion.source_amount - conversion.remainder) as u128,
        },
    ]
}

/// The response to a request that withdraws trading: the instructions, and in the log the
/// action, the contract, the trading denom with the amount requested and the amount
/// collected, the deposit denom with the amount received, and the remainder where there
/// is one.
pub open spec fn withdraw_trading_response(
    stored: ContractStateV1View,
    contract_address: Seq<char>,
    sender: Seq<char>,
    marker_address: Seq<char>,
    conversion: DenomConversion,
) -> ResponseView {
    ResponseView {
        messages: withdraw_trading_messages(
            stored,
            contract_address,
            sender,
            marker_address,
            conversion,
        ),
        attributes: seq![
            pair("action"@, "withdraw_trading"@),
            pair("contract_address"@, contract_address),
            pair("contract_type"@, CONTRACT_TYPE@),
            pair("contract_name"@, stored.contract_name),
            pair("withdraw_input_denom"@, stored.trading_marker.name),
            pair("withdraw_input_amount"@, decimal_digits(conversion.source_amount as nat)),
            pair(
                "withdraw_actual_amount"@,
                decimal_digits((conversion.source_amount - conversion.remainder) as nat),
            ),
            pair("received_denom"@, stored.deposit_marker.name),
            pair("received_amount"@, decimal_digits(conversion.target_amount as nat)),
        ] + remainder_attributes(stored.trading_marker.name, conversion.remainder),
        data: None,
    }
}

/// What a request to withdraw trading hands back: the error of the first fault that
/// [withdraw_trading_fault] finds, or the response for the conversion of the requested
/// amount from the trading denom to the deposit denom.
pub open spec fn withdraw_trading_outcome(
    result: Result<Response, ContractError>,
    stored: Option<ContractStateV1View>,
    contract_address: Seq<char>,
    funds: nat,
    sender: Seq<char>,
    balance: Option<Seq<char>>,
    attribute_pages: Seq<AttributePageView>,
    marker: Option<PackedAccount>,
    trade_amount: u128,
) -> bool {
    match withdraw_trading_fault(
        stored,
        funds,
        sender,
        balance,
        attribute_pages,
        marker,
        trade_amount,
    ) {
        Some(fault) => fails_with(result, fault),
        None => result matches Ok(response) && response@ == withdraw_trading_response(
            stored.unwrap(),
            contract_address,
            sender,
            marker_address_for_denom(stored.unwrap().trading_marker.name, marker)->Ok_0,
            converted(
                trade_amount,
                stored.unwrap().trading_marker.precision,
                stored.unwrap().deposit_marker.precision,
            ).unwrap(),
        ),
    }
}

/// Invoked via the contract's execute functionality.  The function will attempt to pull the
/// trade amount of the trading marker's denom from the sender's account with a marker transfer,
/// discern how much of the deposit denom to which the submitted amount is equivalent, transfer
/// that amount to the sender, and then burn the exchanged trading marker denom.
///
/// # Parameters
/// * `storage` The store of the contract instance.
/// * `env` Describes the contract instance that runs the route.
/// * `info` Describes the sender of the message, as well as the funds provided as an amount
/// during the transaction.
/// * `balance` What the bank module answered when asked for the sender's balance in the
/// trading denom.
/// * `attribute_pages` The pages of the sender's attributes, read as
/// [attribute_step](crate::util::provenance_utils::attribute_step) asked for them.
/// * `marker` What the marker module answered when asked for the marker of the trading denom.
/// * `trade_amount` The amount of the trading marker to pull from the sender's account in exchange
/// for deposit denom.
pub fn withdraw_trading(
    storage: &Storage,
    env: &Env,
    info: &MessageInfo,
    balance: &Option<LedgerCoin>,
    attribute_pages: &[AttributePage],
    marker: &Option<PackedAccount>,
    trade_amount: u128,
) -> (result: Result<Response, ContractError>)
    ensures
        withdraw_trading_outcome(
            result,
            storage@,
            env.contract_address@,
            info.funds@.len(),
            info.sender@,
            balance_text(*balance),
            page_views(attribute_pages@),
            *marker,
            trade_amount,
        ),
{
    check_funds_are_empty(info)?;
    let contract_state = get_contract_state_v1(storage)?;
    let conversion = check_trade(
        info.sender.as_str(),
        &contract_state.trading_marker,
        &contract_state.deposit_marker,
        contract_state.required_withdraw_attributes.as_slice(),
        balance,
        attribute_pages,
        trade_amount,
    )?;
    let collected_amount = trade_amount - conversion.remainder;
    let marker_address = get_marker_address_for_denom(
        contract_state.trading_marker.name.as_str(),
        marker,
    )?;
    // Collect the amount to be traded to the contract from the sender and give it directly to the
    // marker in order to stage it for burning
    let collect_funds_msg = Instruction::Transfer {
        administrator: env.contract_address.clone(),
        denom: contract_state.trading_marker.name.clone(),
        amount: collected_amount,
        from_address: info.sender.clone(),
        to_address: marker_address,
    };
    // Release the total converted amount of funds back to the user
    let release_funds_msg = Instruction::Transfer {
        administrator: env.contract_address.clone(),
        denom: contract_state.deposit_marker.name.clone(),
        amount: conversion.target_amount,
        from_address: env.contract_address.clone(),
        to_address: info.sender.clone(),
    };
    // Burn all coins that were received except those that could not be converted, these stay
    // with the sender
    let burn_msg = Instruction::Burn {
        administrator: env.contract_address.clone(),
        denom: contract_state.trading_marker.name.clone(),
        amount: collected_amount,
    };
    let response = Response::new()
        .add_message(collect_funds_msg)
        .add_message(release_funds_msg)
        .add_message(burn_msg)
        .add_attribute("action", "withdraw_trading")
        .add_attribute("contract_address", env.contract_address.as_str())
        .add_attribute("contract_type", CONTRACT_TYPE)
        .add_attribute("contract_name", contract_state.contract_name.as_str())
        .add_attribute("withdraw_input_denom", contract_state.trading_marker.name.as_str())
        .add_attribute("withdraw_input_amount", decimal_text(trade_amount).as_str())
        .add_attribute("withdraw_actual_amount", decimal_text(collected_amount).as_str())
        .add_attribute("received_denom", contract_state.deposit_marker.name.as_str())
        .add_attribute("received_amount", decimal_text(conversion.target_amount).as_str());
    let response = add_remainder_attributes(
        response,
        contract_state.trading_marker.name.as_str(),
        conversion.remainder,
    );
    proof {
        let expected = withdraw_trading_response(
            storage@.unwrap(),
            env.contract_address@,
            info.sender@,
            marker_address_for_denom(storage@.unwrap().trading_marker.name, *marker)->Ok_0,
            conversion,
        );
        assert(response@.messages =~= expected.messages);
        assert(response@.attributes =~= expected.attributes);
    }
    Ok(response)
}

/// Funding and then withdrawing leaves nothing behind and makes nothing up. Where an
/// amount of deposit denom funds trading, and all the trading denom that was minted for it
/// is withdrawn again, then all of it is staged and burned, and the deposit denom that is
/// released is the deposit denom that was collected: no more than was requested, and less
/// than that by the remainder alone.
pub proof fn lemma_withdrawing_what_was_funded_releases_what_was_collected(
    stored: ContractStateV1View,
    contract_address: Seq<char>,
    sender: Seq<char>,
    marker_address: Seq<char>,
    trade_amount: u128,
)
    requires
        converted(
            trade_amount,
            stored.deposit_marker.precision,
            stored.trading_marker.precision,
        ) is Some,
    ensures
        ({
            let funded = converted(
                trade_amount,
                stored.deposit_marker.precision,
                stored.trading_marker.precision,
            ).unwrap();
            let withdrawn = converted(
                funded.target_amount,
                stored.trading_marker.precision,
                stored.deposit_marker.precision,
            );
            let funding = fund_trading_messages(stored, contract_address, sender, funded);
            let withdrawing = withdraw_trading_messages(
                stored,
                contract_address,
                sender,
                marker_address,
                withdrawn.unwrap(),
            );
            &&& withdrawn is Some
            &&& funding[0] matches InstructionView::Transfer { amount: collected, .. }
            &&& funding[1] matches InstructionView::Mint { amount: minted, .. }
            &&& withdrawing[0] matches InstructionView::Transfer { amount: staged, .. }
            &&& withdrawing[1] matches InstructionView::Transfer { amount: released, .. }
            &&& withdrawing[2] matches InstructionView::Burn { amount: burned, .. }
            &&& staged == minted
            &&& burned == minted
            &&& released == collected
            &&& released <= trade_amount
            &&& trade_amount - released == funded.remainder
        }),
{
    lemma_round_trip_loses_only_the_remainder(
        trade_amount,
        stored.deposit_marker.precision,
        stored.trading_marker.precision,
    );
    lemma_remainder_is_part_of_amount(
        trade_amount,
        stored.deposit_marker.precision,
        stored.trading_marker.precision,
    );
}

} // verus!
