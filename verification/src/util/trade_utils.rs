use crate::types::denom::{Denom, DenomConversion, DenomView};
use crate::types::error::{fails_with, ContractError, ContractErrorView};
use crate::types::ledger::{page_views, AttributePage, AttributePageView, LedgerCoin};
use crate::types::response::{pair, AttributeView, Response, ResponseView};
use crate::util::conversion_utils::{
    conversion_fault, convert_denom, converted, lemma_remainder_is_part_of_amount,
};
use crate::util::provenance_utils::{
    attributes_fault, balance_fault, balance_text, check_account_has_all_attributes,
    check_account_has_enough_denom,
};
use crate::util::text_utils::{decimal_digits, decimal_text, texts};
use vstd::prelude::*;

verus! {

/// The message of the error for an amount that converts to nothing of the target denom.
pub open spec fn too_small_message(amount: u128, source_name: Seq<char>, target_name: Seq<char>)
    -> Seq<char> {
    "sent ["@ + decimal_digits(amount as nat) + source_name
        + "], but that is not enough to convert to at least one ["@ + target_name + "]"@
}

/// What is wrong with a trade of `amount` of the source denom for the target denom. The
/// sender must hold the amount in the source denom, then must have every required
/// attribute, then the amount must convert, and to at least one unit of the target denom.
pub open spec fn trade_fault(
    sender: Seq<char>,
    source: DenomView,
    target: DenomView,
    required_attributes: Seq<Seq<char>>,
    balance: Option<Seq<char>>,
    attribute_pages: Seq<AttributePageView>,
    amount: u128,
) -> Option<ContractErrorView> {
    if balance_fault(sender, source.name, balance, amount) is Some {
        balance_fault(sender, source.name, balance, amount)
    } else if attributes_fault(required_attributes, attribute_pages) is Some {
        attributes_fault(required_attributes, attribute_pages)
    } else {
        match converted(amount, source.precision, target.precision) {
            None => Some(conversion_fault(amount, source.precision, target.precision)),
            Some(conversion) => if conversion.target_amount == 0 {
                Some(
                    ContractErrorView::InvalidFundsError {
                        message: too_small_message(amount, source.name, target.name),
                    },
                )
            } else {
                None
            },
        }
    }
}

/// Verifies that the sender may trade an amount of the source denom for the target denom,
/// and converts the amount.
///
/// # Parameters
/// * `sender` The bech32 address of the account that trades.
/// * `source` The denom that the sender gives.
/// * `target` The denom that the sender gets.
/// * `required_attributes` The attributes that an account must have to make this trade.
/// * `balance` What the bank module answered when asked for the balance of the sender in the
/// source denom.
/// * `attribute_pages` The pages of the sender's attributes that were read.
/// * `amount` The amount of the source denom that the sender asks to trade.
pub fn check_trade(
    sender: &str,
    source: &Denom,
    target: &Denom,
    required_attributes: &[String],
    balance: &Option<LedgerCoin>,
    attribute_pages: &[AttributePage],
    amount: u128,
) -> (result: Result<DenomConversion, ContractError>)
    ensures
        match trade_fault(
            sender@,
            source@,
            target@,
            texts(required_attributes@),
            balance_text(*balance),
            page_views(attribute_pages@),
            amount,
        ) {
            Some(fault) => fails_with(result, fault),
            None => result == Ok::<DenomConversion, ContractError>(
                converted(amount, source.precision, target.precision).unwrap(),
            ),
        },
        result matches Ok(conversion) ==> conversion.remainder <= amount
            && conversion.target_amount > 0,
{
    check_account_has_enough_denom(sender, source.name.as_str(), balance, amount)?;
    check_account_has_all_attributes(required_attributes, attribute_pages)?;
    let conversion = convert_denom(amount, source, target)?;
    if conversion.target_amount == 0 {
        let mut message = String::from_str("sent [");
        message.append(decimal_text(amount).as_str());
        message.append(source.name.as_str());
        message.append("], but that is not enough to convert to at least one [");
        message.append(target.name.as_str());
        message.append("]");
        return Err(ContractError::InvalidFundsError { message });
    }
    proof {
        lemma_remainder_is_part_of_amount(amount, source.precision, target.precision);
    }
    Ok(conversion)
}

/// What the log says of the remainder of a trade: nothing where there is none, else the
/// denom in which it is counted and its amount.
pub open spec fn remainder_attributes(denom: Seq<char>, remainder: u128) -> Seq<AttributeView> {
    if remainder == 0 {
        Seq::empty()
    } else {
        seq![
            pair("remainder_denom"@, denom),
            pair("remainder_amount"@, decimal_digits(remainder as nat)),
        ]
    }
}

/// Adds to the log of a response what is to be said of the remainder of a trade.
///
/// # Parameters
/// * `response` The response to which the entries are added.
/// * `denom` The denom in which the remainder is counted.
/// * `remainder` The part of the requested amount that the trade leaves with the sender.
pub fn add_remainder_attributes(response: Response, denom: &str, remainder: u128) -> (extended:
    Response)
    ensures
        extended@ == (ResponseView {
            messages: response@.messages,
            attributes: response@.attributes + remainder_attributes(denom@, remainder),
            data: response@.data,
        }),
{
    if remainder == 0 {
        assert(response@.attributes + remainder_attributes(denom@, remainder)
            =~= response@.attributes);
        response
    } else {
        let extended = response
            .add_attribute("remainder_denom", denom)
            .add_attribute("remainder_amount", decimal_text(remainder).as_str());
        assert(extended@.attributes =~= response@.attributes + remainder_attributes(
            denom@,
            remainder,
        ));
        extended
    }
}

} // verus!
