use crate::types::denom::{Denom, DenomConversion};
use crate::types::error::{fails_with, ContractError, ContractErrorView};
use crate::util::text_utils::{decimal_digits, decimal_text};
use vstd::arithmetic::div_mod::{
    lemma_div_by_multiple, lemma_div_pos_is_pos, lemma_fundamental_div_mod, lemma_mod_bound,
    lemma_mod_decreases, lemma_mod_multiples_basic,
};
use vstd::arithmetic::power::{
    lemma_pow0, lemma_pow1, lemma_pow_adds, lemma_pow_increases, lemma_pow_positive, pow,
};
use vstd::prelude::*;

verus! {

/// The number of decimal places by which two precisions differ.
pub open spec fn precision_gap(source_precision: u64, target_precision: u64) -> nat {
    if source_precision >= target_precision {
        (source_precision - target_precision) as nat
    } else {
        (target_precision - source_precision) as nat
    }
}

/// Ten to the power of the precision gap: one unit of the coarser denom in units of the finer.
pub open spec fn conversion_factor(source_precision: u64, target_precision: u64) -> int {
    pow(10, precision_gap(source_precision, target_precision))
}

/// The conversion of `source_amount` from one precision to another, where it can be held in
/// 128 bits. A greater source precision divides by the factor and keeps what does not divide
/// as the remainder; a lesser one multiplies by it; equal precisions leave the amount as it is.
pub open spec fn converted(source_amount: u128, source_precision: u64, target_precision: u64)
    -> Option<DenomConversion> {
    let factor = conversion_factor(source_precision, target_precision);
    if factor > u128::MAX {
        None
    } else if source_precision > target_precision {
        Some(
            DenomConversion {
                source_amount,
                target_amount: (source_amount as int / factor) as u128,
                remainder: (source_amount as int % factor) as u128,
            },
        )
    } else if source_amount * factor > u128::MAX {
        None
    } else {
        Some(
            DenomConversion {
                source_amount,
                target_amount: (source_amount * factor) as u128,
                remainder: 0,
            },
        )
    }
}

/// The message of the error for two precisions whose factor does not fit in 128 bits.
pub open spec fn precision_gap_message(source_precision: u64, target_precision: u64) -> Seq<char> {
    "source precision ["@ + decimal_digits(source_precision as nat)
        + "] and target precision ["@ + decimal_digits(target_precision as nat)
        + "] have too large a difference to convert"@
}

/// The message of the error for an amount whose conversion does not fit in 128 bits.
pub open spec fn amount_overflow_message(
    source_amount: u128,
    source_precision: u64,
    target_precision: u64,
) -> Seq<char> {
    "amount ["@ + decimal_digits(source_amount as nat) + "] at source precision ["@
        + decimal_digits(source_precision as nat)
        + "] is too large to convert to target precision ["@ + decimal_digits(
        target_precision as nat,
    ) + "]"@
}

/// The message of the error that [convert_denom] returns where [converted] gives nothing.
pub open spec fn conversion_failure_message(
    source_amount: u128,
    source_precision: u64,
    target_precision: u64,
) -> Seq<char> {
    if conversion_factor(source_precision, target_precision) > u128::MAX {
        precision_gap_message(source_precision, target_precision)
    } else {
        amount_overflow_message(source_amount, source_precision, target_precision)
    }
}

/// The error that [convert_denom] returns where [converted] gives nothing.
pub open spec fn conversion_fault(source_amount: u128, source_precision: u64, target_precision: u64)
    -> ContractErrorView {
    ContractErrorView::ConversionError {
        message: conversion_failure_message(source_amount, source_precision, target_precision),
    }
}

/// Ten to the power of `gap`, or nothing where that power does not fit in 128 bits.
fn checked_factor(gap: u64) -> (factor: Option<u128>)
    ensures
        match factor {
            Some(f) => f == pow(10, gap as nat),
            None => pow(10, gap as nat) > u128::MAX,
        },
{
    let mut factor: u128 = 1;
    let mut raised: u64 = 0;
    proof {
        lemma_pow0(10);
    }
    while raised < gap
        invariant
            raised <= gap,
            factor == pow(10, raised as nat),
        decreases gap - raised,
    {
        proof {
            reveal(pow);
            assert(pow(10, (raised + 1) as nat) == 10 * pow(10, raised as nat));
        }
        match factor.checked_mul(10) {
            Some(next) => {
                factor = next;
                raised = raised + 1;
            },
            None => {
                proof {
                    lemma_pow_increases(10, (raised + 1) as nat, gap as nat);
                }
                return None;
            },
        }
    }
    Some(factor)
}

fn precision_gap_error(source_precision: u64, target_precision: u64) -> (error: ContractError)
    ensures
        error matches ContractError::ConversionError { message } && message@
            == precision_gap_message(source_precision, target_precision),
{
    let mut message = String::from_str("source precision [");
    message.append(decimal_text(source_precision as u128).as_str());
    message.append("] and target precision [");
    message.append(decimal_text(target_precision as u128).as_str());
    message.append("] have too large a difference to convert");
    ContractError::ConversionError { message }
}

fn amount_overflow_error(
    source_amount: u128,
    source_precision: u64,
    target_precision: u64,
) -> (error: ContractError)
    ensures
        error matches ContractError::ConversionError { message } && message@
            == amount_overflow_message(source_amount, source_precision, target_precision),
{
    let mut message = String::from_str("amount [");
    message.append(decimal_text(source_amount).as_str());
    message.append("] at source precision [");
    message.append(decimal_text(source_precision as u128).as_str());
    message.append("] is too large to convert to target precision [");
    message.append(decimal_text(target_precision as u128).as_str());
    message.append("]");
    ContractError::ConversionError { message }
}

/// Converts an amount of the source denom to the target denom, by the difference of their
/// precisions alone. The names of the denoms play no part.
///
/// # Parameters
/// * `source_amount` The amount of the source denom to convert.
/// * `source_denom` The denom in which `source_amount` is counted.
/// * `target_denom` The denom to which the amount is converted.
pub fn convert_denom(source_amount: u128, source_denom: &Denom, target_denom: &Denom) -> (result:
    Result<DenomConversion, ContractError>)
    ensures
        match converted(source_amount, source_denom.precision, target_denom.precision) {
            Some(conversion) => result == Ok::<DenomConversion, ContractError>(conversion),
            None => fails_with(
                result,
                conversion_fault(source_amount, source_denom.precision, target_denom.precision),
            ),
        },
{
    let source_precision = source_denom.precision;
    let target_precision = target_denom.precision;
    let gap = if source_precision >= target_precision {
        source_precision - target_precision
    } else {
        target_precision - source_precision
    };
    let factor = match checked_factor(gap) {
        Some(factor) => factor,
        None => {
            return Err(precision_gap_error(source_precision, target_precision));
        },
    };
    proof {
        lemma_pow_positive(10, gap as nat);
    }
    if source_precision > target_precision {
        Ok(
            DenomConversion {
                source_amount,
                target_amount: source_amount / factor,
                remainder: source_amount % factor,
            },
        )
    } else {
        match source_amount.checked_mul(factor) {
            Some(target_amount) => Ok(
                DenomConversion { source_amount, target_amount, remainder: 0 },
            ),
            None => Err(amount_overflow_error(source_amount, source_precision, target_precision)),
        }
    }
}

/// The greatest precision gap whose factor fits in 128 bits.
pub const MAX_PRECISION_GAP: u64 = 38;

/// A factor fits in 128 bits exactly where the precisions differ by at most
/// [MAX_PRECISION_GAP] decimal places.
pub proof fn lemma_factor_fits_up_to_max_gap(source_precision: u64, target_precision: u64)
    ensures
        conversion_factor(source_precision, target_precision) <= u128::MAX <==> precision_gap(
            source_precision,
            target_precision,
        ) <= MAX_PRECISION_GAP,
{
    let gap = precision_gap(source_precision, target_precision);
    lemma_pow10_38();
    reveal(pow);
    assert(pow(10, 39) == 10 * pow(10, 38));
    if gap <= 38 {
        lemma_pow_increases(10, gap, 38);
    } else {
        lemma_pow_increases(10, 39, gap);
    }
}

proof fn lemma_pow10_38()
    ensures
        pow(10, 38) == 100000000000000000000000000000000000000int,
{
    lemma_pow1(10);
    lemma_pow_adds(10, 1, 1);
    assert(pow(10, 2) == 100);
    lemma_pow_adds(10, 2, 2);
    assert(pow(10, 4) == 10000);
    lemma_pow_adds(10, 4, 4);
    assert(pow(10, 8) == 100000000);
    lemma_pow_adds(10, 8, 8);
    assert(pow(10, 16) == 10000000000000000);
    lemma_pow_adds(10, 16, 16);
    assert(pow(10, 32) == 100000000000000000000000000000000int);
    lemma_pow_adds(10, 32, 4);
    assert(pow(10, 36) == 1000000000000000000000000000000000000int);
    lemma_pow_adds(10, 36, 2);
}

/// Between denoms of equal precision the amount converts to itself, with no remainder.
pub proof fn lemma_equal_precisions_keep_amount(source_amount: u128, precision: u64)
    ensures
        converted(source_amount, precision, precision) == Some(
            DenomConversion { source_amount, target_amount: source_amount, remainder: 0 },
        ),
{
    lemma_pow0(10);
}

/// Towards a lesser precision the amount is split by the factor: the target amount times the
/// factor, and the remainder, make up the source amount again, and the remainder is less than
/// the factor.
pub proof fn lemma_lesser_target_precision_splits_amount(
    source_amount: u128,
    source_precision: u64,
    target_precision: u64,
)
    requires
        source_precision > target_precision,
        conversion_factor(source_precision, target_precision) <= u128::MAX,
    ensures
        converted(source_amount, source_precision, target_precision) matches Some(conversion)
            && conversion.source_amount == source_amount && conversion.target_amount
            * conversion_factor(source_precision, target_precision) + conversion.remainder
            == source_amount && conversion.remainder < conversion_factor(
            source_precision,
            target_precision,
        ),
{
    let factor = conversion_factor(source_precision, target_precision);
    lemma_pow_positive(10, precision_gap(source_precision, target_precision));
    lemma_fundamental_div_mod(source_amount as int, factor);
    lemma_mod_bound(source_amount as int, factor);
    lemma_div_pos_is_pos(source_amount as int, factor);
    assert(factor * (source_amount as int / factor) == (source_amount as int / factor) * factor)
        by (nonlinear_arith);
}

/// Towards a greater precision the amount is multiplied by the factor, with no remainder.
pub proof fn lemma_greater_target_precision_scales_amount(
    source_amount: u128,
    source_precision: u64,
    target_precision: u64,
)
    requires
        source_precision < target_precision,
        source_amount * conversion_factor(source_precision, target_precision) <= u128::MAX,
        conversion_factor(source_precision, target_precision) <= u128::MAX,
    ensures
        converted(source_amount, source_precision, target_precision) matches Some(conversion)
            && conversion.source_amount == source_amount && conversion.target_amount
            == source_amount * conversion_factor(source_precision, target_precision)
            && conversion.remainder == 0,
{
    let factor = conversion_factor(source_precision, target_precision);
    lemma_pow_positive(10, precision_gap(source_precision, target_precision));
    assert(source_amount * factor >= 0) by (nonlinear_arith)
        requires
            source_amount >= 0,
            factor > 0,
    ;
}

/// An amount that was converted from one denom to another, and whose target amount is then
/// converted back, never comes back greater. It comes back less by the remainder of the
/// first conversion alone, which is less than the factor; the way back leaves no remainder.
pub proof fn lemma_round_trip_loses_only_the_remainder(
    source_amount: u128,
    first_precision: u64,
    second_precision: u64,
)
    requires
        converted(source_amount, first_precision, second_precision).is_some(),
    ensures
        ({
            let forth = converted(source_amount, first_precision, second_precision).unwrap();
            let factor = conversion_factor(first_precision, second_precision);
            converted(forth.target_amount, second_precision, first_precision) matches Some(back)
                && back.target_amount <= source_amount && back.target_amount + forth.remainder
                == source_amount && back.remainder == 0 && source_amount - back.target_amount <= (
            factor - 1) + (factor - 1)
        }),
{
    let factor = conversion_factor(first_precision, second_precision);
    let gap = precision_gap(first_precision, second_precision);
    assert(conversion_factor(second_precision, first_precision) == factor);
    lemma_pow_positive(10, gap);
    let amount = source_amount as int;
    if first_precision > second_precision {
        lemma_lesser_target_precision_splits_amount(
            source_amount,
            first_precision,
            second_precision,
        );
        let forth = converted(source_amount, first_precision, second_precision).unwrap();
        assert(forth.target_amount * factor == amount - forth.remainder);
        assert(converted(forth.target_amount, second_precision, first_precision) == Some(
            DenomConversion {
                source_amount: forth.target_amount,
                target_amount: (amount - forth.remainder) as u128,
                remainder: 0,
            },
        ));
    } else if first_precision < second_precision {
        let forth = converted(source_amount, first_precision, second_precision).unwrap();
        assert(forth.target_amount == amount * factor);
        assert(forth.remainder == 0);
        lemma_div_by_multiple(amount, factor);
        lemma_mod_multiples_basic(amount, factor);
        assert((amount * factor) / factor == amount);
        assert((amount * factor) % factor == 0);
        assert(converted(forth.target_amount, second_precision, first_precision) == Some(
            DenomConversion {
                source_amount: forth.target_amount,
                target_amount: source_amount,
                remainder: 0,
            },
        ));
    } else {
        lemma_equal_precisions_keep_amount(source_amount, first_precision);
    }
}

/// The remainder of a conversion is a part of the amount: it is never greater.
pub proof fn lemma_remainder_is_part_of_amount(
    source_amount: u128,
    source_precision: u64,
    target_precision: u64,
)
    ensures
        converted(source_amount, source_precision, target_precision) matches Some(conversion)
            ==> conversion.remainder <= source_amount && conversion.source_amount == source_amount,
{
    let factor = conversion_factor(source_precision, target_precision);
    lemma_pow_positive(10, precision_gap(source_precision, target_precision));
    if factor <= u128::MAX && source_precision > target_precision {
        lemma_mod_decreases(source_amount as nat, factor as nat);
    }
}

} // verus!
