use funding_trading_bridge_smart_contract::types::denom::{Denom, DenomConversion};
use funding_trading_bridge_smart_contract::types::error::ContractError;
use funding_trading_bridge_smart_contract::util::conversion_utils::{
    convert_denom, MAX_PRECISION_GAP,
};

#[test]
fn test_source_precision_greater_than_target_precision() {
    let amount = 123456789;
    let source_denom = Denom::new("source", 4);
    let target_denom = Denom::new("target", 1);
    let very_large_result = convert_denom(amount, &source_denom, &target_denom)
        .expect("The conversion should succeed with valid inputs");
    assert_eq!(
        123456, very_large_result.target_amount,
        "Value {amount}: The resulting amount should be all values that fit into the target destination type",
    );
    assert_eq!(
        789, very_large_result.remainder,
        "Value {amount}: The remainder amount should equate to all precision that could not be converted",
    );
    let amount = 1000;
    let just_large_enough_result = convert_denom(amount, &source_denom, &target_denom)
        .expect("The conversion should succeed with valid inputs");
    assert_eq!(
        1, just_large_enough_result.target_amount,
        "Value {amount}: The resulting amount should be just the value before the decimal place",
    );
    assert_eq!(
        0, just_large_enough_result.remainder,
        "Value {amount}: There should be no remainder because all values after the decimal place were zeroes",
    );
    let amount = 1101;
    let small_overflow_result = convert_denom(amount, &source_denom, &target_denom)
        .expect("The conversion should succeed with valid inputs");
    assert_eq!(
        1, small_overflow_result.target_amount,
        "Value {amount}: The resulting amount should be the value before the decimal place",
    );
    assert_eq!(
        101, small_overflow_result.remainder,
        "Value {amount}: The remainder should properly contain the overflow",
    );
    let amount = 123;
    let full_overflow_result = convert_denom(amount, &source_denom, &target_denom)
        .expect("The conversion should succeed with valid inputs");
    assert_eq!(
        0, full_overflow_result.target_amount,
        "Value {amount}: The resulting amount should be zero because all converted amounts were remainders",
    );
    assert_eq!(
        123, full_overflow_result.remainder,
        "Value {amount}: The remainder should be the whole value due to overflow past precision conversion",
    );
    let amount = 0;
    let zero_result = convert_denom(amount, &source_denom, &target_denom)
        .expect("The conversion should succeed with valid inputs");
    assert_eq!(
        0, zero_result.target_amount,
        "Value {amount}: The target amount should be zero because the initial value was zero",
    );
    assert_eq!(
        0, zero_result.remainder,
        "Value {amount}: The remainder should be zero because the initial value was zero",
    );
}

#[test]
fn test_source_precision_lower_than_target_precision() {
    let amount = 123456789;
    let source_denom = Denom::new("source", 1);
    let target_denom = Denom::new("target", 4);
    let very_large_result = convert_denom(amount, &source_denom, &target_denom)
        .expect("The conversion should succeed with valid inputs");
    assert_eq!(
        123456789000, very_large_result.target_amount,
        "Value {amount}: The target amount should have extra zeroes for the increased precision",
    );
    assert_eq!(
        0, very_large_result.remainder,
        "Value {amount}: A conversion with lower source precision than target should never have a remainder",
    );
    let amount = 2;
    let simple_result = convert_denom(amount, &source_denom, &target_denom)
        .expect("The conversion should succeed with valid inputs");
    assert_eq!(
        2000, simple_result.target_amount,
        "Value {amount}: The target amount should have extra zeroes for the increased precision",
    );
    assert_eq!(
        0, simple_result.remainder,
        "Value {amount}: A conversion with lower source precision than target should never have a remainder",
    );
    let amount = 0;
    let zero_result = convert_denom(amount, &source_denom, &target_denom)
        .expect("The conversion should succeed with valid inputs");
    assert_eq!(
        0, zero_result.target_amount,
        "Value {amount}: The target amount should be zero because the input was zero",
    );
    assert_eq!(
        0, zero_result.remainder,
        "Value {amount}: A conversion with lower source precision than target should never have a remainder",
    );
}

#[test]
fn test_source_precision_equal_to_target_precision() {
    let amount = 123456789;
    let source_denom = Denom::new("source", 3);
    let target_denom = Denom::new("target", 3);
    let large_result = convert_denom(amount, &source_denom, &target_denom)
        .expect("The conversion should succeed with valid inputs");
    assert_eq!(
        amount, large_result.target_amount,
        "Value {amount}: The target amount should equate to the input because there is no precision diff",
    );
    assert_eq!(
        0, large_result.remainder,
        "Value {amount}: The remainder should be zero because no conversion was necessary",
    );
    let amount = 6;
    let simple_result = convert_denom(amount, &source_denom, &target_denom)
        .expect("The conversion should succeed with valid inputs");
    assert_eq!(
        amount, simple_result.target_amount,
        "Value {amount}: The target amount should equate to the input because there is no precision diff",
    );
    assert_eq!(
        0, simple_result.remainder,
        "Value {amount}: The remainder should be zero because no conversion was necessary",
    );
    let amount = 0;
    let zero_result = convert_denom(amount, &source_denom, &target_denom)
        .expect("The conversion should succeed with valid inputs");
    assert_eq!(
        0, zero_result.target_amount,
        "Value {amount}: The target amount should be zero because the input was zero",
    );
    assert_eq!(
        0, zero_result.remainder,
        "Value {amount}: The remainder should be zero because the input was zero",
    );
}

#[test]
fn test_example_use_case() {
    let amount = 987123456;
    let source_denom = Denom::new("trading", 6);
    let target_denom = Denom::new("deposit", 2);
    let result = convert_denom(amount, &source_denom, &target_denom)
        .expect("The conversion should succeed with valid inputs");
    assert_eq!(
        98712, result.target_amount,
        "Input {amount}: Expected the proper target amount output from input",
    );
    assert_eq!(
        3456, result.remainder,
        "Input {amount}: Expected the proper remainder amount from input",
    );
}

#[test]
fn conversion_keeps_the_source_amount_and_ignores_the_names() {
    let conversion = convert_denom(4321, &Denom::new("a", 3), &Denom::new("b", 2))
        .expect("the precisions are close");
    assert_eq!(
        DenomConversion {
            source_amount: 4321,
            target_amount: 432,
            remainder: 1,
        },
        conversion,
    );
    assert_eq!(
        conversion,
        convert_denom(4321, &Denom::new("", 3), &Denom::new("same", 2))
            .expect("the precisions are close"),
    );
}

#[test]
fn equal_precisions_keep_every_amount() {
    for precision in [0, 1, 38, 39, u64::MAX] {
        for amount in [0, 1, 999, u128::MAX] {
            let conversion = convert_denom(
                amount,
                &Denom::new("source", precision),
                &Denom::new("target", precision),
            )
            .expect("equal precisions always convert");
            assert_eq!(amount, conversion.source_amount);
            assert_eq!(amount, conversion.target_amount);
            assert_eq!(0, conversion.remainder);
        }
    }
}

#[test]
fn lesser_target_precision_splits_the_amount_by_the_factor() {
    for (gap, factor) in [(1u64, 10u128), (2, 100), (5, 100_000), (38, 10u128.pow(38))] {
        for amount in [0, 1, 9, 10, 99_999, 100_000, 123_456_789, u128::MAX] {
            let conversion = convert_denom(
                amount,
                &Denom::new("source", 40),
                &Denom::new("target", 40 - gap),
            )
            .expect("a gap of at most 38 places converts");
            assert_eq!(
                amount,
                conversion.target_amount * factor + conversion.remainder
            );
            assert!(conversion.remainder < factor);
            assert_eq!(amount / factor, conversion.target_amount);
        }
    }
}

#[test]
fn greater_target_precision_scales_the_amount_by_the_factor() {
    for (gap, factor) in [(1u64, 10u128), (3, 1000), (20, 10u128.pow(20))] {
        for amount in [0, 1, 7, 340_282_366_920_938_463] {
            let conversion =
                convert_denom(amount, &Denom::new("source", 5), &Denom::new("target", 5 + gap))
                    .expect("the product fits");
            assert_eq!(amount * factor, conversion.target_amount);
            assert_eq!(0, conversion.remainder);
        }
    }
}

#[test]
fn greatest_gap_is_thirty_eight_places() {
    assert_eq!(38, MAX_PRECISION_GAP);
    let conversion = convert_denom(3, &Denom::new("source", 0), &Denom::new("target", 38))
        .expect("ten to the power of 38 fits in 128 bits");
    assert_eq!(300000000000000000000000000000000000000, conversion.target_amount);
    let conversion = convert_denom(u128::MAX, &Denom::new("source", 38), &Denom::new("target", 0))
        .expect("ten to the power of 38 fits in 128 bits");
    assert_eq!(3, conversion.target_amount);
    assert_eq!(40282366920938463463374607431768211455, conversion.remainder);
}

#[test]
fn gap_beyond_the_greatest_is_a_conversion_error() {
    for (source, target) in [(39, 0), (0, 39), (u64::MAX, 0), (0, u64::MAX), (100, 61)] {
        for amount in [0, 1, u128::MAX] {
            let error = convert_denom(
                amount,
                &Denom::new("source", source),
                &Denom::new("target", target),
            )
            .expect_err("a factor beyond 128 bits cannot be used");
            match error {
                ContractError::ConversionError { message } => assert_eq!(
                    format!(
                        "source precision [{source}] and target precision [{target}] have too large a difference to convert"
                    ),
                    message,
                ),
                error => panic!("unexpected error: {error:?}"),
            }
        }
    }
}

#[test]
fn amount_beyond_the_target_is_a_conversion_error() {
    let error = convert_denom(
        34028236692093846346337460743176821146,
        &Denom::new("source", 2),
        &Denom::new("target", 3),
    )
    .expect_err("ten times the amount does not fit in 128 bits");
    match error {
        ContractError::ConversionError { message } => assert_eq!(
            "amount [34028236692093846346337460743176821146] at source precision [2] is too large to convert to target precision [3]",
            message,
        ),
        error => panic!("unexpected error: {error:?}"),
    }
    let conversion = convert_denom(
        34028236692093846346337460743176821145,
        &Denom::new("source", 2),
        &Denom::new("target", 3),
    )
    .expect("ten times the amount just fits in 128 bits");
    assert_eq!(340282366920938463463374607431768211450, conversion.target_amount);
}

#[test]
fn round_trip_loses_the_remainder_and_never_gains() {
    for (first, second) in [(2u64, 1u64), (1, 2), (6, 2), (2, 6), (3, 3), (38, 0), (0, 38)] {
        for amount in [0, 1, 9, 10, 103, 4321, 987123456, 340282366920938463463] {
            let forth = match convert_denom(
                amount,
                &Denom::new("first", first),
                &Denom::new("second", second),
            ) {
                Ok(forth) => forth,
                Err(_) => continue,
            };
            let back = convert_denom(
                forth.target_amount,
                &Denom::new("second", second),
                &Denom::new("first", first),
            )
            .expect("what was converted converts back");
            let factor = 10u128.pow(first.abs_diff(second) as u32);
            assert!(back.target_amount <= amount);
            assert_eq!(amount, back.target_amount + forth.remainder);
            assert_eq!(0, back.remainder);
            assert!(amount - back.target_amount <= (factor - 1) + (factor - 1));
        }
    }
}
