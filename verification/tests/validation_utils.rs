use funding_trading_bridge_smart_contract::store::contract_state::ContractStateV1;
use funding_trading_bridge_smart_contract::types::denom::Denom;
use funding_trading_bridge_smart_contract::types::error::ContractError;
use funding_trading_bridge_smart_contract::types::host::{Coin, MessageInfo};
use funding_trading_bridge_smart_contract::util::validation_utils::{
    check_funds_are_empty, check_sender_is_admin, segment_has_valid_content,
    segment_has_valid_size, segment_verdict, validate_attribute_name,
};

fn assert_attribute_valid(attribute_name: &str) {
    match validate_attribute_name(attribute_name) {
        Ok(()) => {}
        Err(e) => {
            panic!(
                "Expected attribute {attribute_name} to be valid, but got: {:?}",
                e
            )
        }
    };
}

fn assert_attribute_invalid(attribute_name: &str) {
    validate_attribute_name(attribute_name).expect_err(&format!(
        "expected attribute {attribute_name} to be invalid"
    ));
}

fn format_error_message(attribute_name: &str) -> String {
    match validate_attribute_name(attribute_name) {
        Err(ContractError::InvalidFormatError { message }) => message,
        other => panic!("expected a format error for {attribute_name}, but got: {other:?}"),
    }
}

#[test]
fn test_check_funds_are_empty_cases() {
    check_funds_are_empty(&MessageInfo::new("sender", vec![]))
        .expect("empty funds should pass without an error");
    check_funds_are_empty(&MessageInfo::new("sender", vec![Coin::new(10, "denom")]))
        .expect_err("a single coin should produce an error");
    check_funds_are_empty(&MessageInfo::new(
        "sender",
        vec![Coin::new(1, "denomA"), Coin::new(1, "denomB")],
    ))
    .expect_err("multiple coins should produce an error");
}

#[test]
fn check_funds_are_empty_names_the_fault() {
    match check_funds_are_empty(&MessageInfo::new("sender", vec![Coin::new(0, "denom")]))
        .expect_err("a coin of no amount is a coin")
    {
        ContractError::InvalidFundsError { message } => {
            assert_eq!("funds provided but empty funds required", message)
        }
        error => panic!("unexpected error: {error:?}"),
    }
}

#[test]
fn test_valid_attribute_name_use_cases() {
    // Invalid Cases:
    // Empty string is not allowed
    assert_attribute_invalid("");
    // 16 segments at max
    assert_attribute_invalid("aa.aa.aa.aa.aa.aa.aa.aa.aa.aa.aa.aa.aa.aa.aa.aa.aa");
    // Empty segment is not allowed
    assert_attribute_invalid("part.");
    assert_attribute_invalid(".part");
    // Each segment must be between 2 and 32 characters
    assert_attribute_invalid("a");
    assert_attribute_invalid("aaaaaaaaaaaaaaaaaaaaaaaaaaaaaaaaa");
    assert_attribute_invalid("validthing.b");
    // Each segment must be only alphanumeric
    assert_attribute_invalid("properformat.iµhñuo˜¨ñ:");
    assert_attribute_invalid("hellothere.😄kjdsfijds.93ksdjlfd008");
    // No whitespace in segments
    assert_attribute_invalid("normalish.butthen.itgot weird");
    assert_attribute_invalid("aw jeez.rick");
    // Includes too many dashes
    assert_attribute_invalid("--.uu.sdfsd");
    assert_attribute_invalid("a-b.haha-asdddd-djdjdj");

    // Valid Cases:
    // Single segment
    assert_attribute_valid("onename");
    // Max segments
    assert_attribute_valid("aa.aa.aa.aa.aa.aa.aa.aa.aa.aa.aa.aa.aa.aa.aa.aa");
    // Character limits
    assert_attribute_valid("aa");
    assert_attribute_valid("aaaaaaaaaaaaaaaaaaaaaaaaaaaaaaaa");
    assert_attribute_valid("aa.aaaaaaaaaaaaaaaaaaaaaaaaaaaaaaaa");
    // Alphanumeric
    assert_attribute_valid("1234.jjjjdijdjidJAUSUD.902NJSAhdsjs");
    // UUID segments
    assert_attribute_invalid("9372bae6-3f0a-11ef-b0d9-b3a1f5fefa08.aa");
    // Dash segments
    assert_attribute_valid("this-is.a-valid.name");
}

#[test]
fn attribute_name_errors_name_the_first_fault() {
    assert_eq!(
        "Attribute name a.a.a.a.a.a.a.a.a.a.a.a.a.a.a.a.a has too many segments",
        format_error_message("a.a.a.a.a.a.a.a.a.a.a.a.a.a.a.a.a"),
    );
    assert_eq!(
        "Attribute name a--b.c contains at least one segment with an incorrect size",
        format_error_message("a--b.c"),
    );
    assert_eq!(
        "Attribute name  contains at least one segment with an incorrect size",
        format_error_message(""),
    );
    assert_eq!(
        "Attribute name ok.a--b contains at least one segment that is not a uuid, has more than one dash character, or violates alphanumeric values",
        format_error_message("ok.a--b"),
    );
    assert_eq!(
        "Attribute name ok.a_b contains at least one segment that is not a uuid, has more than one dash character, or violates alphanumeric values",
        format_error_message("ok.a_b"),
    );
}

#[test]
fn attribute_name_segments_are_sized_in_bytes() {
    // Sixteen letters of two bytes each take 32 bytes, seventeen take 34.
    assert_attribute_valid("ññññññññññññññññ");
    assert_attribute_invalid("ñññññññññññññññññ");
    // One letter of two bytes takes the two bytes that a segment needs.
    assert_attribute_valid("ñ");
    // One letter of three bytes, and one of four.
    assert_attribute_valid("藏");
    assert_attribute_valid("𝐀");
    // Ten letters of three bytes take 30 bytes, eleven take 33.
    assert_attribute_valid("藏藏藏藏藏藏藏藏藏藏");
    assert_attribute_invalid("藏藏藏藏藏藏藏藏藏藏藏");
}

#[test]
fn attribute_name_segments_may_be_uuids() {
    // A UUID without hyphens fits in a segment, and is alphanumeric as well.
    assert_attribute_valid("9372bae63f0a11efb0d9b3a1f5fefa08");
    // A dash alone, and a dash with one letter, are alphanumeric but for one dash.
    assert_attribute_valid("a-");
    assert_attribute_valid("-a.bb");
    assert_attribute_invalid("-");
    assert_attribute_invalid("--");
}

#[test]
fn segment_verdict_accepts_uuids_and_plain_segments() {
    assert!(segment_verdict(true, 4, false));
    assert!(segment_verdict(true, 0, true));
    assert!(segment_verdict(false, 0, true));
    assert!(segment_verdict(false, 1, true));
    assert!(!segment_verdict(false, 2, true));
    assert!(!segment_verdict(false, 0, false));
    assert!(!segment_verdict(false, 1, false));
}

#[test]
fn check_sender_is_admin_compares_the_addresses() {
    let state = ContractStateV1::new(
        "admin",
        "contract_name",
        &Denom::new("deposit", 10),
        &Denom::new("trading", 4),
        &[],
        &[],
    );
    check_sender_is_admin(&MessageInfo::new("admin", vec![]), &state, "admins only")
        .expect("the admin is let through");
    for sender in ["", "Admin", "admin ", "other"] {
        match check_sender_is_admin(&MessageInfo::new(sender, vec![]), &state, "admins only")
            .expect_err("any other sender is turned away")
        {
            ContractError::NotAuthorizedError { message } => assert_eq!("admins only", message),
            error => panic!("unexpected error: {error:?}"),
        }
    }
}

#[test]
fn segment_content_may_be_a_uuid_in_any_form() {
    let content_fits = |segment: &str| segment_has_valid_content(&segment.chars().collect());
    // Only a UUID may hold more than one dash, or braces and colons.
    assert!(content_fits("9372bae6-3f0a-11ef-b0d9-b3a1f5fefa08"));
    assert!(content_fits("{9372bae6-3f0a-11ef-b0d9-b3a1f5fefa08}"));
    assert!(content_fits("urn:uuid:9372bae6-3f0a-11ef-b0d9-b3a1f5fefa08"));
    assert!(content_fits("9372BAE63F0A11EFB0D9B3A1F5FEFA08"));
    assert!(!content_fits("9372bae6-3f0a-11ef-b0d9-b3a1f5fefa0"));
    assert!(!content_fits("9372bae6-3f0a-11ef-b0d9-b3a1f5fefa0z"));
    assert!(!content_fits("{9372bae63f0a11efb0d9b3a1f5fefa0z}"));
    // Anything else is alphanumeric but for at most one dash.
    assert!(content_fits(""));
    assert!(content_fits("-"));
    assert!(content_fits("a"));
    assert!(content_fits("a-b"));
    assert!(content_fits("٣藏K"));
    assert!(!content_fits("a-b-c"));
    assert!(!content_fits("a b"));
    assert!(!content_fits("a.b"));
    assert!(!content_fits("a_b"));
}

#[test]
fn segment_size_is_between_two_and_thirty_two_bytes() {
    let size_fits = |segment: &str| segment_has_valid_size(&segment.chars().collect());
    assert!(!size_fits(""));
    assert!(!size_fits("a"));
    assert!(size_fits("ab"));
    assert!(size_fits("ñ"));
    assert!(size_fits("aaaaaaaaaaaaaaaaaaaaaaaaaaaaaaaa"));
    assert!(!size_fits("aaaaaaaaaaaaaaaaaaaaaaaaaaaaaaaaa"));
    assert!(size_fits("aaaaaaaaaaaaaaaaaaaaaaaaaaaaaañ"));
    assert!(!size_fits("aaaaaaaaaaaaaaaaaaaaaaaaaaaaaaañ"));
    assert!(size_fits("𝐀𝐀𝐀𝐀𝐀𝐀𝐀𝐀"));
    assert!(!size_fits("𝐀𝐀𝐀𝐀𝐀𝐀𝐀𝐀a"));
}
