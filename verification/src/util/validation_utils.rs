use crate::store::contract_state::{missing_state_fault, ContractStateV1, ContractStateV1View};
use crate::types::error::{passes_unless, ContractError, ContractErrorView};
use crate::types::host::MessageInfo;
use crate::util::text_utils::{chars_of, segment_bounds, split_at_dots};
use uuid::Uuid;
use vstd::prelude::*;

verus! {

/// The most segments that an attribute name may have.
pub const MAX_NAME_SEGMENTS: usize = 16;

/// The least number of bytes that a segment of an attribute name takes.
pub const MIN_SEGMENT_SIZE: usize = 2;

/// The greatest number of bytes that a segment of an attribute name takes.
pub const MAX_SEGMENT_SIZE: usize = 32;

/// The message of the error for a call that carried funds.
pub open spec fn funds_provided_message() -> Seq<char> {
    "funds provided but empty funds required"@
}

/// What is wrong with a call that carries `count` coins: every route expects none.
pub open spec fn funds_fault(count: nat) -> Option<ContractErrorView> {
    if count == 0 {
        None
    } else {
        Some(ContractErrorView::InvalidFundsError { message: funds_provided_message() })
    }
}

/// Verifies that the funds sent into the message info are empty, ensuring that the contract has
/// not received any funding when invoked.
///
/// # Parameters
///
/// * `info` Describes the sender of the message, as well as the funds provided as an amount
/// during the transaction.
pub fn check_funds_are_empty(info: &MessageInfo) -> (result: Result<(), ContractError>)
    ensures
        passes_unless(result, funds_fault(info.funds@.len())),
{
    if info.funds.len() != 0 {
        Err(
            ContractError::InvalidFundsError {
                message: String::from_str("funds provided but empty funds required"),
            },
        )
    } else {
        Ok(())
    }
}

/// Whether `char::is_alphanumeric` holds of a character: whether Unicode counts it among the
/// letters or the numbers.
pub uninterp spec fn alphanumeric(c: char) -> bool;

/// Whether `Uuid::parse_str` accepts a text as a UUID, in any of the forms that it reads.
pub uninterp spec fn uuid_text(text: Seq<char>) -> bool;

/// Calls `char::is_alphanumeric` of std. The contract gives the answer its name and claims
/// nothing else of it.
#[verifier::external_body]
fn is_alphanumeric(c: char) -> (answer: bool)
    ensures
        answer == alphanumeric(c),
{
    c.is_alphanumeric()
}

/// Calls `Uuid::parse_str` on the text that the characters make up, and tells whether it
/// returned a UUID. The contract gives the answer its name and claims nothing else of it.
#[verifier::external_body]
fn is_uuid_text(segment: &Vec<char>) -> (answer: bool)
    ensures
        answer == uuid_text(segment@),
{
    let text: String = segment.iter().collect();
    Uuid::parse_str(&text).is_ok()
}

/// The number of bytes that UTF-8 takes for one character.
pub open spec fn encoded_width(c: char) -> nat {
    if (c as u32) < 0x80 {
        1
    } else if (c as u32) < 0x800 {
        2
    } else if (c as u32) < 0x10000 {
        3
    } else {
        4
    }
}

/// The number of bytes that UTF-8 takes for a text.
pub open spec fn encoded_size(text: Seq<char>) -> nat
    decreases text.len(),
{
    if text.len() == 0 {
        0
    } else {
        encoded_size(text.drop_last()) + encoded_width(text.last())
    }
}

/// The number of dashes in a text.
pub open spec fn dash_count(text: Seq<char>) -> nat
    decreases text.len(),
{
    if text.len() == 0 {
        0
    } else {
        dash_count(text.drop_last()) + if text.last() == '-' {
            1nat
        } else {
            0nat
        }
    }
}

/// Whether every character of a text that is no dash is alphanumeric.
pub open spec fn alphanumeric_besides_dashes(text: Seq<char>) -> bool {
    forall|k: int| 0 <= k < text.len() && text[k] != '-' ==> alphanumeric(#[trigger] text[k])
}

/// Whether a segment has an acceptable size: between 2 and 32 bytes.
pub open spec fn segment_size_fits(segment: Seq<char>) -> bool {
    MIN_SEGMENT_SIZE <= encoded_size(segment) <= MAX_SEGMENT_SIZE
}

/// Whether a segment is made of acceptable characters: it is a UUID, or it is alphanumeric
/// but for at most one dash.
pub open spec fn segment_content_fits(segment: Seq<char>) -> bool {
    uuid_text(segment) || (dash_count(segment) <= 1 && alphanumeric_besides_dashes(segment))
}

/// What is wrong with an attribute name, where anything is: the message of the error that
/// [validate_attribute_name] returns for it. The number of segments is judged first, then
/// the size of every segment, then the content of every segment.
pub open spec fn attribute_name_complaint(name: Seq<char>) -> Option<Seq<char>> {
    let segments = split_at_dots(name);
    if segments.len() > MAX_NAME_SEGMENTS {
        Some("Attribute name "@ + name + " has too many segments"@)
    } else if exists|k: int| 0 <= k < segments.len() && !segment_size_fits(#[trigger] segments[k]) {
        Some(
            "Attribute name "@ + name + " contains at least one segment with an incorrect size"@,
        )
    } else if exists|k: int|
        0 <= k < segments.len() && !segment_content_fits(#[trigger] segments[k]) {
        Some(
            "Attribute name "@ + name
                + " contains at least one segment that is not a uuid, has more than one dash character, or violates alphanumeric values"@,
        )
    } else {
        None
    }
}

/// What is wrong with an attribute name, as the error that says so.
pub open spec fn attribute_name_fault(name: Seq<char>) -> Option<ContractErrorView> {
    match attribute_name_complaint(name) {
        None => None,
        Some(message) => Some(ContractErrorView::InvalidFormatError { message }),
    }
}

/// Whether an attribute name is valid: at most 16 segments, each of 2 to 32 bytes, and each
/// either a UUID or alphanumeric but for at most one dash.
pub open spec fn valid_attribute_name(name: Seq<char>) -> bool {
    attribute_name_complaint(name).is_none()
}

/// The characters of each segment of `chars`, in order.
fn segments_of(chars: &Vec<char>) -> (segments: Vec<Vec<char>>)
    ensures
        segments@.len() == split_at_dots(chars@).len(),
        forall|k: int|
            0 <= k < segments@.len() ==> (#[trigger] segments@[k])@ == split_at_dots(chars@)[k],
{
    let bounds = segment_bounds(chars);
    let mut segments: Vec<Vec<char>> = Vec::new();
    let mut index: usize = 0;
    while index < bounds.len()
        invariant
            index <= bounds@.len(),
            bounds@.len() == split_at_dots(chars@).len(),
            forall|k: int|
                0 <= k < bounds@.len() ==> (#[trigger] bounds@[k]).0 <= bounds@[k].1
                    <= chars@.len() && split_at_dots(chars@)[k] == chars@.subrange(
                    bounds@[k].0 as int,
                    bounds@[k].1 as int,
                ),
            segments@.len() == index,
            forall|k: int|
                0 <= k < index ==> (#[trigger] segments@[k])@ == split_at_dots(chars@)[k],
        decreases bounds@.len() - index,
    {
        let (start, end) = bounds[index];
        let mut segment: Vec<char> = Vec::new();
        let mut at: usize = start;
        while at < end
            invariant
                start <= at <= end <= chars@.len(),
                segment@ == chars@.subrange(start as int, at as int),
            decreases end - at,
        {
            segment.push(chars[at]);
            at = at + 1;
            proof {
                assert(segment@ =~= chars@.subrange(start as int, at as int));
            }
        }
        segments.push(segment);
        index = index + 1;
    }
    segments
}

/// The number of bytes that UTF-8 takes for a text never shrinks as the text grows.
proof fn lemma_encoded_size_of_prefix(text: Seq<char>, length: int)
    requires
        0 <= length <= text.len(),
    ensures
        encoded_size(text.take(length)) <= encoded_size(text),
    decreases text.len(),
{
    if length == text.len() {
        assert(text.take(length) =~= text);
    } else {
        lemma_encoded_size_of_prefix(text.drop_last(), length);
        assert(text.drop_last().take(length) =~= text.take(length));
    }
}

/// Tells whether a segment of an attribute name takes between 2 and 32 bytes.
///
/// # Parameters
///
/// * `segment` The characters of the segment.
pub fn segment_has_valid_size(segment: &Vec<char>) -> (fits: bool)
    ensures
        fits == segment_size_fits(segment@),
{
    let mut size: usize = 0;
    let mut index: usize = 0;
    proof {
        assert(segment@.take(0) =~= Seq::<char>::empty());
    }
    while index < segment.len()
        invariant
            index <= segment@.len(),
            size == encoded_size(segment@.take(index as int)),
            size <= MAX_SEGMENT_SIZE,
        decreases segment@.len() - index,
    {
        let code = segment[index] as u32;
        let width: usize = if code < 0x80 {
            1
        } else if code < 0x800 {
            2
        } else if code < 0x10000 {
            3
        } else {
            4
        };
        proof {
            assert(segment@.take(index + 1).drop_last() =~= segment@.take(index as int));
            assert(segment@.take(index + 1).last() == segment@[index as int]);
        }
        size = size + width;
        index = index + 1;
        if size > MAX_SEGMENT_SIZE {
            proof {
                lemma_encoded_size_of_prefix(segment@, index as int);
            }
            return false;
        }
    }
    proof {
        assert(segment@.take(index as int) =~= segment@);
    }
    size >= MIN_SEGMENT_SIZE
}

/// Judges the characters of a segment from what was found of it: a segment is acceptable
/// where it parses as a UUID, or holds at most one dash and is alphanumeric besides.
pub fn segment_verdict(parses_as_uuid: bool, dashes: usize, alphanumeric_besides: bool) -> (fits:
    bool)
    ensures
        fits == (parses_as_uuid || (dashes <= 1 && alphanumeric_besides)),
{
    parses_as_uuid || (dashes <= 1 && alphanumeric_besides)
}

/// Tells whether a segment of an attribute name is a UUID, or alphanumeric but for at most
/// one dash.
///
/// # Parameters
///
/// * `segment` The characters of the segment.
pub fn segment_has_valid_content(segment: &Vec<char>) -> (fits: bool)
    ensures
        fits == segment_content_fits(segment@),
{
    let parses_as_uuid = is_uuid_text(segment);
    let mut dashes: usize = 0;
    let mut alphanumeric_besides = true;
    let mut index: usize = 0;
    proof {
        assert(segment@.take(0) =~= Seq::<char>::empty());
    }
    while index < segment.len()
        invariant
            index <= segment@.len(),
            dashes == dash_count(segment@.take(index as int)),
            dashes <= index,
            alphanumeric_besides == alphanumeric_besides_dashes(segment@.take(index as int)),
        decreases segment@.len() - index,
    {
        let c = segment[index];
        proof {
            let shorter = segment@.take(index as int);
            let longer = segment@.take(index + 1);
            assert(longer.drop_last() =~= shorter);
            assert(longer.last() == c);
            assert(forall|k: int| 0 <= k < shorter.len() ==> shorter[k] == longer[k]);
            if alphanumeric_besides_dashes(longer) {
                assert forall|k: int|
                    0 <= k < shorter.len() && shorter[k] != '-' implies alphanumeric(
                    #[trigger] shorter[k],
                ) by {
                    assert(longer[k] == shorter[k]);
                }
            }
            if alphanumeric_besides_dashes(shorter) && (c == '-' || alphanumeric(c)) {
                assert forall|k: int|
                    0 <= k < longer.len() && longer[k] != '-' implies alphanumeric(
                    #[trigger] longer[k],
                ) by {
                    if k < shorter.len() {
                        assert(longer[k] == shorter[k]);
                    }
                }
            }
            if c != '-' && !alphanumeric(c) {
                assert(longer[index as int] == c);
            }
        }
        if c == '-' {
            dashes = dashes + 1;
        } else if !is_alphanumeric(c) {
            alphanumeric_besides = false;
        }
        index = index + 1;
    }
    proof {
        assert(segment@.take(index as int) =~= segment@);
    }
    segment_verdict(parses_as_uuid, dashes, alphanumeric_besides)
}

fn name_error(name: &str, complaint: &str) -> (error: ContractError)
    ensures
        error matches ContractError::InvalidFormatError { message } && message@
            == "Attribute name "@ + name@ + complaint@,
{
    let mut message = String::from_str("Attribute name ");
    message.append(name);
    message.append(complaint);
    ContractError::InvalidFormatError { message }
}

/// Verifies that the provided string is a valid attribute name for the Provenance Blockchain,
/// following their rules:
/// - The attribute must not be empty.
/// - The attribute must have at maximum 16 segments, separated by periods.
/// - Each segment must take between 2 and 32 bytes.
/// - Each segment must be alphanumeric.
/// - Each segment can have a single '-' character, or be a valid uuid if it includes '-'
///   characters.
///
/// # Parameters
///
/// * `name` The fully-qualified attribute name.  Ex: name-thing.name
pub fn validate_attribute_name(name: &str) -> (result: Result<(), ContractError>)
    ensures
        passes_unless(result, attribute_name_fault(name@)),
{
    let chars = chars_of(name);
    let segments = segments_of(&chars);
    if segments.len() > MAX_NAME_SEGMENTS {
        return Err(name_error(name, " has too many segments"));
    }
    let mut index: usize = 0;
    while index < segments.len()
        invariant
            index <= segments@.len() <= MAX_NAME_SEGMENTS,
            segments@.len() == split_at_dots(name@).len(),
            forall|k: int|
                0 <= k < segments@.len() ==> (#[trigger] segments@[k])@ == split_at_dots(name@)[k],
            forall|k: int| 0 <= k < index ==> segment_size_fits(#[trigger] split_at_dots(name@)[k]),
        decreases segments@.len() - index,
    {
        if !segment_has_valid_size(&segments[index]) {
            proof {
                assert(!segment_size_fits(split_at_dots(name@)[index as int]));
            }
            return Err(name_error(name, " contains at least one segment with an incorrect size"));
        }
        index = index + 1;
    }
    let mut index: usize = 0;
    while index < segments.len()
        invariant
            index <= segments@.len() <= MAX_NAME_SEGMENTS,
            segments@.len() == split_at_dots(name@).len(),
            forall|k: int|
                0 <= k < segments@.len() ==> (#[trigger] segments@[k])@ == split_at_dots(name@)[k],
            forall|k: int|
                0 <= k < segments@.len() ==> segment_size_fits(#[trigger] split_at_dots(name@)[k]),
            forall|k: int|
                0 <= k < index ==> segment_content_fits(#[trigger] split_at_dots(name@)[k]),
        decreases segments@.len() - index,
    {
        if !segment_has_valid_content(&segments[index]) {
            proof {
                assert(!segment_content_fits(split_at_dots(name@)[index as int]));
            }
            return Err(
                name_error(
                    name,
                    " contains at least one segment that is not a uuid, has more than one dash character, or violates alphanumeric values",
                ),
            );
        }
        index = index + 1;
    }
    Ok(())
}

/// What is wrong with a sender who asks for what only the admin may do: the sender is not
/// the admin.
pub open spec fn admin_fault(sender: Seq<char>, admin: Seq<char>, message: Seq<char>) -> Option<
    ContractErrorView,
> {
    if sender == admin {
        None
    } else {
        Some(ContractErrorView::NotAuthorizedError { message })
    }
}

/// Verifies that the sender of a message is the admin of the contract.
///
/// # Parameters
///
/// * `info` Describes the sender of the message.
/// * `contract_state` The stored configuration, which names the admin.
/// * `message` The message of the error for a sender who is not the admin.
pub fn check_sender_is_admin(
    info: &MessageInfo,
    contract_state: &ContractStateV1,
    message: &str,
) -> (result: Result<(), ContractError>)
    ensures
        passes_unless(result, admin_fault(info.sender@, contract_state.admin@, message@)),
{
    if info.sender != contract_state.admin {
        Err(ContractError::NotAuthorizedError { message: String::from_str(message) })
    } else {
        Ok(())
    }
}

/// What turns a call away from a route that only the admin may take, before anything is
/// changed. Attached funds are judged first, then the store must hold a configuration,
/// then the sender must be its admin.
pub open spec fn admin_route_fault(
    stored: Option<ContractStateV1View>,
    funds: nat,
    sender: Seq<char>,
    message: Seq<char>,
) -> Option<ContractErrorView> {
    if funds_fault(funds) is Some {
        funds_fault(funds)
    } else {
        match stored {
            None => Some(missing_state_fault()),
            Some(stored) => admin_fault(sender, stored.admin, message),
        }
    }
}

/// A sender who is not the admin of the stored configuration, and attaches no funds, is
/// turned away from every admin route as not authorized.
pub proof fn lemma_other_senders_are_not_authorized(
    stored: ContractStateV1View,
    sender: Seq<char>,
    message: Seq<char>,
)
    requires
        sender != stored.admin,
    ensures
        admin_route_fault(Some(stored), 0, sender, message) == Some(
            ContractErrorView::NotAuthorizedError { message },
        ),
{
}

/// A call that carries funds is turned away from every admin route with the error for
/// attached funds, whoever sent it and whatever is stored.
pub proof fn lemma_admin_routes_take_no_funds(
    stored: Option<ContractStateV1View>,
    funds: nat,
    sender: Seq<char>,
    message: Seq<char>,
)
    requires
        funds > 0,
    ensures
        admin_route_fault(stored, funds, sender, message) == Some(
            ContractErrorView::InvalidFundsError { message: funds_provided_message() },
        ),
{
}

} // verus!
