use crate::types::error::{fails_with, passes_unless, ContractError, ContractErrorView};
use crate::types::ledger::{
    page_views, AttributePage, AttributePageView, LedgerCoin, PackedAccount, PageRequest,
    PageRequestView,
};
use crate::types::response::{
    MsgBindNameRequest, MsgBindNameRequestView, NameRecord, NameRecordView,
};
use crate::util::text_utils::{
    chars_of, clone_texts, decimal_digits, decimal_text, parse_u128, parsed_u128, segment_bounds,
    split_at_dots, texts,
};
use provwasm_std::shim::Any;
use provwasm_std::types::provenance::marker::v1::MarkerAccount;
use vstd::prelude::*;
use vstd::string::StrSliceExecFns;

verus! {

/// The bind request for a dot-qualified name, where its first segment is not empty: the
/// first segment is bound to the address, and what follows the first dot is the parent
/// name, which must point to the same address for the bind to succeed.
pub open spec fn bind_name_request(name: Seq<char>, address: Seq<char>, restricted: bool) -> Option<
    MsgBindNameRequestView,
> {
    let segments = split_at_dots(name);
    let first = segments[0];
    if first.len() == 0 {
        None
    } else {
        Some(
            MsgBindNameRequestView {
                record: Some(NameRecordView { name: first, address, restricted }),
                parent: if segments.len() > 1 {
                    Some(
                        NameRecordView {
                            name: name.skip(first.len() as int + 1),
                            address,
                            restricted: false,
                        },
                    )
                } else {
                    None
                },
            },
        )
    }
}

/// The message of the error for a name that starts with a dot, or is empty.
pub open spec fn empty_bind_name_message(name: Seq<char>) -> Seq<char> {
    "cannot bind to an empty name string ["@ + name + "]"@
}

/// Generates a name bind msg that will properly assign the given name value to a target
/// address.  Assumes the parent name is unrestricted or that the contract has access to bind a
/// name to the parent name.
///
/// # Parameters
/// * `name` The dot-qualified name to use on-chain for name binding. Ex: myname.sc.pb will
/// generate a msg that binds "myname" to the existing parent name "sc.pb".
/// * `bind_to_address` The bech32 address to which the name will be bound.
/// * `restricted` If true, the name will be bound as a restricted name, preventing future name
/// bindings from using it as a parent name.
pub fn msg_bind_name(name: &str, bind_to_address: &str, restricted: bool) -> (result: Result<
    MsgBindNameRequest,
    ContractError,
>)
    ensures
        match bind_name_request(name@, bind_to_address@, restricted) {
            Some(request) => result matches Ok(bound) && bound@ == request,
            None => fails_with(
                result,
                ContractErrorView::InvalidFormatError { message: empty_bind_name_message(name@) },
            ),
        },
{
    let chars = chars_of(name);
    let bounds = segment_bounds(&chars);
    let (_, first_end) = bounds[0];
    proof {
        assert(split_at_dots(name@)[0] == name@.subrange(0, first_end as int));
    }
    if first_end == 0 {
        let mut message = String::from_str("cannot bind to an empty name string [");
        message.append(name);
        message.append("]");
        return Err(ContractError::InvalidFormatError { message });
    }
    let record = NameRecord {
        name: String::from_str(name.substring_char(0, first_end)),
        address: String::from_str(bind_to_address),
        restricted,
    };
    let parent = if bounds.len() > 1 {
        proof {
            assert(bounds@[0].1 + 1 == bounds@[1].0);
            assert(name@.subrange(first_end + 1, name@.len() as int) =~= name@.skip(
                first_end + 1,
            ));
        }
        Some(
            NameRecord {
                name: String::from_str(name.substring_char(first_end + 1, chars.len())),
                address: String::from_str(bind_to_address),
                restricted: false,
            },
        )
    } else {
        None
    };
    Ok(MsgBindNameRequest { record: Some(record), parent })
}

/// The message of the error for an account without any balance of a denom.
pub open spec fn no_balance_message(account: Seq<char>, denom: Seq<char>) -> Seq<char> {
    "account ["@ + account + "] has no ["@ + denom + "] balance"@
}

/// The message of the error for an account that holds less than is required.
pub open spec fn low_balance_message(required_amount: u128, balance: u128) -> Seq<char> {
    "required ["@ + decimal_digits(required_amount as nat) + "], but account only holds ["@
        + decimal_digits(balance as nat) + "]"@
}

/// The amount of a reported balance, as the ledger wrote it, where a balance was reported.
pub open spec fn balance_text(balance: Option<LedgerCoin>) -> Option<Seq<char>> {
    match balance {
        Some(coin) => Some(coin.amount@),
        None => None,
    }
}

/// What is wrong with the balance of an account that is to hold `required_amount` of a
/// denom: the account has no balance of the denom at all, the reported amount is no
/// number, or the amount is less than what is required.
pub open spec fn balance_fault(
    account: Seq<char>,
    denom: Seq<char>,
    balance: Option<Seq<char>>,
    required_amount: u128,
) -> Option<ContractErrorView> {
    match balance {
        None => Some(
            ContractErrorView::InvalidFundsError { message: no_balance_message(account, denom) },
        ),
        Some(amount) => match parsed_u128(amount) {
            None => Some(ContractErrorView::ParseIntError),
            Some(held) => if held < required_amount {
                Some(
                    ContractErrorView::InvalidAccountError {
                        message: low_balance_message(required_amount, held),
                    },
                )
            } else {
                None
            },
        },
    }
}

/// Ensures that the target account holds enough of the target denom name, from the balance
/// that the bank module reported for the account and the denom.
///
/// # Parameters
/// * `account` The bech32 address of the account for which to verify balances.
/// * `denom` The coin denomination for which balances are to be checked.
/// * `balance` What the bank module answered when asked for the balance of the account in
/// the denom: the coin that it holds, where it holds any.
/// * `required_amount` The minimum amount of coin that the target account must hold for the given
/// denom to be considered valid.
pub fn check_account_has_enough_denom(
    account: &str,
    denom: &str,
    balance: &Option<LedgerCoin>,
    required_amount: u128,
) -> (result: Result<(), ContractError>)
    ensures
        passes_unless(
            result,
            balance_fault(account@, denom@, balance_text(*balance), required_amount),
        ),
{
    match balance {
        Some(coin) => {
            let numeric_balance = match parse_u128(coin.amount.as_str()) {
                Ok(value) => value,
                Err(error) => {
                    return Err(ContractError::ParseIntError(error));
                },
            };
            if numeric_balance < required_amount {
                let mut message = String::from_str("required [");
                message.append(decimal_text(required_amount).as_str());
                message.append("], but account only holds [");
                message.append(decimal_text(numeric_balance).as_str());
                message.append("]");
                Err(ContractError::InvalidAccountError { message })
            } else {
                Ok(())
            }
        },
        None => {
            let mut message = String::from_str("account [");
            message.append(account);
            message.append("] has no [");
            message.append(denom);
            message.append("] balance");
            Err(ContractError::InvalidFundsError { message })
        },
    }
}

/// What `MarkerAccount::try_from` makes of a packed account, as far as this contract reads
/// it: nothing where the bytes are no marker account; else the address of the base account
/// of the marker, where the marker has a base account.
pub uninterp spec fn marker_base_address(type_url: Seq<char>, value: Seq<u8>) -> Option<
    Option<Seq<char>>,
>;

/// What [unpack_marker_base_address] hands back, by its characters.
pub open spec fn base_address_view(unpacked: Option<Option<String>>) -> Option<Option<Seq<char>>> {
    match unpacked {
        None => None,
        Some(None) => Some(None),
        Some(Some(address)) => Some(Some(address@)),
    }
}

/// Calls `MarkerAccount::try_from` of provwasm on the packed account, which decodes the
/// bytes as a protobuf marker account, and picks the address of the base account out of
/// what it returns. The contract gives the outcome its name and claims nothing else of it.
#[verifier::external_body]
fn unpack_marker_base_address(packed: &PackedAccount) -> (unpacked: Option<Option<String>>)
    ensures
        base_address_view(unpacked) == marker_base_address(packed.type_url@, packed.value@),
{
    let any = Any { type_url: packed.type_url.clone(), value: packed.value.clone() };
    match MarkerAccount::try_from(any) {
        Ok(account) => Some(account.base_account.map(|base| base.address)),
        Err(_) => None,
    }
}

/// The message of the error for a denom of which the ledger knows no marker.
pub open spec fn missing_marker_message(denom: Seq<char>) -> Seq<char> {
    "unable to query marker by name ["@ + denom + "]"@
}

/// The message of the error for a marker whose account cannot be unpacked.
pub open spec fn malformed_marker_message(denom: Seq<char>) -> Seq<char> {
    "unable to resolve marker account for denom ["@ + denom + "]"@
}

/// The message of the error for a marker account without a base account.
pub open spec fn missing_base_account_message(denom: Seq<char>) -> Seq<char> {
    "unable to resolve base account from marker account ["@ + denom + "]"@
}

/// The address of a marker, from its unpacked account: that of its base account. There is
/// none where the account could not be unpacked, nor where it holds no base account.
pub open spec fn marker_address(denom: Seq<char>, unpacked: Option<Option<Seq<char>>>) -> Result<
    Seq<char>,
    ContractErrorView,
> {
    match unpacked {
        None => Err(ContractErrorView::NotFoundError { message: malformed_marker_message(denom) }),
        Some(None) => Err(
            ContractErrorView::NotFoundError { message: missing_base_account_message(denom) },
        ),
        Some(Some(address)) => Ok(address),
    }
}

/// The address of the marker of a denom, from what the marker module answered. There is
/// none where the ledger knows no marker by the name of the denom.
pub open spec fn marker_address_for_denom(
    denom: Seq<char>,
    marker: Option<PackedAccount>,
) -> Result<Seq<char>, ContractErrorView> {
    match marker {
        None => Err(ContractErrorView::NotFoundError { message: missing_marker_message(denom) }),
        Some(packed) => marker_address(denom, marker_base_address(packed.type_url@, packed.value@)),
    }
}

fn not_found(prefix: &str, denom: &str) -> (error: ContractError)
    ensures
        error matches ContractError::NotFoundError { message } && message@ == prefix@ + denom@
            + "]"@,
{
    let mut message = String::from_str(prefix);
    message.append(denom);
    message.append("]");
    ContractError::NotFoundError { message }
}

/// Picks the address of a marker out of its unpacked account.
///
/// # Parameters
/// * `denom` The on-chain name for the marker denom.
/// * `unpacked` Nothing where the account of the marker could not be unpacked; else the
/// address of its base account, where it has one.
pub fn marker_address_from(denom: &str, unpacked: Option<Option<String>>) -> (result: Result<
    String,
    ContractError,
>)
    ensures
        match marker_address(denom@, base_address_view(unpacked)) {
            Ok(address) => result matches Ok(found) && found@ == address,
            Err(fault) => fails_with(result, fault),
        },
{
    match unpacked {
        Some(Some(address)) => Ok(address),
        Some(None) => Err(
            not_found("unable to resolve base account from marker account [", denom),
        ),
        None => Err(not_found("unable to resolve marker account for denom [", denom)),
    }
}

/// Fetches the bech32 address associated with the marker account for the given denomination,
/// from what the marker module answered when asked for the marker of the denom.
///
/// # Parameters
/// * `denom` The on-chain name for the marker denom.
/// * `marker` The packed account of the marker, where the ledger knows one by this name.
pub fn get_marker_address_for_denom(denom: &str, marker: &Option<PackedAccount>) -> (result: Result<
    String,
    ContractError,
>)
    ensures
        match marker_address_for_denom(denom@, *marker) {
            Ok(address) => result matches Ok(found) && found@ == address,
            Err(fault) => fails_with(result, fault),
        },
{
    match marker {
        Some(packed) => marker_address_from(denom, unpack_marker_base_address(packed)),
        None => Err(not_found("unable to query marker by name [", denom)),
    }
}

/// The most pages of attributes that are read for one account. A ledger that goes on
/// announcing pages is not followed further.
pub const MAX_ATTRIBUTE_PAGES: usize = 100;

/// The greatest number of attributes asked for on each page after the first.
pub const ATTRIBUTE_PAGE_LIMIT: u64 = 25;

/// The required names that are not among `names`, in the order in which they are required.
pub open spec fn lacking(required: Seq<Seq<char>>, names: Seq<Seq<char>>) -> Seq<Seq<char>>
    decreases required.len(),
{
    if required.len() == 0 {
        Seq::empty()
    } else {
        let before = lacking(required.drop_last(), names);
        if names.contains(required.last()) {
            before
        } else {
            before.push(required.last())
        }
    }
}

/// Whether a page announces another page after it: it carries a key that is not empty.
pub open spec fn announces_next(page: AttributePageView) -> bool {
    page.next_key matches Some(key) && key.len() > 0
}

/// The request for the page that starts at `key`.
pub open spec fn page_request_at(key: Seq<u8>) -> PageRequestView {
    PageRequestView {
        key,
        offset: 0,
        limit: ATTRIBUTE_PAGE_LIMIT,
        count_total: false,
        reverse: false,
    }
}

/// Where the check of an account's attributes stands after the pages read so far.
#[derive(Clone, Debug, PartialEq, Eq)]
pub enum AttributeStep {
    /// Every required attribute was found: the account passes.
    Satisfied,
    /// Some required attribute was not found and no further page is read: the account fails.
    Unsatisfied,
    /// Some required attribute was not found yet and another page is to be read: the first
    /// page, asked for without a page request, or the page that the request names.
    Fetch(Option<PageRequest>),
}

/// What an [AttributeStep] is in contracts.
pub enum AttributeStepView {
    Satisfied,
    Unsatisfied,
    Fetch(Option<PageRequestView>),
}

impl View for AttributeStep {
    type V = AttributeStepView;

    open spec fn view(&self) -> AttributeStepView {
        match self {
            AttributeStep::Satisfied => AttributeStepView::Satisfied,
            AttributeStep::Unsatisfied => AttributeStepView::Unsatisfied,
            AttributeStep::Fetch(None) => AttributeStepView::Fetch(None),
            AttributeStep::Fetch(Some(request)) => AttributeStepView::Fetch(Some(request@)),
        }
    }
}

/// Where the check stands when `remaining` names are still required and the pages from
/// `seen` on have not been looked at. With nothing left to require the account passes.
/// Else the next page strikes the names that it holds; if names remain, the check goes on
/// to the page after it where the page announces one, and fails where it does not. Where
/// the pages read so far run out, the next one is asked for. No more than
/// [MAX_ATTRIBUTE_PAGES] pages are looked at: an account that has not passed by then fails.
pub open spec fn attribute_walk(
    remaining: Seq<Seq<char>>,
    pages: Seq<AttributePageView>,
    seen: nat,
) -> AttributeStepView
    decreases pages.len() - seen,
{
    if remaining.len() == 0 {
        AttributeStepView::Satisfied
    } else if seen >= MAX_ATTRIBUTE_PAGES {
        AttributeStepView::Unsatisfied
    } else if seen >= pages.len() {
        if seen == 0 {
            AttributeStepView::Fetch(None)
        } else {
            AttributeStepView::Fetch(
                Some(page_request_at(pages[seen - 1].next_key.unwrap_or(Seq::empty()))),
            )
        }
    } else {
        let left = lacking(remaining, pages[seen as int].names);
        if left.len() == 0 {
            AttributeStepView::Satisfied
        } else if announces_next(pages[seen as int]) {
            attribute_walk(left, pages, seen + 1)
        } else {
            AttributeStepView::Unsatisfied
        }
    }
}

/// Where the check of the required attributes stands after the pages read so far.
pub open spec fn attribute_progress(required: Seq<Seq<char>>, pages: Seq<AttributePageView>)
    -> AttributeStepView {
    attribute_walk(required, pages, 0)
}

/// Tells whether a name is among the names of a list.
fn holds_name(names: &Vec<String>, name: &String) -> (found: bool)
    ensures
        found == texts(names@).contains(name@),
{
    let mut index: usize = 0;
    while index < names.len()
        invariant
            index <= names@.len(),
            forall|k: int| 0 <= k < index ==> texts(names@)[k] != name@,
        decreases names@.len() - index,
    {
        if names[index] == *name {
            assert(texts(names@)[index as int] == name@);
            return true;
        }
        index = index + 1;
    }
    false
}

/// The required names that are not among `names`.
fn strike_names(required: &Vec<String>, names: &Vec<String>) -> (left: Vec<String>)
    ensures
        texts(left@) == lacking(texts(required@), texts(names@)),
{
    let mut left: Vec<String> = Vec::new();
    let mut index: usize = 0;
    proof {
        assert(texts(required@).take(0) =~= Seq::<Seq<char>>::empty());
        assert(texts(left@) =~= Seq::<Seq<char>>::empty());
    }
    while index < required.len()
        invariant
            index <= required@.len(),
            texts(left@) == lacking(texts(required@).take(index as int), texts(names@)),
        decreases required@.len() - index,
    {
        proof {
            let shorter = texts(required@).take(index as int);
            let longer = texts(required@).take(index + 1);
            assert(longer.drop_last() =~= shorter);
            assert(longer.last() == required@[index as int]@);
        }
        if !holds_name(names, &required[index]) {
            let ghost before = texts(left@);
            left.push(required[index].clone());
            proof {
                assert(texts(left@) =~= before.push(required@[index as int]@));
            }
        }
        index = index + 1;
    }
    proof {
        assert(texts(required@).take(index as int) =~= texts(required@));
    }
    left
}

/// A copy of a page key, byte for byte.
fn clone_key(key: &Vec<u8>) -> (copy: Vec<u8>)
    ensures
        copy@ == key@,
{
    let mut copy: Vec<u8> = Vec::new();
    let mut index: usize = 0;
    while index < key.len()
        invariant
            index <= key@.len(),
            copy@ == key@.take(index as int),
        decreases key@.len() - index,
    {
        copy.push(key[index]);
        index = index + 1;
        proof {
            assert(copy@ =~= key@.take(index as int));
        }
    }
    proof {
        assert(key@.take(index as int) =~= key@);
    }
    copy
}

/// Decides how the check of an account's attributes goes on, from the pages of its
/// attributes that were read so far, in the order in which the ledger sent them. The
/// caller reads the page that is asked for, adds it to the pages, and asks again, until
/// the answer is that the account passes or fails.
///
/// # Parameters
/// * `attributes` All attribute names to verify.
/// * `pages` The pages of the account's attributes that were read so far.
pub fn attribute_step(attributes: &[String], pages: &[AttributePage]) -> (step: AttributeStep)
    ensures
        step@ == attribute_progress(texts(attributes@), page_views(pages@)),
        step is Fetch ==> pages@.len() < MAX_ATTRIBUTE_PAGES,
{
    let mut remaining = clone_texts(attributes);
    let mut seen: usize = 0;
    loop
        invariant
            seen <= pages@.len(),
            seen > 0 ==> announces_next(page_views(pages@)[seen - 1]),
            attribute_progress(texts(attributes@), page_views(pages@)) == attribute_walk(
                texts(remaining@),
                page_views(pages@),
                seen as nat,
            ),
        decreases pages@.len() - seen,
    {
        if remaining.len() == 0 {
            return AttributeStep::Satisfied;
        }
        if seen >= MAX_ATTRIBUTE_PAGES {
            return AttributeStep::Unsatisfied;
        }
        if seen >= pages.len() {
            if seen == 0 {
                return AttributeStep::Fetch(None);
            }
            let key = match &pages[seen - 1].next_key {
                Some(key) => clone_key(key),
                None => Vec::new(),
            };
            return AttributeStep::Fetch(
                Some(
                    PageRequest {
                        key,
                        offset: 0,
                        limit: ATTRIBUTE_PAGE_LIMIT,
                        count_total: false,
                        reverse: false,
                    },
                ),
            );
        }
        let page = &pages[seen];
        remaining = strike_names(&remaining, &page.names);
        if remaining.len() == 0 {
            return AttributeStep::Satisfied;
        }
        let goes_on = match &page.next_key {
            Some(key) => key.len() > 0,
            None => false,
        };
        if !goes_on {
            return AttributeStep::Unsatisfied;
        }
        seen = seen + 1;
    }
}

/// The message of the error for an account that lacks a required attribute.
pub open spec fn missing_attributes_message() -> Seq<char> {
    "account does not have all required attributes"@
}

/// What is wrong with the attributes of an account: the check of the pages did not end
/// with every required attribute found.
pub open spec fn attributes_fault(
    required: Seq<Seq<char>>,
    pages: Seq<AttributePageView>,
) -> Option<ContractErrorView> {
    if attribute_progress(required, pages) is Satisfied {
        None
    } else {
        Some(ContractErrorView::InvalidAccountError { message: missing_attributes_message() })
    }
}

/// Ensures that the target account has all the specified attributes, from the pages of its
/// attributes that were read as [attribute_step] asked for them.  Does not check for valid
/// attribute body contents.
///
/// # Parameters
/// * `attributes` All attribute names to verify.
/// * `pages` The pages of the account's attributes, in the order in which the ledger sent
/// them.
pub fn check_account_has_all_attributes(attributes: &[String], pages: &[AttributePage]) -> (result:
    Result<(), ContractError>)
    ensures
        passes_unless(result, attributes_fault(texts(attributes@), page_views(pages@))),
{
    match attribute_step(attributes, pages) {
        AttributeStep::Satisfied => Ok(()),
        _ => Err(
            ContractError::InvalidAccountError {
                message: String::from_str("account does not have all required attributes"),
            },
        ),
    }
}

} // verus!
