use crate::store::contract_state::{
    get_contract_state_v1, missing_state_fault, set_contract_state_v1, ContractStateV1,
    ContractStateV1View, Storage, CONTRACT_TYPE, CONTRACT_VERSION,
};
use crate::types::error::{fails_with, passes_unless, ContractError, ContractErrorView};
use crate::types::response::{pair, Response, ResponseView};
use semver::Version;
use std::cmp::Ordering;
use vstd::prelude::*;
use vstd::std_specs::cmp::PartialOrdSpec;

verus! {

/// `semver::Version`: a parsed semantic version. Carried from the parser to the comparison.
#[verifier::external_type_specification]
#[verifier::external_body]
pub struct ExVersion(semver::Version);

/// `semver::Error`: why a text is no semantic version. Carried through as it came.
#[verifier::external_type_specification]
#[verifier::external_body]
pub struct ExSemverError(semver::Error);

/// The version that `Version::from_str` reads from a text, where it reads one.
pub uninterp spec fn parsed_version(text: Seq<char>) -> Option<Version>;

/// Whether the stored version is at least the target version, in the order in which
/// `semver::Version` compares: whether the comparison of the two gives greater or equal.
pub open spec fn version_at_least(stored: Version, target: Version) -> bool {
    stored.partial_cmp_spec(&target) matches Some(Ordering::Greater | Ordering::Equal)
}

/// Calls `str::parse::<Version>`, that is `Version::from_str` of semver. The contract gives
/// the version that comes back its name, and says that an error comes back exactly where
/// there is no such version.
#[verifier::external_body]
fn parse_version(text: &str) -> (result: Result<Version, semver::Error>)
    ensures
        match result {
            Ok(version) => parsed_version(text@) == Some(version),
            Err(_) => parsed_version(text@) is None,
        },
{
    text.parse::<Version>()
}

/// Compares two versions with `>=`, which is `PartialOrd::ge` of `semver::Version`. By the
/// documentation of `PartialOrd` the answer is that of `partial_cmp`: true where it gives
/// greater or equal. The contract says that, and nothing of which versions compare how.
#[verifier::external_body]
fn is_at_least(stored: &Version, target: &Version) -> (answer: bool)
    ensures
        answer == version_at_least(*stored, *target),
{
    stored >= target
}

/// The message of the error for a stored configuration of another contract type.
pub open spec fn type_mismatch_message(target_type: Seq<char>, stored_type: Seq<char>) -> Seq<
    char,
> {
    "target migration contract type ["@ + target_type
        + "] does not match stored contract type ["@ + stored_type + "]"@
}

/// The message of the error for a target version that is not above the stored version.
pub open spec fn version_too_low_message(target_version: Seq<char>, stored_version: Seq<char>)
    -> Seq<char> {
    "target migration contract version ["@ + target_version
        + "] is too low to use. stored contract version is ["@ + stored_version + "]"@
}

/// What is wrong with the versions of a migration: the stored version is not below the
/// target version.
pub open spec fn version_fault(
    stored_at_least_target: bool,
    target_version: Seq<char>,
    stored_version: Seq<char>,
) -> Option<ContractErrorView> {
    if stored_at_least_target {
        Some(
            ContractErrorView::MigrationError {
                message: version_too_low_message(target_version, stored_version),
            },
        )
    } else {
        None
    }
}

/// Accepts a migration whose target version is above the stored version, and rejects any
/// other: a migration must raise the version.
///
/// # Parameters
/// * `stored_at_least_target` Whether the stored version is at least the target version.
/// * `target_version` The version of the code to which the contract migrates.
/// * `stored_version` The version that the stored configuration carries.
pub fn version_verdict(stored_at_least_target: bool, target_version: &str, stored_version: &str)
    -> (result: Result<(), ContractError>)
    ensures
        passes_unless(
            result,
            version_fault(stored_at_least_target, target_version@, stored_version@),
        ),
{
    if stored_at_least_target {
        let mut message = String::from_str("target migration contract version [");
        message.append(target_version);
        message.append("] is too low to use. stored contract version is [");
        message.append(stored_version);
        message.append("]");
        Err(ContractError::MigrationError { message })
    } else {
        Ok(())
    }
}

/// What is wrong with the migration of a stored configuration to a target. The type is
/// judged first: it must be the same. Then the stored version is read as a semantic
/// version, then the target version, and the two are compared last: the stored version
/// must be below the target version.
pub open spec fn migration_fault(
    stored: ContractStateV1View,
    target_type: Seq<char>,
    target_version: Seq<char>,
) -> Option<ContractErrorView> {
    if stored.contract_type != target_type {
        Some(
            ContractErrorView::MigrationError {
                message: type_mismatch_message(target_type, stored.contract_type),
            },
        )
    } else {
        match parsed_version(stored.contract_version) {
            None => Some(ContractErrorView::SemVerError),
            Some(existing) => match parsed_version(target_version) {
                None => Some(ContractErrorView::SemVerError),
                Some(target) => version_fault(
                    version_at_least(existing, target),
                    target_version,
                    stored.contract_version,
                ),
            },
        }
    }
}

/// Verifies that a stored configuration may migrate to the code of the target type and
/// version: the contract type must be the same and the version must rise.
///
/// # Parameters
/// * `contract_state` The stored configuration.
/// * `target_type` The contract type of the code to which the contract migrates.
/// * `target_version` The version of the code to which the contract migrates.
pub fn validate_migration(
    contract_state: &ContractStateV1,
    target_type: &str,
    target_version: &str,
) -> (result: Result<(), ContractError>)
    ensures
        passes_unless(result, migration_fault(contract_state@, target_type@, target_version@)),
{
    if String::from_str(target_type) != contract_state.contract_type {
        let mut message = String::from_str("target migration contract type [");
        message.append(target_type);
        message.append("] does not match stored contract type [");
        message.append(contract_state.contract_type.as_str());
        message.append("]");
        return Err(ContractError::MigrationError { message });
    }
    let existing_contract_version = match parse_version(contract_state.contract_version.as_str()) {
        Ok(version) => version,
        Err(error) => {
            return Err(ContractError::SemVerError(error));
        },
    };
    let new_contract_version = match parse_version(target_version) {
        Ok(version) => version,
        Err(error) => {
            return Err(ContractError::SemVerError(error));
        },
    };
    version_verdict(
        is_at_least(&existing_contract_version, &new_contract_version),
        target_version,
        contract_state.contract_version.as_str(),
    )
}

/// The stored configuration after a migration to a version: the same but for the version.
pub open spec fn migrated_state(stored: ContractStateV1View, target_version: Seq<char>)
    -> ContractStateV1View {
    ContractStateV1View { contract_version: target_version, ..stored }
}

/// The response to an accepted migration: no instructions, the action and the new version
/// in the log, and the configuration as it is stored from now on.
pub open spec fn migration_response(stored: ContractStateV1View, target_version: Seq<char>)
    -> ResponseView {
    ResponseView {
        messages: Seq::empty(),
        attributes: seq![pair("action"@, "migrate"@), pair("new_version"@, target_version)],
        data: Some(migrated_state(stored, target_version)),
    }
}

/// What a migration makes of the store and hands back. Without a stored configuration it
/// fails; with one it fails where [migration_fault] finds a fault. Where it fails the store
/// is left as it was. Else the stored version becomes the target version, nothing else
/// changes, and the response reports the configuration as it is stored from now on.
pub open spec fn migration_outcome(
    before: Option<ContractStateV1View>,
    after: Option<ContractStateV1View>,
    result: Result<Response, ContractError>,
    target_type: Seq<char>,
    target_version: Seq<char>,
) -> bool {
    match before {
        None => fails_with(result, missing_state_fault()) && after == before,
        Some(stored) => match migration_fault(stored, target_type, target_version) {
            Some(fault) => fails_with(result, fault) && after == before,
            None => {
                &&& result matches Ok(response) && response@ == migration_response(
                    stored,
                    target_version,
                )
                &&& after == Some(migrated_state(stored, target_version))
            },
        },
    }
}

/// Migrates the stored configuration to the code of a target type and version.
///
/// # Parameters
/// * `storage` The store of the contract instance.
/// * `target_type` The contract type of the code to which the contract migrates.
/// * `target_version` The version of the code to which the contract migrates.
pub fn migrate_contract_to(
    storage: &mut Storage,
    target_type: &str,
    target_version: &str,
) -> (result: Result<Response, ContractError>)
    ensures
        migration_outcome(old(storage)@, final(storage)@, result, target_type@, target_version@),
{
    let mut contract_state = get_contract_state_v1(storage)?;
    validate_migration(&contract_state, target_type, target_version)?;
    contract_state.contract_version = String::from_str(target_version);
    set_contract_state_v1(storage, &contract_state)?;
    let response = Response::new()
        .add_attribute("action", "migrate")
        .add_attribute("new_version", target_version)
        .set_data(contract_state);
    assert(response@.attributes =~= migration_response(
        old(storage)@.unwrap(),
        target_version@,
    ).attributes);
    Ok(response)
}

/// The main entrypoint function for running a code migration.  Auxiliary code run when a stored
/// instance of this contract on chain is migrated over the existing instance.  Verifies that the
/// new code instance is a newer version than the current version, and then modifies the contract
/// state to reflect the new version information contained in the stored file.
///
/// # Parameters
/// * `storage` The store of the contract instance.
pub fn migrate_contract(storage: &mut Storage) -> (result: Result<Response, ContractError>)
    ensures
        migration_outcome(
            old(storage)@,
            final(storage)@,
            result,
            CONTRACT_TYPE@,
            CONTRACT_VERSION@,
        ),
{
    migrate_contract_to(storage, CONTRACT_TYPE, CONTRACT_VERSION)
}

/// A stored configuration of another contract type never migrates, whatever the versions:
/// the migration fails with a migration error and the store is left as it was.
pub proof fn lemma_type_mismatch_never_migrates(
    before: Option<ContractStateV1View>,
    after: Option<ContractStateV1View>,
    result: Result<Response, ContractError>,
    target_type: Seq<char>,
    target_version: Seq<char>,
)
    requires
        before matches Some(stored) && stored.contract_type != target_type,
        migration_outcome(before, after, result, target_type, target_version),
    ensures
        result matches Err(ContractError::MigrationError { .. }),
        after == before,
{
}

} // verus!
