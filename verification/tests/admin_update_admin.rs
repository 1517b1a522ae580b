use cosmwasm_std::testing::MOCK_CONTRACT_ADDR;
use funding_trading_bridge_smart_contract::execute::admin_update_admin::admin_update_admin;
use funding_trading_bridge_smart_contract::instantiate::instantiate_contract::instantiate_contract;
use funding_trading_bridge_smart_contract::store::contract_state::{
    get_contract_state_v1, Storage, CONTRACT_TYPE,
};
use funding_trading_bridge_smart_contract::types::denom::Denom;
use funding_trading_bridge_smart_contract::types::error::ContractError;
use funding_trading_bridge_smart_contract::types::host::{Coin, Env, MessageInfo};
use funding_trading_bridge_smart_contract::types::msg::InstantiateMsg;
use funding_trading_bridge_smart_contract::types::response::{AttributeExtractor, Response};

const DEFAULT_ADMIN: &str = "admin";
const DEFAULT_CONTRACT_NAME: &str = "test-contract";

fn default_instantiate_msg() -> InstantiateMsg {
    InstantiateMsg {
        contract_name: DEFAULT_CONTRACT_NAME.to_string(),
        deposit_marker: Denom::new("denom.deposit", 2),
        trading_marker: Denom::new("denom.trading", 6),
        required_deposit_attributes: vec!["deposit.attribute.pb".to_string()],
        required_withdraw_attributes: vec!["withdraw.attribute.pb".to_string()],
        name_to_bind: Some("bridge.sc.pb".to_string()),
    }
}

fn mock_env() -> Env {
    Env::new(MOCK_CONTRACT_ADDR)
}

fn mock_info(sender: &str, funds: &[Coin]) -> MessageInfo {
    MessageInfo::new(sender, funds.to_vec())
}

fn coins(amount: u128, denom: &str) -> Vec<Coin> {
    vec![Coin::new(amount, denom)]
}

fn test_instantiate(storage: &mut Storage) {
    instantiate_contract(
        storage,
        &mock_env(),
        &mock_info(DEFAULT_ADMIN, &[]),
        &default_instantiate_msg(),
    )
    .expect("expected default instantiation to succeed");
}

fn assert_attribute(response: &Response, key: &str, expected_value: &str) {
    let value = response
        .find_attribute(key)
        .unwrap_or_else(|| panic!("expected attributes to contain key [{key}]"));
    assert_eq!(
        expected_value, value,
        "expected the correct value for [{key}]",
    );
}

#[test]
fn admin_update_admin_provided_funds_should_cause_an_error() {
    let mut storage = Storage::new();
    let error = admin_update_admin(
        &mut storage,
        &mock_env(),
        &mock_info(DEFAULT_ADMIN, &coins(10, "nhash")),
        "test".to_string(),
    )
    .expect_err("an error should occur when funds are provided");
    assert!(
        matches!(&error, ContractError::InvalidFundsError { .. },),
        "unexpected error encountered: {error:?}",
    );
}

#[test]
fn admin_update_admin_missing_contract_state_should_cause_an_error() {
    let mut storage = Storage::new();
    let error = admin_update_admin(
        &mut storage,
        &mock_env(),
        &mock_info(DEFAULT_ADMIN, &[]),
        "test".to_string(),
    )
    .expect_err("an error should occur when the contract state is missing");
    assert!(
        matches!(&error, ContractError::StorageError { .. },),
        "unexpected error encountered: {error:?}",
    );
}

#[test]
fn admin_update_admin_successful_input_should_derive_a_response() {
    let mut storage = Storage::new();
    test_instantiate(&mut storage);
    let new_admin = "new-admin".to_string();
    let response = admin_update_admin(
        &mut storage,
        &mock_env(),
        &mock_info(DEFAULT_ADMIN, &[]),
        new_admin.to_owned(),
    )
    .expect("proper input on an instantiated contract should derive a successful response");
    assert!(
        response.messages.is_empty(),
        "no messages should be emitted in the response"
    );
    assert_eq!(
        6,
        response.attributes.len(),
        "six attributes should be emitted in the response"
    );
    assert_attribute(&response, "action", "admin_update_admin");
    assert_attribute(&response, "contract_address", MOCK_CONTRACT_ADDR);
    assert_attribute(&response, "contract_type", CONTRACT_TYPE);
    assert_attribute(&response, "contract_name", DEFAULT_CONTRACT_NAME);
    assert_attribute(&response, "previous_admin", DEFAULT_ADMIN);
    assert_attribute(&response, "new_admin", &new_admin);
}

#[test]
fn admin_update_admin_replaces_the_admin_and_nothing_else() {
    let mut storage = Storage::new();
    test_instantiate(&mut storage);
    let before = get_contract_state_v1(&storage).expect("the contract was instantiated");
    let response = admin_update_admin(
        &mut storage,
        &mock_env(),
        &mock_info(DEFAULT_ADMIN, &[]),
        "new-admin".to_string(),
    )
    .expect("the admin may name a new admin");
    let keys: Vec<&str> = response
        .attributes
        .iter()
        .map(|attribute| attribute.key.as_str())
        .collect();
    assert_eq!(
        vec![
            "action",
            "contract_address",
            "contract_type",
            "contract_name",
            "previous_admin",
            "new_admin"
        ],
        keys,
    );
    assert!(response.data.is_none());
    let after = get_contract_state_v1(&storage).expect("the contract was instantiated");
    assert_eq!("new-admin", after.admin);
    let mut expected = before;
    expected.admin = "new-admin".to_string();
    assert_eq!(expected, after);
    // The admin before is no admin any more, and the new admin is.
    let error = admin_update_admin(
        &mut storage,
        &mock_env(),
        &mock_info(DEFAULT_ADMIN, &[]),
        "third".to_string(),
    )
    .expect_err("the admin before has lost its rights");
    assert!(matches!(error, ContractError::NotAuthorizedError { .. }));
    admin_update_admin(
        &mut storage,
        &mock_env(),
        &mock_info("new-admin", &[]),
        "third".to_string(),
    )
    .expect("the new admin may name the next");
}

#[test]
fn admin_update_admin_turns_other_senders_away_and_keeps_the_state() {
    let mut storage = Storage::new();
    test_instantiate(&mut storage);
    let before = storage.clone();
    for sender in ["", "not-admin", "Admin", MOCK_CONTRACT_ADDR] {
        let error = admin_update_admin(
            &mut storage,
            &mock_env(),
            &mock_info(sender, &[]),
            sender.to_string(),
        )
        .expect_err("only the admin may change the admin");
        match error {
            ContractError::NotAuthorizedError { message } => {
                assert_eq!("only the contract admin may change the admin", message)
            }
            error => panic!("unexpected error encountered: {error:?}"),
        }
        assert_eq!(before, storage, "a refused request must not change the state");
    }
}

#[test]
fn admin_update_admin_judges_funds_before_the_sender() {
    let mut storage = Storage::new();
    test_instantiate(&mut storage);
    let before = storage.clone();
    for sender in [DEFAULT_ADMIN, "not-admin"] {
        let error = admin_update_admin(
            &mut storage,
            &mock_env(),
            &mock_info(sender, &coins(1, "nhash")),
            "new-admin".to_string(),
        )
        .expect_err("funds are never expected");
        match error {
            ContractError::InvalidFundsError { message } => {
                assert_eq!("funds provided but empty funds required", message)
            }
            error => panic!("unexpected error encountered: {error:?}"),
        }
        assert_eq!(before, storage, "a refused request must not change the state");
    }
}
