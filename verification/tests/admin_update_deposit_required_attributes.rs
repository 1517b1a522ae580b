use cosmwasm_std::testing::MOCK_CONTRACT_ADDR;
use funding_trading_bridge_smart_contract::execute::admin_update_deposit_required_attributes::admin_update_deposit_required_attributes;
use funding_trading_bridge_smart_contract::instantiate::instantiate_contract::instantiate_contract;
use funding_trading_bridge_smart_contract::store::contract_state::{
    get_contract_state_v1, Storage, CONTRACT_TYPE,
};
use funding_trading_bridge_smart_contract::types::denom::Denom;
use funding_trading_bridge_smart_contract::types::error::ContractError;
use funding_trading_bridge_smart_contract::types::host::{Coin, Env, MessageInfo};
use funding_trading_bridge_smart_contract::types::msg::InstantiateMsg;
use funding_trading_bridge_smart_contract::types::response::{AttributeExtractor, Response};

const DEFAULT_ADMIN: &str = "admin";
const DEFAULT_CONTRACT_NAME: &str = "test-contract";

fn default_instantiate_msg() -> InstantiateMsg {
    InstantiateMsg {
        contract_name: DEFAULT_CONTRACT_NAME.to_string(),
        deposit_marker: Denom::new("denom.deposit", 2),
        trading_marker: Denom::new("denom.trading", 6),
        required_deposit_attributes: vec!["deposit.attribute.pb".to_string()],
        required_withdraw_attributes: vec!["withdraw.attribute.pb".to_string()],
        name_to_bind: Some("bridge.sc.pb".to_string()),
    }
}

fn mock_env() -> Env {
    Env::new(MOCK_CONTRACT_ADDR)
}

fn mock_info(sender: &str, funds: &[Coin]) -> MessageInfo {
    MessageInfo::new(sender, funds.to_vec())
}

fn coins(amount: u128, denom: &str) -> Vec<Coin> {
    vec![Coin::new(amount, denom)]
}

fn test_instantiate(storage: &mut Storage) {
    instantiate_contract(
        storage,
        &mock_env(),
        &mock_info(DEFAULT_ADMIN, &[]),
        &default_instantiate_msg(),
    )
    .expect("expected default instantiation to succeed");
}

fn assert_attribute(response: &Response, key: &str, expected_value: &str) {
    let value = response
        .find_attribute(key)
        .unwrap_or_else(|| panic!("expected attributes to contain key [{key}]"));
    assert_eq!(
        expected_value, value,
        "expected the correct value for [{key}]",
    );
}

fn test_instantiate_with_msg(storage: &mut Storage, msg: InstantiateMsg) {
    instantiate_contract(storage, &mock_env(), &mock_info(DEFAULT_ADMIN, &[]), &msg)
        .expect("expected default instantiation to succeed");
}

#[test]
fn admin_update_deposit_required_attributes_provided_funds_should_cause_an_error() {
    let mut storage = Storage::new();
    let error = admin_update_deposit_required_attributes(
        &mut storage,
        &mock_env(),
        &mock_info(DEFAULT_ADMIN, &coins(400, "fourhundredcoins")),
        vec![],
    )
    .expect_err("an error should occur when funds are provided");
    assert!(
        matches!(&error, ContractError::InvalidFundsError { .. }),
        "unexpected error encountered: {error:?}",
    );
}

#[test]
fn admin_update_deposit_required_attributes_missing_contract_state_should_cause_an_error() {
    let mut storage = Storage::new();
    let error = admin_update_deposit_required_attributes(&mut storage, &mock_env(), &mock_info(DEFAULT_ADMIN, &[]), vec![])
        .expect_err("an error should occur when the contract state is missing");
    assert!(
        matches!(&error, ContractError::StorageError { .. }),
        "unexpected error encountered: {error:?}",
    );
}

#[test]
fn admin_update_deposit_required_attributes_successful_input_should_derive_a_response() {
    let mut storage = Storage::new();
    test_instantiate_with_msg(
        &mut storage,
        InstantiateMsg {
            required_deposit_attributes: vec!["prevA".to_string(), "prevB".to_string()],
            ..default_instantiate_msg()
        },
    );
    let response = admin_update_deposit_required_attributes(
        &mut storage,
        &mock_env(),
        &mock_info(DEFAULT_ADMIN, &[]),
        vec!["new".to_string()],
    )
    .expect("proper input on an instantiated contract should derive a successful response");
    assert!(
        response.messages.is_empty(),
        "no messages should be emitted in the response",
    );
    assert_eq!(
        6,
        response.attributes.len(),
        "six attributes should be emitted in the response",
    );
    assert_attribute(&response, "action", "admin_update_deposit_required_attributes");
    assert_attribute(&response, "contract_address", MOCK_CONTRACT_ADDR);
    assert_attribute(&response, "contract_type", CONTRACT_TYPE);
    assert_attribute(&response, "contract_name", DEFAULT_CONTRACT_NAME);
    assert_attribute(&response, "previous_attributes", "prevA,prevB");
    assert_attribute(&response, "new_attributes", "new");
}

#[test]
fn admin_update_deposit_required_attributes_replaces_the_list_whole_and_nothing_else() {
    let mut storage = Storage::new();
    test_instantiate_with_msg(
        &mut storage,
        InstantiateMsg {
            required_deposit_attributes: vec!["one".to_string(), "two".to_string()],
            ..default_instantiate_msg()
        },
    );
    let before = get_contract_state_v1(&storage).expect("the contract was instantiated");
    let new_list = vec!["two".to_string(), "two".to_string(), "three".to_string()];
    let response = admin_update_deposit_required_attributes(
        &mut storage,
        &mock_env(),
        &mock_info(DEFAULT_ADMIN, &[]),
        new_list.clone(),
    )
    .expect("the admin may replace the list");
    let keys: Vec<&str> = response
        .attributes
        .iter()
        .map(|attribute| attribute.key.as_str())
        .collect();
    assert_eq!(
        vec![
            "action",
            "contract_address",
            "contract_type",
            "contract_name",
            "previous_attributes",
            "new_attributes"
        ],
        keys,
    );
    assert_attribute(&response, "previous_attributes", "one,two");
    assert_attribute(&response, "new_attributes", "two,two,three");
    let after = get_contract_state_v1(&storage).expect("the contract was instantiated");
    assert_eq!(new_list, after.required_deposit_attributes, "the list is replaced, not merged");
    let mut expected = before;
    expected.required_deposit_attributes = new_list;
    assert_eq!(expected, after);
}

#[test]
fn admin_update_deposit_required_attributes_turns_other_senders_away_and_keeps_the_state() {
    let mut storage = Storage::new();
    test_instantiate(&mut storage);
    let before = storage.clone();
    for sender in ["", "not-admin", "Admin", MOCK_CONTRACT_ADDR] {
        let error = admin_update_deposit_required_attributes(
            &mut storage,
            &mock_env(),
            &mock_info(sender, &[]),
            vec!["new".to_string()],
        )
        .expect_err("only the admin may update attributes");
        match error {
            ContractError::NotAuthorizedError { message } => {
                assert_eq!("only the contract admin may update attributes", message)
            }
            error => panic!("unexpected error encountered: {error:?}"),
        }
        assert_eq!(before, storage, "a refused request must not change the state");
    }
}

#[test]
fn admin_update_deposit_required_attributes_judges_funds_before_the_sender() {
    let mut storage = Storage::new();
    test_instantiate(&mut storage);
    let before = storage.clone();
    for sender in [DEFAULT_ADMIN, "not-admin"] {
        let error = admin_update_deposit_required_attributes(
            &mut storage,
            &mock_env(),
            &mock_info(sender, &coins(1, "nhash")),
            vec![],
        )
        .expect_err("funds are never expected");
        match error {
            ContractError::InvalidFundsError { message } => {
                assert_eq!("funds provided but empty funds required", message)
            }
            error => panic!("unexpected error encountered: {error:?}"),
        }
        assert_eq!(before, storage, "a refused request must not change the state");
    }
}
