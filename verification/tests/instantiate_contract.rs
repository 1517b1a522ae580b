use cosmwasm_std::testing::MOCK_CONTRACT_ADDR;
use funding_trading_bridge_smart_contract::instantiate::instantiate_contract::instantiate_contract;
use funding_trading_bridge_smart_contract::store::contract_state::{
    get_contract_state_v1, ContractStateV1, Storage, CONTRACT_TYPE, CONTRACT_VERSION,
};
use funding_trading_bridge_smart_contract::types::denom::Denom;
use funding_trading_bridge_smart_contract::types::error::ContractError;
use funding_trading_bridge_smart_contract::types::host::{Coin, Env, MessageInfo};
use funding_trading_bridge_smart_contract::types::msg::InstantiateMsg;
use funding_trading_bridge_smart_contract::types::response::{
    AttributeExtractor, Instruction, Response,
};
use funding_trading_bridge_smart_contract::util::provenance_utils::msg_bind_name;

fn default_instantiate_msg() -> InstantiateMsg {
    InstantiateMsg {
        contract_name: "test-contract".to_string(),
        deposit_marker: Denom::new("denom.deposit", 2),
        trading_marker: Denom::new("denom.trading", 6),
        required_deposit_attributes: vec!["deposit.attribute.pb".to_string()],
        required_withdraw_attributes: vec!["withdraw.attribute.pb".to_string()],
        name_to_bind: Some("bridge.sc.pb".to_string()),
    }
}

fn mock_env() -> Env {
    Env::new(MOCK_CONTRACT_ADDR)
}

fn message_info(sender: &str, funds: &[Coin]) -> MessageInfo {
    MessageInfo::new(sender, funds.to_vec())
}

fn coins(amount: u128, denom: &str) -> Vec<Coin> {
    vec![Coin::new(amount, denom)]
}

fn assert_attribute(response: &Response, key: &str, expected_value: &str) {
    let value = response
        .find_attribute(key)
        .unwrap_or_else(|| panic!("expected attributes to contain key [{key}]"));
    assert_eq!(
        expected_value, value,
        "expected the correct value for [{key}]",
    );
}

#[test]
fn test_rejection_for_included_funds() {
    let mut storage = Storage::new();
    let error = instantiate_contract(
        &mut storage,
        &mock_env(),
        &message_info("test-sender", &coins(10, "nhash")),
        &default_instantiate_msg(),
    )
    .expect_err("an error should occur when providing funds");
    match error {
        ContractError::InvalidFundsError { message } => assert_eq!(
            "funds provided but empty funds required", message,
            "unexpected error emitted when no funds provided",
        ),
        error => panic!("unexpected error emitted when no funds provided: {error:?}"),
    }
    assert_eq!(Storage::new(), storage, "nothing is stored by a refused request");
}

#[test]
fn test_successful_instantiate_without_name_bind() {
    let mut storage = Storage::new();
    let instantiate_msg = InstantiateMsg {
        name_to_bind: None,
        ..default_instantiate_msg()
    };
    let response = instantiate_contract(
        &mut storage,
        &mock_env(),
        &message_info("test-sender", &[]),
        &instantiate_msg.clone(),
    )
    .expect("proper params should cause a successful instantiation");
    assert!(
        response.messages.is_empty(),
        "no messages should be emitted when a name isn't bound",
    );
    assert_eq!(
        4,
        response.attributes.len(),
        "expected four attributes to be emitted when no name is bound",
    );
    assert_attribute(&response, "action", "instantiate");
    assert_attribute(&response, "contract_name", &instantiate_msg.contract_name);
    assert_attribute(
        &response,
        "deposit_marker_name",
        &instantiate_msg.deposit_marker.name,
    );
    assert_attribute(
        &response,
        "trading_marker_name",
        &instantiate_msg.trading_marker.name,
    );
}

#[test]
fn test_successful_instantiate_with_name_bind() {
    let mut storage = Storage::new();
    let mut instantiate_msg = InstantiateMsg {
        name_to_bind: Some("name".to_string()),
        ..default_instantiate_msg()
    };
    instantiate_msg.name_to_bind = Some("name".to_string());
    let response = instantiate_contract(
        &mut storage,
        &mock_env(),
        &message_info("test-sender", &[]),
        &instantiate_msg.clone(),
    )
    .expect("proper params should cause a successful instantiation");
    assert_eq!(
        1,
        response.messages.len(),
        "expected a single message to be emitted when a name is bound",
    );
    let message = response.messages.first().unwrap();
    match message {
        Instruction::BindName(name_bind) => {
            let expected_name_bind = msg_bind_name("name", MOCK_CONTRACT_ADDR, true)
                .expect("failed to generate expected msg format");
            assert_eq!(
                &expected_name_bind, name_bind,
                "expected the correct name msg to be emitted",
            );
        }
        msg => panic!("unexpected msg format for bind name: {msg:?}"),
    }
    assert_eq!(
        5,
        response.attributes.len(),
        "expected five attributes to be emitted when a name is bound",
    );
    assert_attribute(&response, "action", "instantiate");
    assert_attribute(&response, "contract_name", &instantiate_msg.contract_name);
    assert_attribute(
        &response,
        "deposit_marker_name",
        &instantiate_msg.deposit_marker.name,
    );
    assert_attribute(
        &response,
        "trading_marker_name",
        &instantiate_msg.trading_marker.name,
    );
    assert_attribute(&response, "contract_bound_with_name", "name");
}

#[test]
fn instantiate_stores_the_configuration_with_the_sender_as_admin() {
    let mut storage = Storage::new();
    let msg = default_instantiate_msg();
    let response = instantiate_contract(
        &mut storage,
        &mock_env(),
        &message_info("test-sender", &[]),
        &msg,
    )
    .expect("proper params should cause a successful instantiation");
    assert!(response.data.is_none());
    let keys: Vec<&str> = response
        .attributes
        .iter()
        .map(|attribute| attribute.key.as_str())
        .collect();
    assert_eq!(
        vec![
            "action",
            "contract_name",
            "deposit_marker_name",
            "trading_marker_name",
            "contract_bound_with_name"
        ],
        keys,
    );
    assert_eq!(
        ContractStateV1 {
            admin: "test-sender".to_string(),
            contract_name: "test-contract".to_string(),
            contract_type: CONTRACT_TYPE.to_string(),
            contract_version: CONTRACT_VERSION.to_string(),
            deposit_marker: Denom::new("denom.deposit", 2),
            trading_marker: Denom::new("denom.trading", 6),
            required_deposit_attributes: vec!["deposit.attribute.pb".to_string()],
            required_withdraw_attributes: vec!["withdraw.attribute.pb".to_string()],
        },
        get_contract_state_v1(&storage).expect("the configuration was stored"),
    );
    match &response.messages[0] {
        Instruction::BindName(bind) => {
            let record = bind.record.as_ref().expect("the name is bound");
            assert_eq!("bridge", record.name);
            assert_eq!(MOCK_CONTRACT_ADDR, record.address);
            assert!(record.restricted);
            let parent = bind.parent.as_ref().expect("the name has a parent");
            assert_eq!("sc.pb", parent.name);
            assert_eq!(MOCK_CONTRACT_ADDR, parent.address);
            assert!(!parent.restricted);
        }
        msg => panic!("unexpected msg format for bind name: {msg:?}"),
    }
}

#[test]
fn instantiate_with_a_name_that_cannot_be_bound_stores_nothing() {
    let mut storage = Storage::new();
    let error = instantiate_contract(
        &mut storage,
        &mock_env(),
        &message_info("test-sender", &[]),
        &InstantiateMsg {
            name_to_bind: Some(".sc.pb".to_string()),
            ..default_instantiate_msg()
        },
    )
    .expect_err("a name that starts with a dot cannot be bound");
    match error {
        ContractError::InvalidFormatError { message } => {
            assert_eq!("cannot bind to an empty name string [.sc.pb]", message)
        }
        error => panic!("unexpected error: {error:?}"),
    }
    assert_eq!(Storage::new(), storage, "nothing is stored by a refused request");
}
