use crate::types::denom::{Denom, DenomView};
use crate::types::error::{fails_with, ContractError, ContractErrorView};
use crate::util::text_utils::{clone_texts, texts};
use vstd::prelude::*;

verus! {

/// The crate name, used to ensure that newly-migrated instances match the same contract format.
pub const CONTRACT_TYPE: &'static str = "funding_trading_bridge_smart_contract";

/// The crate version, used to ensure that newly-migrated instances do not attempt to use an
/// identical or older version.
pub const CONTRACT_VERSION: &'static str = "1.0.0";

/// Stores the core contract configurations created on instantiation and modified on migration.
#[derive(Clone, Debug, PartialEq, Eq)]
pub struct ContractStateV1 {
    /// The bech32 address of the account that has admin rights within this contract.
    pub admin: String,
    /// A free-form name defining this particular contract instance.  Used for identification on
    /// query purposes only.
    pub contract_name: String,
    /// The crate name, used to ensure that newly-migrated instances match the same contract format.
    pub contract_type: String,
    /// The crate version, used to ensure that newly-migrated instances do not attempt to use an
    /// identical or older version.
    pub contract_version: String,
    /// Defines the marker denom that is deposited to this contract in exchange for the trading
    /// marker denom.
    pub deposit_marker: Denom,
    /// Defines the marker denom that is sent to accounts from this contract in exchange for the
    /// deposit marker denom.
    pub trading_marker: Denom,
    /// Defines any blockchain attributes required on accounts in order to fund trading.
    pub required_deposit_attributes: Vec<String>,
    /// Defines any blockchain attributes required on accounts in order to withdraw trading.
    pub required_withdraw_attributes: Vec<String>,
}

/// What a [ContractStateV1] is in contracts: each text as its characters, each list in order.
pub struct ContractStateV1View {
    pub admin: Seq<char>,
    pub contract_name: Seq<char>,
    pub contract_type: Seq<char>,
    pub contract_version: Seq<char>,
    pub deposit_marker: DenomView,
    pub trading_marker: DenomView,
    pub required_deposit_attributes: Seq<Seq<char>>,
    pub required_withdraw_attributes: Seq<Seq<char>>,
}

impl View for ContractStateV1 {
    type V = ContractStateV1View;

    open spec fn view(&self) -> ContractStateV1View {
        ContractStateV1View {
            admin: self.admin@,
            contract_name: self.contract_name@,
            contract_type: self.contract_type@,
            contract_version: self.contract_version@,
            deposit_marker: self.deposit_marker@,
            trading_marker: self.trading_marker@,
            required_deposit_attributes: texts(self.required_deposit_attributes@),
            required_withdraw_attributes: texts(self.required_withdraw_attributes@),
        }
    }
}

impl ContractStateV1 {
    /// Constructs a new instance of this struct, of this crate's type and version.
    ///
    /// # Parameters
    /// * `admin` The bech32 address of the account that has admin rights within this contract.
    /// * `contract_name` A free-form name defining this particular contract instance.  Used for
    /// identification on query purposes only.
    /// * `deposit_marker` Defines the marker denom that is deposited to this contract in exchange
    /// for the trading marker denom.
    /// * `trading_marker` Defines the marker denom that is sent to accounts from this contract in
    /// exchange for the deposit marker denom.
    /// * `required_deposit_attributes` Defines any blockchain attributes required on accounts in
    /// order to fund trading.
    /// * `required_withdraw_attributes` Defines any blockchain attributes required on accounts in
    /// order to withdraw trading.
    pub fn new(
        admin: &str,
        contract_name: &str,
        deposit_marker: &Denom,
        trading_marker: &Denom,
        required_deposit_attributes: &[String],
        required_withdraw_attributes: &[String],
    ) -> (state: Self)
        ensures
            state@ == (ContractStateV1View {
                admin: admin@,
                contract_name: contract_name@,
                contract_type: CONTRACT_TYPE@,
                contract_version: CONTRACT_VERSION@,
                deposit_marker: deposit_marker@,
                trading_marker: trading_marker@,
                required_deposit_attributes: texts(required_deposit_attributes@),
                required_withdraw_attributes: texts(required_withdraw_attributes@),
            }),
    {
        Self {
            admin: String::from_str(admin),
            contract_name: String::from_str(contract_name),
            contract_type: String::from_str(CONTRACT_TYPE),
            contract_version: String::from_str(CONTRACT_VERSION),
            deposit_marker: deposit_marker.duplicate(),
            trading_marker: trading_marker.duplicate(),
            required_deposit_attributes: clone_texts(required_deposit_attributes),
            required_withdraw_attributes: clone_texts(required_withdraw_attributes),
        }
    }

    /// A copy of this record, field for field.
    pub fn duplicate(&self) -> (state: Self)
        ensures
            state@ == self@,
    {
        Self {
            admin: self.admin.clone(),
            contract_name: self.contract_name.clone(),
            contract_type: self.contract_type.clone(),
            contract_version: self.contract_version.clone(),
            deposit_marker: self.deposit_marker.duplicate(),
            trading_marker: self.trading_marker.duplicate(),
            required_deposit_attributes: clone_texts(self.required_deposit_attributes.as_slice()),
            required_withdraw_attributes: clone_texts(self.required_withdraw_attributes.as_slice()),
        }
    }
}

/// The store of one contract instance. It keeps at most one configuration record: none
/// before the contract is instantiated, and exactly one from then on.
#[derive(Clone, Debug, PartialEq, Eq)]
pub struct Storage {
    /// The stored record, where one has been written.
    pub contract_state: Option<ContractStateV1>,
}

impl View for Storage {
    type V = Option<ContractStateV1View>;

    open spec fn view(&self) -> Option<ContractStateV1View> {
        match self.contract_state {
            Some(state) => Some(state@),
            None => None,
        }
    }
}

impl Storage {
    /// A store into which nothing has been written.
    pub fn new() -> (storage: Self)
        ensures
            storage@ is None,
    {
        Self { contract_state: None }
    }
}

/// The message of the error for a store that holds no record.
pub open spec fn missing_state_message() -> Seq<char> {
    "contract state has not been stored"@
}

/// The error for a store that holds no record.
pub open spec fn missing_state_fault() -> ContractErrorView {
    ContractErrorView::StorageError { message: missing_state_message() }
}

/// Overwrites the existing singleton contract storage instance of [ContractStateV1] with the
/// input reference.
///
/// # Parameters
///
/// * `storage` A mutable instance of the contract storage value, allowing internal store
/// manipulation.
/// * `contract_state` The new value for which an internal storage write will be done.
pub fn set_contract_state_v1(storage: &mut Storage, contract_state: &ContractStateV1) -> (result:
    Result<(), ContractError>)
    ensures
        result is Ok,
        final(storage)@ == Some(contract_state@),
{
    storage.contract_state = Some(contract_state.duplicate());
    Ok(())
}

/// Fetches the current contract instance of contract state.  This call should never fail because
/// the state is set on contract instantiation, but an error will be returned if the store holds
/// nothing.
///
/// # Parameters
///
/// * `storage` An immutable instance of the contract storage value, allowing internal store data
/// fetches.
pub fn get_contract_state_v1(storage: &Storage) -> (result: Result<ContractStateV1, ContractError>)
    ensures
        match storage@ {
            Some(stored) => result matches Ok(state) && state@ == stored,
            None => fails_with(result, missing_state_fault()),
        },
{
    match &storage.contract_state {
        Some(state) => Ok(state.duplicate()),
        None => Err(
            ContractError::StorageError {
                message: String::from_str("contract state has not been stored"),
            },
        ),
    }
}

} // verus!
