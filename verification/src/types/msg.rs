use crate::types::denom::Denom;
use crate::types::error::ContractError;
use crate::util::self_validating::SelfValidating;
use crate::util::text_utils::texts;
use crate::util::validation_utils::{valid_attribute_name, validate_attribute_name};
use vstd::prelude::*;

verus! {

/// The msg that is sent to the chain in order to instantiate a new instance of this contract's
/// stored code.
#[derive(Clone, Debug, PartialEq, Eq)]
pub struct InstantiateMsg {
    /// A free-form name defining this particular contract instance.  Used for identification on
    /// query purposes only.
    pub contract_name: String,
    /// Defines the marker denom that is deposited to this contract in exchange for the trading
    /// marker denom.
    pub deposit_marker: Denom,
    /// Defines the marker denom that is sent to accounts from this contract in exchange for the
    /// deposit marker denom.
    pub trading_marker: Denom,
    /// Defines any blockchain attributes required on accounts in order to fund trading.
    pub required_deposit_attributes: Vec<String>,
    /// Defines any blockchain attributes required on accounts in order to withdraw trading.
    pub required_withdraw_attributes: Vec<String>,
    /// If provided, this value must be a valid provenance name module name that can be bound to an
    /// unrestricted parent name.  This will cause the contract to bind the provided name to itself.
    pub name_to_bind: Option<String>,
}

/// Whether every name of a list is a valid attribute name.
pub open spec fn all_valid_attribute_names(names: Seq<Seq<char>>) -> bool {
    forall|k: int| 0 <= k < names.len() ==> valid_attribute_name(#[trigger] names[k])
}

/// Tells whether every name of a list is a valid attribute name.
fn all_attribute_names_are_valid(names: &Vec<String>) -> (valid: bool)
    ensures
        valid == all_valid_attribute_names(texts(names@)),
{
    let mut index: usize = 0;
    while index < names.len()
        invariant
            index <= names@.len(),
            forall|k: int| 0 <= k < index ==> valid_attribute_name(#[trigger] texts(names@)[k]),
        decreases names@.len() - index,
    {
        match validate_attribute_name(names[index].as_str()) {
            Ok(_) => {},
            Err(_) => {
                assert(!valid_attribute_name(texts(names@)[index as int]));
                return false;
            },
        }
        index = index + 1;
    }
    true
}

fn validation_error(message: &str) -> (error: ContractError)
    ensures
        error matches ContractError::ValidationError { message: text } && text@ == message@,
{
    ContractError::ValidationError { message: String::from_str(message) }
}

impl SelfValidating for InstantiateMsg {
    /// The contract name must not be empty, both markers must have a name, every required
    /// attribute must be a valid attribute name, and a name to bind must not be empty.
    open spec fn complaint(&self) -> Option<Seq<char>> {
        if self.contract_name@.len() == 0 {
            Some("contract name cannot be empty"@)
        } else if !self.deposit_marker.well_formed() {
            Some("deposit marker: ValidationError { message: \"name cannot be empty\" }"@)
        } else if !self.trading_marker.well_formed() {
            Some("trading marker: ValidationError { message: \"name cannot be empty\" }"@)
        } else if !all_valid_attribute_names(texts(self.required_deposit_attributes@)) {
            Some("all required deposit attributes must be valid"@)
        } else if !all_valid_attribute_names(texts(self.required_withdraw_attributes@)) {
            Some("all required withdraw attributes must be valid"@)
        } else if self.name_to_bind matches Some(name) && name@.len() == 0 {
            Some("contract name cannot be specified as empty string"@)
        } else {
            None
        }
    }

    fn self_validate(&self) -> (result: Result<(), ContractError>) {
        if self.contract_name.as_str().is_empty() {
            return Err(validation_error("contract name cannot be empty"));
        }
        if self.deposit_marker.self_validate().is_err() {
            return Err(
                validation_error(
                    "deposit marker: ValidationError { message: \"name cannot be empty\" }",
                ),
            );
        }
        if self.trading_marker.self_validate().is_err() {
            return Err(
                validation_error(
                    "trading marker: ValidationError { message: \"name cannot be empty\" }",
                ),
            );
        }
        if !all_attribute_names_are_valid(&self.required_deposit_attributes) {
            return Err(validation_error("all required deposit attributes must be valid"));
        }
        if !all_attribute_names_are_valid(&self.required_withdraw_attributes) {
            return Err(validation_error("all required withdraw attributes must be valid"));
        }
        if let Some(name) = &self.name_to_bind {
            if name.as_str().is_empty() {
                return Err(validation_error("contract name cannot be specified as empty string"));
            }
        }
        Ok(())
    }
}

/// All defined payloads to be used when executing routes on this contract instance.
#[derive(Clone, Debug, PartialEq, Eq)]
pub enum ExecuteMsg {
    /// A route that swaps the current value in the contract state for the admin to the provided
    /// value.
    AdminUpdateAdmin {
        /// A bech32 address to use as the new administrator of the contract.
        new_admin_address: String,
    },
    /// A route that sets a new collection of attribute names required when an account deposits
    /// their deposit denom into the contract to fund trading.
    AdminUpdateDepositRequiredAttributes {
        /// The new attributes that will be set in the contract state's required deposit attributes
        /// upon successful execution.
        attributes: Vec<String>,
    },
    /// A route that sets a new collection of attribute names required when an account withdraws
    /// their deposit denom from the contract.
    AdminUpdateWithdrawRequiredAttributes {
        /// The new attributes that will be set in the contract state's required withdraw
        /// attributes upon successful execution.
        attributes: Vec<String>,
    },
    /// A route that will attempt to pull the trade amount of the deposit marker's denom from the
    /// sender's account with a marker transfer, discern how much of the trading denom to which the
    /// submitted amount is equivalent, and then mint and withdraw the equivalent amount into the
    /// sender's account.
    FundTrading {
        /// The amount of the deposit marker to pull from the sender's account in exchange for
        /// trading denom.
        trade_amount: u128,
    },
    /// A route that will attempt to pull the trade amount of the trading marker's denom from the
    /// sender's account with a marker transfer, discern how much of the deposit denom to which the
    /// submitted amount is equivalent, transfer that amount to the sender, and then burn the
    /// exchanged trading marker denom.
    WithdrawTrading {
        /// The amount of the trading marker to pull from the sender's account in exchange for
        /// deposit denom.
        trade_amount: u128,
    },
}

impl SelfValidating for ExecuteMsg {
    /// A new admin address must not be empty, every attribute of a new list must be a valid
    /// attribute name, and a trade amount must not be zero.
    open spec fn complaint(&self) -> Option<Seq<char>> {
        match self {
            ExecuteMsg::AdminUpdateAdmin { new_admin_address } => if new_admin_address@.len() == 0 {
                Some("new_admin_address param must be supplied"@)
            } else {
                None
            },
            ExecuteMsg::AdminUpdateDepositRequiredAttributes { attributes } => {
                if !all_valid_attribute_names(texts(attributes@)) {
                    Some("all specified attributes must be valid"@)
                } else {
                    None
                }
            },
            ExecuteMsg::AdminUpdateWithdrawRequiredAttributes { attributes } => {
                if !all_valid_attribute_names(texts(attributes@)) {
                    Some("all specified attributes must be valid"@)
                } else {
                    None
                }
            },
            ExecuteMsg::FundTrading { trade_amount } => if *trade_amount == 0 {
                Some("trade amount must be greater than zero"@)
            } else {
                None
            },
            ExecuteMsg::WithdrawTrading { trade_amount } => if *trade_amount == 0 {
                Some("trade amount must be greater than zero"@)
            } else {
                None
            },
        }
    }

    fn self_validate(&self) -> (result: Result<(), ContractError>) {
        match self {
            ExecuteMsg::AdminUpdateAdmin { new_admin_address } => {
                if new_admin_address.as_str().is_empty() {
                    return Err(validation_error("new_admin_address param must be supplied"));
                }
            },
            ExecuteMsg::AdminUpdateDepositRequiredAttributes { attributes } => {
                if !all_attribute_names_are_valid(attributes) {
                    return Err(validation_error("all specified attributes must be valid"));
                }
            },
            ExecuteMsg::AdminUpdateWithdrawRequiredAttributes { attributes } => {
                if !all_attribute_names_are_valid(attributes) {
                    return Err(validation_error("all specified attributes must be valid"));
                }
            },
            ExecuteMsg::FundTrading { trade_amount } => {
                if *trade_amount == 0 {
                    return Err(validation_error("trade amount must be greater than zero"));
                }
            },
            ExecuteMsg::WithdrawTrading { trade_amount } => {
                if *trade_amount == 0 {
                    return Err(validation_error("trade amount must be greater than zero"));
                }
            },
        }
        Ok(())
    }
}

/// All defined payloads to be used when querying routes on this contract instance.
#[derive(Clone, Debug, PartialEq, Eq)]
pub enum QueryMsg {
    /// A route that returns the current contract state value stored in state.
    QueryContractState {},
}

impl SelfValidating for QueryMsg {
    /// Nothing can be wrong with a query.
    open spec fn complaint(&self) -> Option<Seq<char>> {
        None
    }

    fn self_validate(&self) -> (result: Result<(), ContractError>) {
        match self {
            QueryMsg::QueryContractState {} => Ok(()),
        }
    }
}

/// All defined payloads to be used when migrating to a new instance of this contract.
#[derive(Clone, Debug, PartialEq, Eq)]
pub enum MigrateMsg {
    /// The standard migration route that modifies the contract state to include the new values
    /// defined in a target code instance.
    ContractUpgrade {},
}

impl SelfValidating for MigrateMsg {
    /// Nothing can be wrong with a migration request.
    open spec fn complaint(&self) -> Option<Seq<char>> {
        None
    }

    fn self_validate(&self) -> (result: Result<(), ContractError>) {
        match self {
            MigrateMsg::ContractUpgrade {} => Ok(()),
        }
    }
}

} // verus!
