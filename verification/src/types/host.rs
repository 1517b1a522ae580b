use vstd::prelude::*;

verus! {

/// An amount of one denom, as the host attaches it to a call.
#[derive(Clone, Debug, PartialEq, Eq)]
pub struct Coin {
    /// The denom in which the amount is counted.
    pub denom: String,
    /// The amount, in the smallest unit of the denom.
    pub amount: u128,
}

/// Who invoked the contract, and the funds sent along with the call.
#[derive(Clone, Debug, PartialEq, Eq)]
pub struct MessageInfo {
    /// The bech32 address of the account that signed the call.
    pub sender: String,
    /// The coins attached to the call. Every route of this contract expects none.
    pub funds: Vec<Coin>,
}

/// What an operation needs to know of the contract instance that runs it.
#[derive(Clone, Debug, PartialEq, Eq)]
pub struct Env {
    /// The bech32 address of this contract instance.
    pub contract_address: String,
}

impl Coin {
    /// Constructs a new instance of this struct.
    ///
    /// # Parameters
    /// * `amount` The amount, in the smallest unit of the denom.
    /// * `denom` The denom in which the amount is counted.
    pub fn new(amount: u128, denom: &str) -> (coin: Self)
        ensures
            coin.denom@ == denom@,
            coin.amount == amount,
    {
        Self { denom: String::from_str(denom), amount }
    }
}

impl MessageInfo {
    /// Constructs a new instance of this struct.
    ///
    /// # Parameters
    /// * `sender` The bech32 address of the account that signed the call.
    /// * `funds` The coins attached to the call.
    pub fn new(sender: &str, funds: Vec<Coin>) -> (info: Self)
        ensures
            info.sender@ == sender@,
            info.funds == funds,
    {
        Self { sender: String::from_str(sender), funds }
    }
}

impl Env {
    /// Constructs a new instance of this struct.
    ///
    /// # Parameters
    /// * `contract_address` The bech32 address of this contract instance.
    pub fn new(contract_address: &str) -> (env: Self)
        ensures
            env.contract_address@ == contract_address@,
    {
        Self { contract_address: String::from_str(contract_address) }
    }
}

} // verus!
