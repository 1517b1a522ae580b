use crate::types::error::ContractError;
use crate::util::self_validating::SelfValidating;
use vstd::prelude::*;

verus! {

/// Defines a blockchain denom associated with a marker in reference to the contract's usages.
#[derive(Clone, Debug, PartialEq, Eq)]
pub struct Denom {
    /// The name of the marker on-chain that manages this denom.
    pub name: String,
    /// The amount of decimal places represented in coin by this denom.
    pub precision: u64,
}

/// What a [Denom] is in contracts: its name as a sequence of characters, and its precision.
pub struct DenomView {
    pub name: Seq<char>,
    pub precision: u64,
}

impl View for Denom {
    type V = DenomView;

    open spec fn view(&self) -> DenomView {
        DenomView { name: self.name@, precision: self.precision }
    }
}

impl Denom {
    /// Whether the denom is in order: it has a name. A denom may be made without one; a
    /// message that carries such a denom does not validate.
    pub open spec fn well_formed(&self) -> bool {
        self.name@.len() > 0
    }

    /// Constructs a new instance of this struct.
    ///
    /// # Parameters
    /// * `name` The name of the marker on-chain that manages this denom.
    /// * `precision` The amount decimal places represented in coin by this denom.
    pub fn new(name: &str, precision: u64) -> (denom: Self)
        ensures
            denom@ == (DenomView { name: name@, precision }),
    {
        Self { name: String::from_str(name), precision }
    }

    /// A copy of this denom with the same name and precision.
    pub fn duplicate(&self) -> (denom: Self)
        ensures
            denom@ == self@,
    {
        Self { name: self.name.clone(), precision: self.precision }
    }
}

impl SelfValidating for Denom {
    /// A denom must have a name.
    open spec fn complaint(&self) -> Option<Seq<char>> {
        if self.well_formed() {
            None
        } else {
            Some("name cannot be empty"@)
        }
    }

    fn self_validate(&self) -> (result: Result<(), ContractError>) {
        if self.name.as_str().is_empty() {
            return Err(
                ContractError::ValidationError {
                    message: String::from_str("name cannot be empty"),
                },
            );
        }
        Ok(())
    }
}

/// Defines a conversion between one denom and another.
#[derive(Clone, Copy, Debug, PartialEq, Eq, Structural)]
pub struct DenomConversion {
    /// The amount of the first denom used in the conversion.
    pub source_amount: u128,
    /// The amount of the second denom to which the first denom is equivalent after conversion.
    pub target_amount: u128,
    /// Any amount of the source amount that cannot be converted to the second denom due to
    /// values that do not fit into the second denom's precision.
    pub remainder: u128,
}

} // verus!
