use vstd::prelude::*;

use crate::types::validation_cost::ValidationCost;

verus! {

/// The storage key of a validator's configuration for a validation type:
/// `validator-validation_type`.
pub open spec fn configuration_key(validator: Seq<char>, validation_type: Seq<char>) -> Seq<char> {
    validator + seq!['-'] + validation_type
}

/// Builds the storage key of a validator's configuration for a validation type.
pub fn make_configuration_key(validator: &str, validation_type: &str) -> (r: String)
    ensures
        r@ == configuration_key(validator@, validation_type@),
{
    proof {
        reveal_strlit("-");
    }
    let mut r = String::from_str(validator);
    r.append("-");
    r.append(validation_type);
    r
}

/// What a validator charges for one validation type.
#[derive(Clone, Debug, PartialEq, Eq)]
pub struct ValidatorConfiguration {
    pub validation_costs: Vec<ValidationCost>,
    pub validation_type: String,
    pub validator: String,
}

impl ValidatorConfiguration {
    /// The storage key of the configuration.
    pub open spec fn key_of(&self) -> Seq<char> {
        configuration_key(self.validator@, self.validation_type@)
    }

    pub fn get_validation_type(&self) -> (r: &str)
        ensures
            r@ == self.validation_type@,
    {
        self.validation_type.as_str()
    }

    pub fn get_validation_costs(&self) -> (r: &[ValidationCost])
        ensures
            r@ == self.validation_costs@,
    {
        self.validation_costs.as_slice()
    }

    /// The key under which the configuration is stored.
    pub fn storage_key(&self) -> (r: String)
        ensures
            r@ == self.key_of(),
    {
        make_configuration_key(self.validator.as_str(), self.validation_type.as_str())
    }
}

} // verus!
