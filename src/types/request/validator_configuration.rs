use vstd::prelude::*;

use crate::types::validation_cost::ValidationCost;
use crate::types::validator_configuration::{
    configuration_key, make_configuration_key, ValidatorConfiguration,
};

verus! {

/// A request to create a validator's configuration for a validation type.
#[derive(Clone, Debug, PartialEq, Eq)]
pub struct ValidatorConfigurationCreationRequest {
    pub validation_costs: Vec<ValidationCost>,
    pub validation_type: String,
    pub validator: String,
}

impl ValidatorConfigurationCreationRequest {
    pub fn get_validation_type(&self) -> (r: &str)
        ensures
            r@ == self.validation_type@,
    {
        self.validation_type.as_str()
    }

    pub fn get_validation_costs(&self) -> (r: &[ValidationCost])
        ensures
            r@ == self.validation_costs@,
    {
        self.validation_costs.as_slice()
    }
}

impl From<ValidatorConfigurationCreationRequest> for ValidatorConfiguration {
    fn from(request: ValidatorConfigurationCreationRequest) -> (r: Self) {
        ValidatorConfiguration {
            validation_costs: request.validation_costs,
            validation_type: request.validation_type,
            validator: request.validator,
        }
    }
}

impl vstd::std_specs::convert::FromSpecImpl<ValidatorConfigurationCreationRequest> for ValidatorConfiguration {
    open spec fn obeys_from_spec() -> bool {
        true
    }

    open spec fn from_spec(request: ValidatorConfigurationCreationRequest) -> Self {
        ValidatorConfiguration {
            validation_costs: request.validation_costs,
            validation_type: request.validation_type,
            validator: request.validator,
        }
    }
}

/// A request to change a validator's configuration for a validation type.
#[derive(Clone, Debug, PartialEq, Eq)]
pub struct ValidatorConfigurationUpdateRequest {
    pub validator: String,
    pub validation_type: String,
    /// The new costs; absent means no change.
    pub validation_costs: Option<Vec<ValidationCost>>,
}

impl ValidatorConfigurationUpdateRequest {
    pub fn get_validation_type(&self) -> (r: &str)
        ensures
            r@ == self.validation_type@,
    {
        self.validation_type.as_str()
    }

    pub fn maybe_get_new_validation_costs(&self) -> (r: Option<&[ValidationCost]>)
        ensures
            r is Some == self.validation_costs is Some,
            r matches Some(v) ==> v@ == self.validation_costs->Some_0@,
    {
        match &self.validation_costs {
            Some(v) => Some(v.as_slice()),
            None => None,
        }
    }

    /// The key of the configuration that the request changes.
    pub fn storage_key(&self) -> (r: String)
        ensures
            r@ == configuration_key(self.validator@, self.validation_type@),
    {
        make_configuration_key(self.validator.as_str(), self.validation_type.as_str())
    }
}

} // verus!
