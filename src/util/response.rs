use vstd::prelude::*;

use crate::types::contract_info::ContractInfo;
use crate::types::request::validation_request::ValidationRequestOrder;
use crate::types::validation_definition::ValidationDefinition;
use crate::util::event_attributes::EventAttributes;
use crate::util::fees::FeeCharge;

verus! {

/// A side effect that the host carries out for an operation.
#[derive(Clone, Debug, PartialEq, Eq)]
pub enum Directive {
    /// Bind `name` to `address`, restricted to it.
    BindName { name: String, address: String },
    /// Charge a fee.
    ChargeFee(FeeCharge),
}

/// A record that an operation hands back to its caller.
#[derive(Clone, Debug, PartialEq, Eq)]
pub enum ResponseData {
    /// The validation request created.
    Request(ValidationRequestOrder),
    /// The validation definition created or deleted.
    Definition(ValidationDefinition),
    /// The settings after a migration.
    Settings(ContractInfo),
}

/// What a successful operation hands back: the event attributes to publish, the side effects to
/// carry out, and the record it created, deleted or changed, where it hands one back.
pub struct Response {
    pub attributes: EventAttributes,
    pub directives: Vec<Directive>,
    pub data: Option<ResponseData>,
}

} // verus!
