use vstd::prelude::*;

verus! {

/// The denomination of fees charged by the contract: one billionth of a hash.
pub const NHASH: &'static str = "nhash";

/// Key of the event type attribute.
pub const EVENT_TYPE_KEY: &'static str = "vo_event_type";

/// Key of the attribute that holds the scope address of validation results.
pub const RESULTS_SCOPE_ADDRESS_KEY: &'static str = "vo_results_scope_address";

/// Key of the asset type attribute.
pub const ASSET_TYPE_KEY: &'static str = "vo_asset_type";

/// Key of the validation type attribute.
pub const VALIDATION_TYPE_KEY: &'static str = "vo_validation_type";

/// Key of the attribute that holds the address of a validator.
pub const VALIDATOR_ADDRESS_KEY: &'static str = "vo_validator_address";

/// Key of the attribute that holds the id of a validation request.
pub const VALIDATION_REQUEST_ID_KEY: &'static str = "vo_validation_request_id";

/// Key of the attribute that holds the status of a validation request.
pub const VALIDATION_STATUS_KEY: &'static str = "vo_validation_request_status";

/// Key of the attribute that holds any new value being set.
pub const NEW_VALUE_KEY: &'static str = "vo_new_value";

/// Key of the attribute that holds the rendering of the fields changed by an update.
pub const ADDITIONAL_METADATA_KEY: &'static str = "vo_additional_metadata";

/// Key of the attribute that holds the contract's settings.
pub const CONTRACT_INFO_KEY: &'static str = "vo_contract_info";

/// Key of the attribute that holds the addresses of one or more entities.
pub const ENTITY_ADDRESSES_KEY: &'static str = "vo_entity_addresses";

} // verus!
