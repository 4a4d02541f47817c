use cosmwasm_std::Response;
use validation_oracle_smart_contract::util::constants::{
    ASSET_TYPE_KEY, EVENT_TYPE_KEY, NEW_VALUE_KEY, RESULTS_SCOPE_ADDRESS_KEY, VALIDATION_TYPE_KEY,
    VALIDATOR_ADDRESS_KEY,
};
use validation_oracle_smart_contract::util::event_attributes::{
    EventAdditionalMetadata, EventAttributes, EventType,
};

fn single_attribute_for_key<'a, T>(response: &'a Response<T>, key: &'a str) -> &'a str {
    response
        .attributes
        .iter()
        .find(|attr| attr.key.as_str() == key)
        .unwrap_or_else(|| panic!("expected to find an attribute with key [{}]", key))
        .value
        .as_str()
}

#[test]
fn test_response_consumption() {
    let attributes = EventAttributes::new(EventType::AddValidationDefinition)
        .set_asset_type("asset type")
        .set_validation_type("validation type")
        .set_results_scope_address("results scope address")
        .set_validator("validator address")
        .set_new_value("new value");
    let response: Response<String> = Response::new().add_attributes(attributes.into_pairs());
    assert_eq!(
        "add_validation_definition",
        single_attribute_for_key(&response, EVENT_TYPE_KEY),
        "the event type attribute should be added correctly",
    );
    assert_eq!(
        "asset type",
        single_attribute_for_key(&response, ASSET_TYPE_KEY),
        "the asset type attribute should be added correctly",
    );
    assert_eq!(
        "validation type",
        single_attribute_for_key(&response, VALIDATION_TYPE_KEY),
        "the validation type attribute should be added correctly",
    );
    assert_eq!(
        "results scope address",
        single_attribute_for_key(&response, RESULTS_SCOPE_ADDRESS_KEY),
        "the results scope address attribute should be added correctly",
    );
    assert_eq!(
        "validator address",
        single_attribute_for_key(&response, VALIDATOR_ADDRESS_KEY),
        "the validator address attribute should be added correctly",
    );
    assert_eq!(
        "new value",
        single_attribute_for_key(&response, NEW_VALUE_KEY),
        "the new value attribute should be added correctly",
    );
}

#[test]
fn test_additional_metadata_string_output() {
    let mut metadata = EventAdditionalMetadata::new();
    assert_eq!(
        "",
        metadata.get_meta_string(),
        "expected no output to be derived when no metadata has been added",
    );
    metadata.add_metadata("b", "b_value");
    assert_eq!(
        "[b=b_value]",
        metadata.get_meta_string(),
        "expected the key/value addition to display properly",
    );
    metadata.add_metadata("a", "a_value");
    assert_eq!(
        "[a=a_value], [b=b_value]",
        metadata.get_meta_string(),
        "expected the second key/value addition to also display alongside the first, alphabetically sorted",
    );
    metadata.add_metadata("c", "c_value");
    assert_eq!(
        "[a=a_value], [b=b_value], [c=c_value]",
        metadata.get_meta_string(),
        "expected the third key/value addition to also display alongside the first two, alphabetically sorted",
    );
}

#[test]
fn metadata_replaces_value_of_existing_key() {
    let mut metadata = EventAdditionalMetadata::new();
    assert!(!metadata.has_metadata());
    metadata.add_metadata("k", "one");
    metadata.add_metadata("k", "two");
    assert!(metadata.has_metadata());
    assert_eq!("[k=two]", metadata.get_meta_string());
}

#[test]
fn metadata_sorts_by_rendered_text() {
    let mut metadata = EventAdditionalMetadata::new();
    metadata.add_metadata("a", "1");
    metadata.add_metadata("a-b", "2");
    // '-' sorts before '=' so "[a-b=2]" comes first, as a sort of the rendered texts gives.
    assert_eq!("[a-b=2], [a=1]", metadata.get_meta_string());
}

#[test]
fn attributes_keep_insertion_order_and_skip_empty_metadata() {
    let empty = EventAdditionalMetadata::new();
    let mut changed = EventAdditionalMetadata::new();
    changed.add_metadata("x", "y");
    let pairs = EventAttributes::new(EventType::UpdateEntity)
        .set_additional_metadata(&empty)
        .set_additional_metadata(&changed)
        .set_entity_addresses(&vec!["a1".to_string(), "a2".to_string()])
        .into_pairs();
    assert_eq!(
        vec![
            ("vo_event_type".to_string(), "update_entity".to_string()),
            ("vo_additional_metadata".to_string(), "[x=y]".to_string()),
            ("vo_entity_addresses".to_string(), "a1, a2".to_string()),
        ],
        pairs
    );
}

#[test]
fn event_names() {
    assert_eq!("create_validation_request", EventType::AddValidationRequest.event_name());
    assert_eq!("migrate_contract", EventType::MigrateContract.event_name());
    assert_eq!("update_settings", EventType::UpdateSettings.event_name());
}
