use validation_oracle_smart_contract::types::contract_info::ContractInfo;
use validation_oracle_smart_contract::types::entity::EntityDetail;
use validation_oracle_smart_contract::types::request::validation_request::ValidationRequestStatus;
use validation_oracle_smart_contract::types::validation_definition::ValidationDefinition;
use validation_oracle_smart_contract::types::validator_configuration::ValidatorConfiguration;
use validation_oracle_smart_contract::util::functions::generate_validation_definition_attribute_name;
use validation_oracle_smart_contract::util::helpers::{get_contract_state_update, get_entity_update};
use validation_oracle_smart_contract::util::text::{compare_text, decimal_string, join_strings};

#[test]
fn decimal_rendering() {
    assert_eq!("0", decimal_string(0));
    assert_eq!("1234567890", decimal_string(1234567890));
    assert_eq!(u128::MAX.to_string(), decimal_string(u128::MAX));
}

#[test]
fn lexicographic_comparison() {
    assert_eq!(0, compare_text("abc", "abc"));
    assert!(compare_text("ab", "abc") < 0);
    assert!(compare_text("b", "abc") > 0);
    assert!(compare_text("", "a") < 0);
}

#[test]
fn joining() {
    assert_eq!("", join_strings(&vec![], ", "));
    assert_eq!("a, b", join_strings(&vec!["a".to_string(), "b".to_string()], ", "));
}

#[test]
fn attribute_name_and_keys() {
    assert_eq!("kyc.root.pb", generate_validation_definition_attribute_name("kyc", "root.pb"));
    let definition = ValidationDefinition {
        validation_type: "KyC".to_string(),
        display_name: None,
        enabled: true,
    };
    assert_eq!("kyc", definition.storage_key());
    let configuration = ValidatorConfiguration {
        validation_costs: vec![],
        validation_type: "audit".to_string(),
        validator: "V".to_string(),
    };
    assert_eq!("V-audit", configuration.storage_key());
}

#[test]
fn status_text() {
    assert_eq!("requested", ValidationRequestStatus::Requested.to_string());
    assert_eq!("pending", ValidationRequestStatus::Pending.to_string());
    assert_eq!("fulfilled", ValidationRequestStatus::Fulfilled.to_string());
}

#[test]
fn entity_diff() {
    let before = EntityDetail {
        address: "a".to_string(),
        name: Some("n".to_string()),
        description: None,
        home_url: Some("h".to_string()),
        source_url: None,
    };
    let mut after = before.clone();
    assert!(!get_entity_update(&before, &after).has_metadata());
    after.name = None;
    after.description = Some("d".to_string());
    after.home_url = Some("h2".to_string());
    assert_eq!(
        "[new_description=d], [new_home_url=h2], [old_home_url=h], [old_name=n]",
        get_entity_update(&before, &after).get_meta_string()
    );
}

#[test]
fn settings_diff() {
    let before = ContractInfo::new("admin".to_string(), "root".to_string(), "name".to_string(), None);
    let after = ContractInfo::new("admin".to_string(), "root".to_string(), "name".to_string(), Some(5));
    assert_eq!(
        "[new_create_request_nhash_fee=5], [old_create_request_nhash_fee=0]",
        get_contract_state_update(&before, &after).get_meta_string()
    );
}
