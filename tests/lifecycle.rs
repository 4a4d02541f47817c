use validation_oracle_smart_contract::contract::{execute, migrate, ExecuteMsg};
use validation_oracle_smart_contract::execute::entity::{create_new_entity, update_existing_entity};
use validation_oracle_smart_contract::execute::update_settings::update_settings;
use validation_oracle_smart_contract::execute::validation_definition::{
    create_new_validation_definition, delete_validation_definition,
    update_existing_validation_definition,
};
use validation_oracle_smart_contract::execute::validation_request::{
    create_request_for_validation, delete_request_for_validation, update_request_for_validation,
};
use validation_oracle_smart_contract::execute::validator_configuration::{
    create_new_validator_configuration, update_existing_validator_configuration,
};
use validation_oracle_smart_contract::instantiate::instantiate_contract;
use validation_oracle_smart_contract::migrate::migrate_contract;
use validation_oracle_smart_contract::storage::request::{
    get_request, get_requests_by_owner, get_requests_by_status, get_requests_by_validator,
    insert_request, may_get_request,
};
use validation_oracle_smart_contract::storage::state::{
    get_contract_info, set_contract_info, ContractStorage,
};
use validation_oracle_smart_contract::storage::validation_definition::may_get_validation_definition;
use validation_oracle_smart_contract::storage::validator_configuration::may_get_validator_configuration;
use validation_oracle_smart_contract::types::coin::Coin;
use validation_oracle_smart_contract::types::contract_info::ContractInfo;
use validation_oracle_smart_contract::types::entity::EntityDetail;
use validation_oracle_smart_contract::types::error::ContractError;
use validation_oracle_smart_contract::types::msg::{Env, InstantiateMsg, MessageInfo, MigrateMsg};
use validation_oracle_smart_contract::types::request::settings_update::SettingsUpdate;
use validation_oracle_smart_contract::types::request::validation_definition::{
    ValidationDefinitionCreationRequest, ValidationDefinitionUpdateRequest,
};
use validation_oracle_smart_contract::types::request::validation_request::{
    ValidationRequest, ValidationRequestOrder, ValidationRequestStatus, ValidationRequestUpdate,
};
use validation_oracle_smart_contract::types::request::validator_configuration::{
    ValidatorConfigurationCreationRequest, ValidatorConfigurationUpdateRequest,
};
use validation_oracle_smart_contract::types::validation_cost::ValidationCost;
use validation_oracle_smart_contract::util::fees::{
    generate_contract_fee_msg, get_custom_fee_amount_display,
};
use validation_oracle_smart_contract::util::response::{Directive, ResponseData};

fn env() -> Env {
    Env { contract_address: "contract".to_string() }
}

fn info(sender: &str) -> MessageInfo {
    MessageInfo { sender: sender.to_string(), funds: vec![] }
}

fn paying(sender: &str) -> MessageInfo {
    MessageInfo {
        sender: sender.to_string(),
        funds: vec![Coin { denom: "nhash".to_string(), amount: 1 }],
    }
}

fn instantiated(fee: u128) -> ContractStorage {
    let mut storage = ContractStorage::new();
    let msg = InstantiateMsg {
        bind_name: "root.pb".to_string(),
        contract_name: "oracle".to_string(),
        create_request_nhash_fee: fee,
    };
    instantiate_contract(&mut storage, &env(), &info("admin"), msg).expect("instantiation succeeds");
    storage
}

fn request(id: &str, scopes: &[&str]) -> ValidationRequest {
    ValidationRequest {
        id: id.to_string(),
        scopes: scopes.iter().map(|s| s.to_string()).collect(),
        allowed_validators: None,
        quote: vec![],
    }
}

fn no_change(id: &str) -> ValidationRequestUpdate {
    ValidationRequestUpdate {
        current_id: id.to_string(),
        new_id: None,
        new_scopes: None,
        new_allowed_validators: None,
        new_quote: None,
    }
}

type RequestComparator = fn(&ValidationRequestOrder, &ValidationRequestOrder) -> std::cmp::Ordering;

fn unsorted() -> Option<RequestComparator> {
    None
}

fn entity(address: &str) -> EntityDetail {
    EntityDetail {
        address: address.to_string(),
        name: None,
        description: None,
        home_url: None,
        source_url: None,
    }
}

#[test]
fn create_request_without_fee_stores_requested_order() {
    let mut storage = instantiated(0);
    let response = create_request_for_validation(&mut storage, &env(), &info("alice"), request("r1", &["s1"]))
        .expect("creation succeeds");
    assert!(response.directives.is_empty());
    let stored = may_get_request(&storage.requests, "r1").expect("request is stored");
    assert_eq!("alice", stored.owner);
    assert_eq!(ValidationRequestStatus::Requested, stored.status);
    assert_eq!(vec!["s1".to_string()], stored.scopes);
    assert!(stored.quote.is_empty());
    let again = create_request_for_validation(&mut storage, &env(), &info("alice"), request("r1", &["s1"]));
    assert!(matches!(again, Err(ContractError::RecordAlreadyExists { .. })));
}

#[test]
fn create_request_with_fee_charges_admin_once() {
    let mut storage = instantiated(100);
    let response = create_request_for_validation(&mut storage, &env(), &info("alice"), request("r1", &["s1"]))
        .expect("creation succeeds");
    assert_eq!(1, response.directives.len());
    match &response.directives[0] {
        Directive::ChargeFee(charge) => {
            assert_eq!(100, charge.amount.amount);
            assert_eq!("nhash", charge.amount.denom);
            assert_eq!("validation request creation nhash fee", charge.memo);
            assert_eq!("contract", charge.from);
            assert_eq!("admin", charge.recipient);
            assert_eq!("100nhash", get_custom_fee_amount_display(charge));
        }
        other => panic!("unexpected directive {:?}", other),
    }
    let pairs = response.attributes.into_pairs();
    assert!(pairs.contains(&("request_creation_fee_charged".to_string(), "100nhash".to_string())));
}

#[test]
fn create_request_errors() {
    let mut uninstantiated = ContractStorage::new();
    let r = create_request_for_validation(&mut uninstantiated, &env(), &info("alice"), request("r1", &["s1"]));
    assert!(matches!(r, Err(ContractError::StorageError { .. })));
    let mut storage = instantiated(0);
    let r = create_request_for_validation(&mut storage, &env(), &info("alice"), request("r1", &[]));
    assert!(matches!(r, Err(ContractError::InvalidRequest { .. })));
    let r = create_request_for_validation(&mut storage, &env(), &info("alice"), request("", &["s1"]));
    assert!(matches!(r, Err(ContractError::InvalidRequest { .. })));
    assert!(may_get_request(&storage.requests, "").is_none());
    assert!(may_get_request(&storage.requests, "r1").is_none());
}

#[test]
fn inserting_same_id_twice_fails() {
    let mut storage = instantiated(0);
    let order = |owner: &str| ValidationRequestOrder {
        id: "dup".to_string(),
        owner: owner.to_string(),
        scopes: vec!["s".to_string()],
        allowed_validators: None,
        quote: vec![],
        status: ValidationRequestStatus::Requested,
    };
    assert!(insert_request(&mut storage.requests, order("a")).is_ok());
    let second = insert_request(&mut storage.requests, order("b"));
    assert!(matches!(second, Err(ContractError::RecordAlreadyExists { .. })));
    assert_eq!("a", get_request(&storage.requests, "dup").unwrap().owner);
}

#[test]
fn update_of_missing_request_is_not_found() {
    let mut storage = instantiated(0);
    let mut update = no_change("nope");
    update.new_scopes = Some(vec!["s2".to_string()]);
    let r = update_request_for_validation(&mut storage, &env(), &info("alice"), update);
    assert!(matches!(r, Err(ContractError::RecordNotFound { .. })));
}

#[test]
fn rename_to_same_id_is_invalid_even_with_changes() {
    let mut storage = instantiated(0);
    create_request_for_validation(&mut storage, &env(), &info("alice"), request("r1", &["s1"])).unwrap();
    let mut update = no_change("r1");
    update.new_id = Some("r1".to_string());
    update.new_scopes = Some(vec!["s9".to_string()]);
    let r = update_request_for_validation(&mut storage, &env(), &info("alice"), update);
    assert!(matches!(r, Err(ContractError::InvalidRequest { .. })));
    assert_eq!(vec!["s1".to_string()], get_request(&storage.requests, "r1").unwrap().scopes);
}

#[test]
fn update_without_changes_is_invalid_and_with_changes_records_diff() {
    let mut storage = instantiated(0);
    create_request_for_validation(&mut storage, &env(), &info("alice"), request("r1", &["s1"])).unwrap();
    let r = update_request_for_validation(&mut storage, &env(), &info("alice"), no_change("r1"));
    assert!(matches!(r, Err(ContractError::InvalidRequest { .. })));
    let mut same = no_change("r1");
    same.new_scopes = Some(vec!["s1".to_string()]);
    let r = update_request_for_validation(&mut storage, &env(), &info("alice"), same);
    assert!(matches!(r, Err(ContractError::InvalidRequest { .. })));
    let mut update = no_change("r1");
    update.new_scopes = Some(vec!["s2".to_string(), "s3".to_string()]);
    let response = update_request_for_validation(&mut storage, &env(), &info("alice"), update)
        .expect("a real change succeeds");
    let pairs = response.attributes.into_pairs();
    assert_eq!(
        vec![
            ("vo_event_type".to_string(), "update_validation_request".to_string()),
            ("vo_validation_request_id".to_string(), "r1".to_string()),
            (
                "vo_additional_metadata".to_string(),
                "[new_scopes=s2, s3], [old_scopes=s1]".to_string()
            ),
        ],
        pairs
    );
    let stored = get_request(&storage.requests, "r1").unwrap();
    assert_eq!(vec!["s2".to_string(), "s3".to_string()], stored.scopes);
    assert_eq!("alice", stored.owner);
}

#[test]
fn update_quote_and_validators_records_each_field() {
    let mut storage = instantiated(0);
    create_request_for_validation(&mut storage, &env(), &info("alice"), request("r1", &["s1"])).unwrap();
    let mut update = no_change("r1");
    update.new_quote = Some(vec![Coin { denom: "nhash".to_string(), amount: 25 }]);
    update.new_allowed_validators = Some(vec!["v1".to_string()]);
    let response = update_request_for_validation(&mut storage, &env(), &info("alice"), update).unwrap();
    let pairs = response.attributes.into_pairs();
    assert_eq!(
        "[new_allowed_validators=v1], [new_quote=25nhash], [old_quote=]",
        pairs[2].1
    );
}

#[test]
fn rename_onto_existing_id_is_invalid_and_changes_nothing() {
    let mut storage = instantiated(0);
    create_request_for_validation(&mut storage, &env(), &info("alice"), request("r1", &["s1"])).unwrap();
    create_request_for_validation(&mut storage, &env(), &info("bob"), request("r2", &["s2"])).unwrap();
    let mut update = no_change("r1");
    update.new_id = Some("r2".to_string());
    let r = update_request_for_validation(&mut storage, &env(), &info("alice"), update);
    assert!(matches!(r, Err(ContractError::InvalidRequest { .. })));
    let r1 = get_request(&storage.requests, "r1").unwrap();
    assert_eq!("alice", r1.owner);
    assert_eq!(vec!["s1".to_string()], r1.scopes);
    assert_eq!("bob", get_request(&storage.requests, "r2").unwrap().owner);
}

#[test]
fn rename_moves_request() {
    let mut storage = instantiated(0);
    create_request_for_validation(&mut storage, &env(), &info("alice"), request("r1", &["s1"])).unwrap();
    let mut update = no_change("r1");
    update.new_id = Some("r3".to_string());
    update_request_for_validation(&mut storage, &env(), &info("alice"), update).expect("rename succeeds");
    assert!(may_get_request(&storage.requests, "r1").is_none());
    let moved = get_request(&storage.requests, "r3").unwrap();
    assert_eq!("r3", moved.id);
    assert_eq!(vec!["s1".to_string()], moved.scopes);
}

#[test]
fn delete_request() {
    let mut storage = instantiated(0);
    create_request_for_validation(&mut storage, &env(), &info("alice"), request("r1", &["s1"])).unwrap();
    assert!(delete_request_for_validation(&mut storage, &env(), &info("alice"), "r1").is_ok());
    let r = delete_request_for_validation(&mut storage, &env(), &info("alice"), "r1");
    assert!(matches!(r, Err(ContractError::RecordNotFound { .. })));
}

#[test]
fn requests_by_owner_status_and_validator_in_id_order() {
    let mut storage = instantiated(0);
    for (id, owner) in [("c", "alice"), ("a", "alice"), ("b", "bob")] {
        let mut r = request(id, &["s"]);
        if id != "b" {
            r.allowed_validators = Some(vec!["v1".to_string(), "v2".to_string()]);
        }
        create_request_for_validation(&mut storage, &env(), &info(owner), r).unwrap();
    }
    let ids = |v: Vec<&ValidationRequestOrder>| v.iter().map(|r| r.id.clone()).collect::<Vec<_>>();
    assert_eq!(vec!["a", "c"], ids(get_requests_by_owner(&storage.requests, "alice", unsorted())));
    assert_eq!(vec!["b"], ids(get_requests_by_owner(&storage.requests, "bob", unsorted())));
    assert_eq!(
        vec!["a", "b", "c"],
        ids(get_requests_by_status(&storage.requests, ValidationRequestStatus::Requested, unsorted()))
    );
    assert!(get_requests_by_status(&storage.requests, ValidationRequestStatus::Fulfilled, unsorted()).is_empty());
    assert_eq!(vec!["a", "c"], ids(get_requests_by_validator(&storage.requests, "v2", unsorted())));
    assert!(get_requests_by_validator(&storage.requests, "v3", unsorted()).is_empty());
}

#[test]
fn fee_directive_only_for_positive_fee() {
    let zero = instantiated(0);
    let none = generate_contract_fee_msg("x", &zero, "contract", |c: &ContractInfo| c.create_request_nhash_fee)
        .unwrap();
    assert!(none.is_none());
    let five = instantiated(5);
    let charge = generate_contract_fee_msg("x", &five, "contract", |c: &ContractInfo| c.create_request_nhash_fee)
        .unwrap()
        .expect("a positive fee gives a charge");
    assert_eq!(5, charge.amount.amount);
    assert_eq!("x nhash fee", charge.memo);
    let missing = ContractStorage::new();
    let r = generate_contract_fee_msg("x", &missing, "contract", |c: &ContractInfo| c.create_request_nhash_fee);
    assert!(matches!(r, Err(ContractError::StorageError { .. })));
}

fn storage_at_version(version: &str) -> ContractStorage {
    let mut storage = ContractStorage::new();
    let mut settings = ContractInfo::new("admin".to_string(), "root".to_string(), "name".to_string(), None);
    settings.contract_version = version.to_string();
    set_contract_info(&mut storage, settings).unwrap();
    storage
}

#[test]
fn migration_requires_strictly_newer_version() {
    let contract_type = validation_oracle_smart_contract::types::contract_info::CONTRACT_TYPE;
    for target in ["1.0.0", "0.9.0"] {
        let mut storage = storage_at_version("1.0.0");
        let r = migrate_contract(&mut storage, contract_type, target);
        assert!(matches!(r, Err(ContractError::InvalidMigration { .. })), "target {}", target);
        assert_eq!("1.0.0", get_contract_info(&storage).unwrap().contract_version);
    }
    let mut storage = storage_at_version("1.0.0");
    assert!(migrate_contract(&mut storage, contract_type, "1.1.0").is_ok());
    assert_eq!("1.1.0", get_contract_info(&storage).unwrap().contract_version);
}

#[test]
fn migration_errors() {
    let mut storage = storage_at_version("1.0.0");
    let r = migrate_contract(&mut storage, "other_contract", "2.0.0");
    assert!(matches!(r, Err(ContractError::InvalidMigration { .. })));
    let contract_type = validation_oracle_smart_contract::types::contract_info::CONTRACT_TYPE;
    let r = migrate_contract(&mut storage, contract_type, "not.a.version");
    assert!(matches!(r, Err(ContractError::SemVerError { .. })));
    let mut empty = ContractStorage::new();
    let r = migrate_contract(&mut empty, contract_type, "2.0.0");
    assert!(matches!(r, Err(ContractError::StorageError { .. })));
    let mut pre = storage_at_version("1.0.0-alpha");
    assert!(migrate_contract(&mut pre, contract_type, "1.0.0").is_ok());
}

fn config_request(validator: &str, validation_type: &str) -> ValidatorConfigurationCreationRequest {
    ValidatorConfigurationCreationRequest {
        validation_costs: vec![ValidationCost {
            amount: 10,
            denom: "nhash".to_string(),
            destination: entity(validator),
        }],
        validation_type: validation_type.to_string(),
        validator: validator.to_string(),
    }
}

#[test]
fn validator_configuration_needs_entity() {
    let mut storage = instantiated(0);
    let r = create_new_validator_configuration(&mut storage, &env(), &info("V"), config_request("V", "audit"));
    assert!(matches!(r, Err(ContractError::InvalidRequest { .. })));
    create_new_entity(&mut storage, &env(), &info("V"), entity("V")).expect("entity is created");
    create_new_validator_configuration(&mut storage, &env(), &info("V"), config_request("V", "audit"))
        .expect("configuration is created");
    let stored = may_get_validator_configuration(&storage.configurations, "V-audit").expect("stored under V-audit");
    assert_eq!("audit", stored.validation_type);
    let r = create_new_validator_configuration(&mut storage, &env(), &info("admin"), config_request("V", "audit"));
    assert!(matches!(r, Err(ContractError::RecordAlreadyExists { .. })));
    let r = create_new_validator_configuration(&mut storage, &env(), &info("other"), config_request("V", "kyc"));
    assert!(matches!(r, Err(ContractError::Unauthorized { .. })));
    let r = create_new_validator_configuration(&mut storage, &env(), &paying("V"), config_request("V", "kyc"));
    assert!(matches!(r, Err(ContractError::InvalidFunds { .. })));
}

#[test]
fn validator_configuration_update() {
    let mut storage = instantiated(0);
    create_new_entity(&mut storage, &env(), &info("admin"), entity("V")).unwrap();
    let update = |costs: Option<Vec<ValidationCost>>, t: &str| ValidatorConfigurationUpdateRequest {
        validator: "V".to_string(),
        validation_type: t.to_string(),
        validation_costs: costs,
    };
    let r = update_existing_validator_configuration(&mut storage, &env(), &info("V"), update(None, "audit"));
    assert!(matches!(r, Err(ContractError::InvalidRequest { .. })));
    let r = update_existing_validator_configuration(&mut storage, &env(), &info("V"), update(Some(vec![]), "audit"));
    assert!(matches!(r, Err(ContractError::RecordNotFound { .. })));
    create_new_validator_configuration(&mut storage, &env(), &info("V"), config_request("V", "audit")).unwrap();
    update_existing_validator_configuration(&mut storage, &env(), &info("V"), update(Some(vec![]), "audit"))
        .expect("update succeeds");
    assert!(may_get_validator_configuration(&storage.configurations, "V-audit")
        .unwrap()
        .validation_costs
        .is_empty());
}

fn definition_request(t: &str, bind: Option<bool>) -> ValidationDefinitionCreationRequest {
    ValidationDefinitionCreationRequest {
        validation_type: t.to_string(),
        display_name: None,
        enabled: None,
        bind_name: bind,
    }
}

#[test]
fn definition_creation_keys_by_lower_case_and_binds_name() {
    let mut storage = instantiated(0);
    let response = create_new_validation_definition(&mut storage, &env(), &info("admin"), definition_request("Audit", None))
        .expect("admin creates a definition");
    let stored = may_get_validation_definition(&storage.definitions, "audit").expect("stored under lower case");
    assert_eq!("Audit", stored.validation_type);
    assert!(stored.enabled);
    assert_eq!(
        vec![Directive::BindName { name: "Audit.root.pb".to_string(), address: "contract".to_string() }],
        response.directives
    );
    let r = create_new_validation_definition(&mut storage, &env(), &info("admin"), definition_request("AUDIT", None));
    assert!(matches!(r, Err(ContractError::RecordAlreadyExists { .. })));
    let quiet = create_new_validation_definition(&mut storage, &env(), &info("admin"), definition_request("kyc", Some(false)))
        .unwrap();
    assert!(quiet.directives.is_empty());
    let r = create_new_validation_definition(&mut storage, &env(), &info("alice"), definition_request("x", None));
    assert!(matches!(r, Err(ContractError::Unauthorized { .. })));
    let r = create_new_validation_definition(&mut storage, &env(), &paying("admin"), definition_request("x", None));
    assert!(matches!(r, Err(ContractError::InvalidFunds { .. })));
}

#[test]
fn definition_update_and_delete() {
    let mut storage = instantiated(0);
    create_new_validation_definition(&mut storage, &env(), &info("admin"), definition_request("audit", None)).unwrap();
    let update = |current: &str, new_type: Option<&str>, name: Option<&str>| ValidationDefinitionUpdateRequest {
        current_validation_type: current.to_string(),
        new_validation_type: new_type.map(|s| s.to_string()),
        new_display_name: name.map(|s| s.to_string()),
        enabled: None,
    };
    let r = update_existing_validation_definition(&mut storage, &env(), &info("admin"), update("audit", None, None));
    assert!(matches!(r, Err(ContractError::InvalidRequest { .. })));
    let r = update_existing_validation_definition(&mut storage, &env(), &info("admin"), update("AUDIT", Some("Audit"), None));
    assert!(matches!(r, Err(ContractError::InvalidRequest { .. })));
    let r = update_existing_validation_definition(&mut storage, &env(), &info("admin"), update("missing", None, Some("n")));
    assert!(matches!(r, Err(ContractError::RecordNotFound { .. })));
    update_existing_validation_definition(&mut storage, &env(), &info("admin"), update("audit", None, Some("Audit work")))
        .expect("display name changes");
    assert_eq!(
        Some("Audit work".to_string()),
        may_get_validation_definition(&storage.definitions, "audit").unwrap().display_name
    );
    update_existing_validation_definition(&mut storage, &env(), &info("admin"), update("audit", Some("Review"), None))
        .expect("rename succeeds");
    assert!(may_get_validation_definition(&storage.definitions, "audit").is_none());
    assert!(may_get_validation_definition(&storage.definitions, "review").is_some());
    assert!(delete_validation_definition(&mut storage, &env(), &info("admin"), "review").is_ok());
    let r = delete_validation_definition(&mut storage, &env(), &info("admin"), "review");
    assert!(matches!(r, Err(ContractError::RecordNotFound { .. })));
}

#[test]
fn entity_creation_and_update() {
    let mut storage = instantiated(0);
    let r = create_new_entity(&mut storage, &env(), &info("someone"), entity("V"));
    assert!(matches!(r, Err(ContractError::Unauthorized { .. })));
    create_new_entity(&mut storage, &env(), &info("V"), entity("V")).unwrap();
    let r = create_new_entity(&mut storage, &env(), &info("V"), entity("V"));
    assert!(matches!(r, Err(ContractError::RecordAlreadyExists { .. })));
    let mut named = entity("V");
    named.name = Some("Vee".to_string());
    let response = update_existing_entity(&mut storage, &env(), &info("V"), named).unwrap();
    let pairs = response.attributes.into_pairs();
    assert_eq!(("vo_additional_metadata".to_string(), "[new_name=Vee]".to_string()), pairs[1]);
    let r = update_existing_entity(&mut storage, &env(), &info("admin"), entity("W"));
    assert!(matches!(r, Err(ContractError::RecordNotFound { .. })));
}

#[test]
fn settings_update_rules() {
    let mut storage = instantiated(0);
    let r = update_settings(&mut storage, &info("admin"), SettingsUpdate { new_admin_address: Some(String::new()) });
    assert!(matches!(r, Err(ContractError::InvalidRequest { .. })));
    let r = update_settings(&mut storage, &info("alice"), SettingsUpdate { new_admin_address: Some("bob".to_string()) });
    assert!(matches!(r, Err(ContractError::Unauthorized { .. })));
    let r = update_settings(&mut storage, &paying("admin"), SettingsUpdate { new_admin_address: None });
    assert!(matches!(r, Err(ContractError::InvalidFunds { .. })));
    update_settings(&mut storage, &info("admin"), SettingsUpdate { new_admin_address: Some("bob".to_string()) })
        .unwrap();
    assert_eq!("bob", get_contract_info(&storage).unwrap().admin);
}

#[test]
fn instantiation_rules() {
    let mut storage = ContractStorage::new();
    let msg = |bind: &str, name: &str| InstantiateMsg {
        bind_name: bind.to_string(),
        contract_name: name.to_string(),
        create_request_nhash_fee: 7,
    };
    let r = instantiate_contract(&mut storage, &env(), &info("admin"), msg(" \t", "oracle"));
    assert!(matches!(r, Err(ContractError::InvalidInstantiation { ref message }) if message.contains("bind_name value was empty")));
    let r = instantiate_contract(&mut storage, &env(), &info("admin"), msg("root", ""));
    assert!(matches!(r, Err(ContractError::InvalidInstantiation { ref message }) if message.contains("contract_name value was empty")));
    let r = instantiate_contract(&mut storage, &env(), &paying("admin"), msg("root", "oracle"));
    assert!(matches!(r, Err(ContractError::InvalidFunds { .. })));
    assert!(get_contract_info(&storage).is_err());
    let response = instantiate_contract(&mut storage, &env(), &info("admin"), msg("root", "oracle")).unwrap();
    let settings = get_contract_info(&storage).unwrap();
    assert_eq!("admin", settings.admin);
    assert_eq!(7, settings.create_request_nhash_fee);
    let pairs = response.attributes.into_pairs();
    assert_eq!(2, pairs.len());
    assert_eq!(("vo_event_type".to_string(), "instantiate_contract".to_string()), pairs[0]);
}

#[test]
fn dispatch_routes_operations_and_migration() {
    let mut storage = instantiated(0);
    execute(
        &mut storage,
        &env(),
        &info("alice"),
        ExecuteMsg::RequestValidation { request: request("r1", &["s1"]) },
    )
    .expect("creation through dispatch succeeds");
    let r = execute(
        &mut storage,
        &env(),
        &info("alice"),
        ExecuteMsg::DeleteValidationRequest { id: "missing".to_string() },
    );
    assert!(matches!(r, Err(ContractError::RecordNotFound { .. })));
    assert!(may_get_request(&storage.requests, "r1").is_some());
    let r = migrate(&mut storage, MigrateMsg::ContractUpgrade);
    assert!(matches!(r, Err(ContractError::InvalidMigration { .. })));
}

#[test]
fn lookups_sort_with_a_comparator() {
    let mut storage = instantiated(0);
    for (id, owner) in [("a", "carol"), ("b", "alice"), ("c", "bob")] {
        create_request_for_validation(&mut storage, &env(), &info(owner), request(id, &["s"])).unwrap();
    }
    let by_owner_desc: RequestComparator = |x, y| y.owner.cmp(&x.owner);
    let sorted = get_requests_by_status(&storage.requests, ValidationRequestStatus::Requested, Some(by_owner_desc));
    let owners: Vec<String> = sorted.iter().map(|r| r.owner.clone()).collect();
    assert_eq!(vec!["carol", "bob", "alice"], owners);
}

#[test]
fn operations_hand_back_records() {
    let mut storage = instantiated(0);
    let response = create_request_for_validation(&mut storage, &env(), &info("alice"), request("r1", &["s1"])).unwrap();
    match response.data {
        Some(ResponseData::Request(order)) => {
            assert_eq!("r1", order.id);
            assert_eq!("alice", order.owner);
        }
        other => panic!("unexpected data {:?}", other),
    }
    create_new_validation_definition(&mut storage, &env(), &info("admin"), definition_request("kyc", None)).unwrap();
    let deleted = delete_validation_definition(&mut storage, &env(), &info("admin"), "kyc").unwrap();
    match deleted.data {
        Some(ResponseData::Definition(d)) => assert_eq!("kyc", d.validation_type),
        other => panic!("unexpected data {:?}", other),
    }
    let mut old = storage_at_version("1.0.0");
    let contract_type = validation_oracle_smart_contract::types::contract_info::CONTRACT_TYPE;
    let migrated = migrate_contract(&mut old, contract_type, "1.2.0").unwrap();
    match migrated.data {
        Some(ResponseData::Settings(c)) => assert_eq!("1.2.0", c.contract_version),
        other => panic!("unexpected data {:?}", other),
    }
}

#[test]
fn incomplete_order_message_lists_each_failed_check() {
    let order = ValidationRequestOrder {
        id: String::new(),
        owner: String::new(),
        scopes: vec![],
        allowed_validators: None,
        quote: vec![],
        status: ValidationRequestStatus::Requested,
    };
    match validation_oracle_smart_contract::util::create_request_utilities::validate_request_order(&order) {
        Err(ContractError::InvalidRequest { message }) => assert_eq!(
            "request order is missing ID, request order is missing owner, request order is missing a scope",
            message
        ),
        other => panic!("unexpected result {:?}", other),
    }
}

#[test]
fn definition_update_keeps_fields_it_does_not_give() {
    let mut storage = instantiated(0);
    let mut create = definition_request("audit", None);
    create.display_name = Some("Audit work".to_string());
    create_new_validation_definition(&mut storage, &env(), &info("admin"), create).unwrap();
    let update = |enabled: Option<bool>| ValidationDefinitionUpdateRequest {
        current_validation_type: "audit".to_string(),
        new_validation_type: None,
        new_display_name: None,
        enabled,
    };
    let r = update_existing_validation_definition(&mut storage, &env(), &info("admin"), update(None));
    assert!(matches!(r, Err(ContractError::InvalidRequest { .. })));
    let r = update_existing_validation_definition(&mut storage, &env(), &info("admin"), update(Some(true)));
    assert!(matches!(r, Err(ContractError::InvalidRequest { .. })));
    update_existing_validation_definition(&mut storage, &env(), &info("admin"), update(Some(false)))
        .expect("disabling is a change");
    let stored = may_get_validation_definition(&storage.definitions, "audit").unwrap();
    assert!(!stored.enabled);
    assert_eq!(Some("Audit work".to_string()), stored.display_name);
}

#[test]
fn configuration_update_records_costs() {
    let mut storage = instantiated(0);
    create_new_entity(&mut storage, &env(), &info("V"), entity("V")).unwrap();
    create_new_validator_configuration(&mut storage, &env(), &info("V"), config_request("V", "audit")).unwrap();
    let update = ValidatorConfigurationUpdateRequest {
        validator: "V".to_string(),
        validation_type: "audit".to_string(),
        validation_costs: Some(vec![ValidationCost {
            amount: 5,
            denom: "nhash".to_string(),
            destination: entity("V"),
        }]),
    };
    let response = update_existing_validator_configuration(&mut storage, &env(), &info("V"), update).unwrap();
    let pairs = response.attributes.into_pairs();
    assert_eq!(
        (
            "vo_additional_metadata".to_string(),
            "[new_validation_costs=5nhash to V], [old_validation_costs=10nhash to V]".to_string()
        ),
        pairs[3]
    );
}
