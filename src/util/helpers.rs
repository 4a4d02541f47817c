use vstd::prelude::*;

use crate::storage::state::{get_contract_info, ContractStorage};
use crate::types::coin::{coins_text, coins_view, opt_as_str, opt_str_text, opt_text, render_coins, same_coins, Coin};
use crate::types::contract_info::ContractInfo;
use crate::types::entity::EntityDetail;
use crate::types::validation_cost::{costs_text, costs_view, render_costs, same_costs};
use crate::types::error::ContractError;
use crate::types::request::validation_request::{ValidationRequestOrder, ValidationRequestUpdate};
use crate::types::validation_definition::ValidationDefinition;
use crate::types::validator_configuration::ValidatorConfiguration;
use crate::util::event_attributes::EventAdditionalMetadata;
use crate::util::text::{compare_text, decimal_string, decimal_text, join_strings, join_text, same_texts};

verus! {

/// Fails unless `sender` is the admin named by the stored settings.
pub fn check_admin_only(storage: &ContractStorage, sender: &str) -> (r: Result<(), ContractError>)
    ensures
        storage.contract_info is None ==> (r matches Err(e) && e is StorageError),
        storage.contract_info matches Some(info) ==> (r is Ok <==> sender@ == info.admin@),
        storage.contract_info matches Some(info) ==> (r matches Err(e) ==> e is Unauthorized),
{
    let info = get_contract_info(storage)?;
    if compare_text(sender, info.admin.as_str()) != 0 {
        Err(ContractError::Unauthorized { reason: String::from_str("must be the contract admin") })
    } else {
        Ok(())
    }
}

/// Fails if any funds are attached.
pub fn check_funds_are_empty(funds: &Vec<Coin>) -> (r: Result<(), ContractError>)
    ensures
        r is Ok <==> funds@.len() == 0,
        r matches Err(e) ==> e is InvalidFunds,
{
    if funds.len() != 0 {
        Err(
            ContractError::InvalidFunds {
                message: String::from_str("route requires that no funds be provided"),
            },
        )
    } else {
        Ok(())
    }
}

/// `changes` with `value` recorded for `key`, in place of what was recorded for it before.
pub open spec fn recorded(
    changes: Set<(Seq<char>, Seq<char>)>,
    key: Seq<char>,
    value: Seq<char>,
) -> Set<(Seq<char>, Seq<char>)> {
    changes.filter(|e: (Seq<char>, Seq<char>)| e.0 != key).insert((key, value))
}

/// `changes` with one field recorded: its old and new texts under their keys, where it differs.
pub open spec fn with_field(
    changes: Set<(Seq<char>, Seq<char>)>,
    differs: bool,
    old_key: Seq<char>,
    new_key: Seq<char>,
    old_text: Seq<char>,
    new_text: Seq<char>,
) -> Set<(Seq<char>, Seq<char>)> {
    if differs {
        recorded(recorded(changes, old_key, old_text), new_key, new_text)
    } else {
        changes
    }
}

/// `changes` with an optional field recorded: the text it had and the text it has, where they
/// differ; a text that is absent is not recorded.
pub open spec fn with_optional(
    changes: Set<(Seq<char>, Seq<char>)>,
    old_key: Seq<char>,
    new_key: Seq<char>,
    before: Option<Seq<char>>,
    after: Option<Seq<char>>,
) -> Set<(Seq<char>, Seq<char>)> {
    match (before, after) {
        (Some(o), Some(n)) => with_field(changes, o != n, old_key, new_key, o, n),
        (Some(o), None) => recorded(changes, old_key, o),
        (None, Some(n)) => recorded(changes, new_key, n),
        (None, None) => changes,
    }
}

/// Recording never empties a set, and a set stays as it is only where nothing differs.
pub proof fn lemma_with_field_empty(
    changes: Set<(Seq<char>, Seq<char>)>,
    differs: bool,
    old_key: Seq<char>,
    new_key: Seq<char>,
    old_text: Seq<char>,
    new_text: Seq<char>,
)
    ensures
        with_field(changes, differs, old_key, new_key, old_text, new_text).is_empty() <==> (
        changes.is_empty() && !differs),
{
    if differs {
        let r = with_field(changes, differs, old_key, new_key, old_text, new_text);
        assert(r.contains((new_key, new_text)));
    }
}

fn record_pair(
    changes: &mut EventAdditionalMetadata,
    differs: bool,
    old_key: &str,
    new_key: &str,
    old_text: &str,
    new_text: &str,
)
    requires
        old(changes).well_formed(),
    ensures
        final(changes).well_formed(),
        final(changes)@ == with_field(old(changes)@, differs, old_key@, new_key@, old_text@, new_text@),
{
    if differs {
        changes.add_metadata(old_key, old_text);
        changes.add_metadata(new_key, new_text);
    }
}

fn record_optional(
    changes: &mut EventAdditionalMetadata,
    old_key: &str,
    new_key: &str,
    before: Option<&str>,
    after: Option<&str>,
)
    requires
        old(changes).well_formed(),
    ensures
        final(changes).well_formed(),
        final(changes)@ == with_optional(
            old(changes)@,
            old_key@,
            new_key@,
            opt_str_text(before),
            opt_str_text(after),
        ),
{
    match (before, after) {
        (Some(o), Some(n)) => {
            let differs = compare_text(o, n) != 0;
            record_pair(changes, differs, old_key, new_key, o, n);
        },
        (Some(o), None) => {
            changes.add_metadata(old_key, o);
        },
        (None, Some(n)) => {
            changes.add_metadata(new_key, n);
        },
        (None, None) => {},
    }
}

/// The fields in which two entities differ.
pub open spec fn entity_changes(before: EntityDetail, after: EntityDetail) -> Set<(Seq<char>, Seq<char>)> {
    let c = with_field(Set::empty(), before.address@ != after.address@, "old_address"@, "new_address"@, before.address@, after.address@);
    let c = with_optional(c, "old_name"@, "new_name"@, opt_text(before.name), opt_text(after.name));
    let c = with_optional(c, "old_description"@, "new_description"@, opt_text(before.description), opt_text(after.description));
    let c = with_optional(c, "old_home_url"@, "new_home_url"@, opt_text(before.home_url), opt_text(after.home_url));
    with_optional(c, "old_source_url"@, "new_source_url"@, opt_text(before.source_url), opt_text(after.source_url))
}

/// Records the fields in which two entities differ.
pub fn get_entity_update(before: &EntityDetail, after: &EntityDetail) -> (r: EventAdditionalMetadata)
    ensures
        r.well_formed(),
        r@ == entity_changes(*before, *after),
{
    let mut changes = EventAdditionalMetadata::new();
    let differs = compare_text(before.address.as_str(), after.address.as_str()) != 0;
    record_pair(&mut changes, differs, "old_address", "new_address", before.address.as_str(), after.address.as_str());
    record_optional(&mut changes, "old_name", "new_name", opt_as_str(&before.name), opt_as_str(&after.name));
    record_optional(&mut changes, "old_description", "new_description", opt_as_str(&before.description), opt_as_str(&after.description));
    record_optional(&mut changes, "old_home_url", "new_home_url", opt_as_str(&before.home_url), opt_as_str(&after.home_url));
    record_optional(&mut changes, "old_source_url", "new_source_url", opt_as_str(&before.source_url), opt_as_str(&after.source_url));
    changes
}

/// The fields in which two validator configurations differ, costs included.
pub open spec fn validator_configuration_changes(
    before: ValidatorConfiguration,
    after: ValidatorConfiguration,
) -> Set<(Seq<char>, Seq<char>)> {
    let c = with_field(Set::empty(), before.validator@ != after.validator@, "old_validator"@, "new_validator"@, before.validator@, after.validator@);
    let c = with_field(c, before.validation_type@ != after.validation_type@, "old_validation_type"@, "new_validation_type"@, before.validation_type@, after.validation_type@);
    with_field(
        c,
        costs_view(before.validation_costs@) != costs_view(after.validation_costs@),
        "old_validation_costs"@,
        "new_validation_costs"@,
        costs_text(before.validation_costs@),
        costs_text(after.validation_costs@),
    )
}

/// Records the fields in which two validator configurations differ, costs included.
pub fn get_validator_configuration_update(
    before: &ValidatorConfiguration,
    after: &ValidatorConfiguration,
) -> (r: EventAdditionalMetadata)
    ensures
        r.well_formed(),
        r@ == validator_configuration_changes(*before, *after),
{
    let mut changes = EventAdditionalMetadata::new();
    let differs = compare_text(before.validator.as_str(), after.validator.as_str()) != 0;
    record_pair(&mut changes, differs, "old_validator", "new_validator", before.validator.as_str(), after.validator.as_str());
    let differs = compare_text(before.validation_type.as_str(), after.validation_type.as_str()) != 0;
    record_pair(&mut changes, differs, "old_validation_type", "new_validation_type", before.validation_type.as_str(), after.validation_type.as_str());
    let differs = !same_costs(&before.validation_costs, &after.validation_costs);
    let b = render_costs(&before.validation_costs);
    let a = render_costs(&after.validation_costs);
    record_pair(&mut changes, differs, "old_validation_costs", "new_validation_costs", b.as_str(), a.as_str());
    changes
}

/// The fields in which two settings records differ.
pub open spec fn contract_state_changes(before: ContractInfo, after: ContractInfo) -> Set<(Seq<char>, Seq<char>)> {
    let c = with_field(Set::empty(), before.admin@ != after.admin@, "old_admin"@, "new_admin"@, before.admin@, after.admin@);
    let c = with_field(c, before.bind_name@ != after.bind_name@, "old_bind_name"@, "new_bind_name"@, before.bind_name@, after.bind_name@);
    let c = with_field(c, before.contract_name@ != after.contract_name@, "old_contract_name"@, "new_contract_name"@, before.contract_name@, after.contract_name@);
    let c = with_field(c, before.contract_type@ != after.contract_type@, "old_contract_type"@, "new_contract_type"@, before.contract_type@, after.contract_type@);
    let c = with_field(c, before.contract_version@ != after.contract_version@, "old_contract_version"@, "new_contract_version"@, before.contract_version@, after.contract_version@);
    with_field(
        c,
        before.create_request_nhash_fee != after.create_request_nhash_fee,
        "old_create_request_nhash_fee"@,
        "new_create_request_nhash_fee"@,
        decimal_text(before.create_request_nhash_fee as nat),
        decimal_text(after.create_request_nhash_fee as nat),
    )
}

/// Records the fields in which two settings records differ.
pub fn get_contract_state_update(before: &ContractInfo, after: &ContractInfo) -> (r: EventAdditionalMetadata)
    ensures
        r.well_formed(),
        r@ == contract_state_changes(*before, *after),
{
    let mut changes = EventAdditionalMetadata::new();
    let d = compare_text(before.admin.as_str(), after.admin.as_str()) != 0;
    record_pair(&mut changes, d, "old_admin", "new_admin", before.admin.as_str(), after.admin.as_str());
    let d = compare_text(before.bind_name.as_str(), after.bind_name.as_str()) != 0;
    record_pair(&mut changes, d, "old_bind_name", "new_bind_name", before.bind_name.as_str(), after.bind_name.as_str());
    let d = compare_text(before.contract_name.as_str(), after.contract_name.as_str()) != 0;
    record_pair(&mut changes, d, "old_contract_name", "new_contract_name", before.contract_name.as_str(), after.contract_name.as_str());
    let d = compare_text(before.contract_type.as_str(), after.contract_type.as_str()) != 0;
    record_pair(&mut changes, d, "old_contract_type", "new_contract_type", before.contract_type.as_str(), after.contract_type.as_str());
    let d = compare_text(before.contract_version.as_str(), after.contract_version.as_str()) != 0;
    record_pair(&mut changes, d, "old_contract_version", "new_contract_version", before.contract_version.as_str(), after.contract_version.as_str());
    let d = before.create_request_nhash_fee != after.create_request_nhash_fee;
    let old_fee = decimal_string(before.create_request_nhash_fee);
    let new_fee = decimal_string(after.create_request_nhash_fee);
    record_pair(&mut changes, d, "old_create_request_nhash_fee", "new_create_request_nhash_fee", old_fee.as_str(), new_fee.as_str());
    changes
}

/// A flag as text.
pub open spec fn bool_text(b: bool) -> Seq<char> {
    if b {
        "true"@
    } else {
        "false"@
    }
}

fn bool_string(b: bool) -> (r: String)
    ensures
        r@ == bool_text(b),
{
    if b {
        String::from_str("true")
    } else {
        String::from_str("false")
    }
}

/// The fields in which two validation definitions differ.
pub open spec fn validation_definition_changes(
    before: ValidationDefinition,
    after: ValidationDefinition,
) -> Set<(Seq<char>, Seq<char>)> {
    let c = with_field(Set::empty(), before.validation_type@ != after.validation_type@, "old_validation_type"@, "new_validation_type"@, before.validation_type@, after.validation_type@);
    let c = with_optional(c, "old_display_name"@, "new_display_name"@, opt_text(before.display_name), opt_text(after.display_name));
    with_field(c, before.enabled != after.enabled, "old_enabled"@, "new_enabled"@, bool_text(before.enabled), bool_text(after.enabled))
}

/// Records the fields in which two validation definitions differ.
pub fn get_validation_definition_update(
    before: &ValidationDefinition,
    after: &ValidationDefinition,
) -> (r: EventAdditionalMetadata)
    ensures
        r.well_formed(),
        r@ == validation_definition_changes(*before, *after),
{
    let mut changes = EventAdditionalMetadata::new();
    let d = compare_text(before.validation_type.as_str(), after.validation_type.as_str()) != 0;
    record_pair(&mut changes, d, "old_validation_type", "new_validation_type", before.validation_type.as_str(), after.validation_type.as_str());
    record_optional(&mut changes, "old_display_name", "new_display_name", opt_as_str(&before.display_name), opt_as_str(&after.display_name));
    let b = bool_string(before.enabled);
    let a = bool_string(after.enabled);
    record_pair(&mut changes, before.enabled != after.enabled, "old_enabled", "new_enabled", b.as_str(), a.as_str());
    changes
}

/// A list of addresses as text, joined with ", ".
pub open spec fn addresses_text(list: Vec<String>) -> Seq<char> {
    join_text(list.deep_view(), ", "@)
}

/// `changes` with the allowed validators recorded where they differ; an absent list is not
/// recorded.
pub open spec fn with_validators(
    changes: Set<(Seq<char>, Seq<char>)>,
    before: Option<Vec<String>>,
    after: Option<Vec<String>>,
) -> Set<(Seq<char>, Seq<char>)> {
    match (before, after) {
        (Some(b), Some(a)) => with_field(changes, b.deep_view() != a.deep_view(), "old_allowed_validators"@, "new_allowed_validators"@, addresses_text(b), addresses_text(a)),
        (Some(b), None) => recorded(changes, "old_allowed_validators"@, addresses_text(b)),
        (None, Some(a)) => recorded(changes, "new_allowed_validators"@, addresses_text(a)),
        (None, None) => changes,
    }
}

/// The fields in which two validation requests differ.
pub open spec fn request_changes(before: ValidationRequestOrder, after: ValidationRequestOrder) -> Set<(Seq<char>, Seq<char>)> {
    let c = with_field(Set::empty(), before.id@ != after.id@, "old_id"@, "new_id"@, before.id@, after.id@);
    let c = with_field(c, before.owner@ != after.owner@, "old_owner"@, "new_owner"@, before.owner@, after.owner@);
    let c = with_field(c, before.scopes.deep_view() != after.scopes.deep_view(), "old_scopes"@, "new_scopes"@, addresses_text(before.scopes), addresses_text(after.scopes));
    let c = with_validators(c, before.allowed_validators, after.allowed_validators);
    let c = with_field(c, coins_view(before.quote@) != coins_view(after.quote@), "old_quote"@, "new_quote"@, coins_text(before.quote@), coins_text(after.quote@));
    with_field(c, before.status != after.status, "old_status"@, "new_status"@, before.status.text(), after.status.text())
}

/// Whether two optional lists of validators are the same.
pub open spec fn same_validators(before: Option<Vec<String>>, after: Option<Vec<String>>) -> bool {
    match (before, after) {
        (Some(b), Some(a)) => b.deep_view() == a.deep_view(),
        (None, None) => true,
        _ => false,
    }
}

/// Two requests give no recorded change exactly when they agree in every field: id, owner,
/// scopes, allowed validators, quote and status.
pub proof fn lemma_request_changes_empty(before: ValidationRequestOrder, after: ValidationRequestOrder)
    ensures
        request_changes(before, after).is_empty() <==> (before.id@ == after.id@ && before.owner@
            == after.owner@ && before.scopes.deep_view() == after.scopes.deep_view()
            && same_validators(before.allowed_validators, after.allowed_validators) && coins_view(
            before.quote@,
        ) == coins_view(after.quote@) && before.status == after.status),
{
    let c0 = Set::<(Seq<char>, Seq<char>)>::empty();
    let c1 = with_field(c0, before.id@ != after.id@, "old_id"@, "new_id"@, before.id@, after.id@);
    let c2 = with_field(c1, before.owner@ != after.owner@, "old_owner"@, "new_owner"@, before.owner@, after.owner@);
    let c3 = with_field(c2, before.scopes.deep_view() != after.scopes.deep_view(), "old_scopes"@, "new_scopes"@, addresses_text(before.scopes), addresses_text(after.scopes));
    let c4 = with_validators(c3, before.allowed_validators, after.allowed_validators);
    let c5 = with_field(c4, coins_view(before.quote@) != coins_view(after.quote@), "old_quote"@, "new_quote"@, coins_text(before.quote@), coins_text(after.quote@));
    assert(c0.is_empty()) by {
        assert(c0 =~= Set::empty());
    }
    lemma_with_field_empty(c0, before.id@ != after.id@, "old_id"@, "new_id"@, before.id@, after.id@);
    lemma_with_field_empty(c1, before.owner@ != after.owner@, "old_owner"@, "new_owner"@, before.owner@, after.owner@);
    lemma_with_field_empty(c2, before.scopes.deep_view() != after.scopes.deep_view(), "old_scopes"@, "new_scopes"@, addresses_text(before.scopes), addresses_text(after.scopes));
    match (before.allowed_validators, after.allowed_validators) {
        (Some(b), Some(a)) => {
            lemma_with_field_empty(c3, b.deep_view() != a.deep_view(), "old_allowed_validators"@, "new_allowed_validators"@, addresses_text(b), addresses_text(a));
        },
        (Some(b), None) => {
            assert(c4.contains(("old_allowed_validators"@, addresses_text(b))));
        },
        (None, Some(a)) => {
            assert(c4.contains(("new_allowed_validators"@, addresses_text(a))));
        },
        (None, None) => {},
    }
    lemma_with_field_empty(c4, coins_view(before.quote@) != coins_view(after.quote@), "old_quote"@, "new_quote"@, coins_text(before.quote@), coins_text(after.quote@));
    lemma_with_field_empty(c5, before.status != after.status, "old_status"@, "new_status"@, before.status.text(), after.status.text());
}

/// The request that an update makes of a stored one: each field the update gives replaces the
/// stored one, every other field is kept.
pub open spec fn merged_request(before: ValidationRequestOrder, update: ValidationRequestUpdate) -> ValidationRequestOrder {
    ValidationRequestOrder {
        id: match update.new_id {
            Some(id) => id,
            None => before.id,
        },
        owner: before.owner,
        scopes: match update.new_scopes {
            Some(scopes) => scopes,
            None => before.scopes,
        },
        allowed_validators: match update.new_allowed_validators {
            Some(v) => Some(v),
            None => before.allowed_validators,
        },
        quote: match update.new_quote {
            Some(quote) => quote,
            None => before.quote,
        },
        status: before.status,
    }
}

/// Records the fields in which a stored request and the request that `update` makes of it
/// differ.
pub fn get_validation_request_update(
    before: &ValidationRequestOrder,
    update: &ValidationRequestUpdate,
) -> (r: EventAdditionalMetadata)
    ensures
        r.well_formed(),
        r@ == request_changes(*before, merged_request(*before, *update)),
{
    let ghost after = merged_request(*before, *update);
    let mut changes = EventAdditionalMetadata::new();
    if let Some(id) = &update.new_id {
        let d = compare_text(before.id.as_str(), id.as_str()) != 0;
        record_pair(&mut changes, d, "old_id", "new_id", before.id.as_str(), id.as_str());
    }
    if let Some(scopes) = &update.new_scopes {
        let d = !same_texts(&before.scopes, scopes);
        let b = join_strings(&before.scopes, ", ");
        let a = join_strings(scopes, ", ");
        record_pair(&mut changes, d, "old_scopes", "new_scopes", b.as_str(), a.as_str());
    }
    if let Some(validators) = &update.new_allowed_validators {
        let a = join_strings(validators, ", ");
        match &before.allowed_validators {
            Some(old_list) => {
                let d = !same_texts(old_list, validators);
                let b = join_strings(old_list, ", ");
                record_pair(&mut changes, d, "old_allowed_validators", "new_allowed_validators", b.as_str(), a.as_str());
            },
            None => {
                changes.add_metadata("new_allowed_validators", a.as_str());
            },
        }
    }
    if let Some(quote) = &update.new_quote {
        let d = !same_coins(&before.quote, quote);
        let b = render_coins(&before.quote);
        let a = render_coins(quote);
        record_pair(&mut changes, d, "old_quote", "new_quote", b.as_str(), a.as_str());
    }
    changes
}

} // verus!
