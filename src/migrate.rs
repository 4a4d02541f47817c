use vstd::prelude::*;

use crate::storage::state::{same_contents, same_records, ContractStorage};
use crate::types::contract_info::ContractInfo;
use crate::types::error::{describe, ContractError};
use crate::util::constants::{CONTRACT_INFO_KEY, EVENT_TYPE_KEY};
use crate::util::event_attributes::{contract_info_text, EventAttributes, EventType};
use crate::util::response::{Response, ResponseData};
use crate::util::text::compare_text;
use crate::util::version::{is_semver, semver_precedes, semver_valid, version_precedes};

verus! {

/// Whether code of type `code_type` at version `code_version` may take over the settings
/// `info`: the types match, both versions are semantic versions, and the stored one comes
/// strictly before the new one.
pub open spec fn valid_migration_target(
    info: ContractInfo,
    code_type: Seq<char>,
    code_version: Seq<char>,
) -> bool {
    &&& info.contract_type@ == code_type
    &&& semver_valid(info.contract_version@)
    &&& semver_valid(code_version)
    &&& semver_precedes(info.contract_version@, code_version)
}

/// The error that a refused migration gives: `InvalidMigration` for another contract type or a
/// version that is not newer, `SemVerError` for a text that is not a semantic version.
pub open spec fn migration_refusal(
    info: ContractInfo,
    code_type: Seq<char>,
    code_version: Seq<char>,
    e: ContractError,
) -> bool {
    if info.contract_type@ != code_type {
        e is InvalidMigration
    } else if !semver_valid(info.contract_version@) || !semver_valid(code_version) {
        e is SemVerError
    } else {
        e is InvalidMigration
    }
}

/// The settings `after` are `before` with the version `version`.
pub open spec fn migrated(before: ContractInfo, after: ContractInfo, version: Seq<char>) -> bool {
    &&& after.contract_version@ == version
    &&& after.admin == before.admin
    &&& after.bind_name == before.bind_name
    &&& after.contract_name == before.contract_name
    &&& after.contract_type == before.contract_type
    &&& after.create_request_nhash_fee == before.create_request_nhash_fee
}

/// Checks that code of type `code_type` at version `code_version` may take over the settings.
pub fn check_valid_migration_target(
    contract_info: &ContractInfo,
    code_type: &str,
    code_version: &str,
) -> (r: Result<(), ContractError>)
    ensures
        r is Ok <==> valid_migration_target(*contract_info, code_type@, code_version@),
        r matches Err(e) ==> migration_refusal(*contract_info, code_type@, code_version@, e),
{
    if compare_text(code_type, contract_info.contract_type.as_str()) != 0 {
        return Err(
            ContractError::InvalidMigration {
                message: describe(
                    "the stored contract type does not match the migration target type",
                    code_type,
                ),
            },
        );
    }
    if !is_semver(contract_info.contract_version.as_str()) {
        return Err(
            ContractError::SemVerError {
                message: describe("not a semantic version", contract_info.contract_version.as_str()),
            },
        );
    }
    if !is_semver(code_version) {
        return Err(
            ContractError::SemVerError { message: describe("not a semantic version", code_version) },
        );
    }
    if !version_precedes(contract_info.contract_version.as_str(), code_version) {
        return Err(
            ContractError::InvalidMigration {
                message: describe(
                    "the migration target version is not newer than the stored version",
                    code_version,
                ),
            },
        );
    }
    Ok(())
}

/// Migrates the stored settings to code of type `code_type` at version `code_version`: on
/// success the stored version becomes `code_version` and nothing else changes. Fails, changing
/// nothing, if no settings are stored or the code may not take them over.
pub fn migrate_contract(storage: &mut ContractStorage, code_type: &str, code_version: &str) -> (r:
    Result<Response, ContractError>)
    requires
        old(storage).well_formed(),
    ensures
        final(storage).well_formed(),
        old(storage).contract_info is None ==> (r matches Err(e) && e is StorageError),
        old(storage).contract_info matches Some(info) ==> (r is Ok <==> valid_migration_target(
            info,
            code_type@,
            code_version@,
        )),
        old(storage).contract_info matches Some(info) ==> (r matches Err(e) ==> migration_refusal(
            info,
            code_type@,
            code_version@,
            e,
        )),
        r is Ok ==> (final(storage).contract_info matches Some(new_info) && migrated(
            old(storage).contract_info->Some_0,
            new_info,
            code_version@,
        )),
        r is Ok ==> same_records(final(storage), old(storage)),
        r is Err ==> same_contents(final(storage), old(storage)),
        r matches Ok(resp) ==> resp.data == Some(
            ResponseData::Settings(final(storage).contract_info->Some_0),
        ),
        r matches Ok(resp) ==> resp.directives@.len() == 0 && resp.attributes@ == seq![
            (EVENT_TYPE_KEY@, EventType::MigrateContract.name_text()),
            (CONTRACT_INFO_KEY@, contract_info_text(final(storage).contract_info->Some_0)),
        ],
{
    let mut contract_info = match storage.contract_info.take() {
        Some(info) => info,
        None => {
            return Err(
                ContractError::StorageError {
                    message: String::from_str("no contract settings are stored"),
                },
            );
        },
    };
    match check_valid_migration_target(&contract_info, code_type, code_version) {
        Ok(()) => {},
        Err(e) => {
            storage.contract_info = Some(contract_info);
            return Err(e);
        },
    }
    contract_info.contract_version = String::from_str(code_version);
    let attributes = EventAttributes::new(EventType::MigrateContract).set_contract_info(&contract_info);
    let settings = contract_info.duplicate();
    storage.contract_info = Some(contract_info);
    Ok(Response { attributes, directives: Vec::new(), data: Some(ResponseData::Settings(settings)) })
}

} // verus!
