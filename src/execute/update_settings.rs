use vstd::prelude::*;

use crate::storage::state::{same_contents, same_records, ContractStorage};
use crate::types::contract_info::ContractInfo;
use crate::types::error::ContractError;
use crate::types::msg::MessageInfo;
use crate::types::request::settings_update::SettingsUpdate;
use crate::util::constants::EVENT_TYPE_KEY;
use crate::util::event_attributes::{EventAttributes, EventType};
use crate::util::response::Response;
use crate::util::text::compare_text;

verus! {

/// Whether a settings update is well formed: a new admin, where given, is not empty.
pub open spec fn settings_update_valid(update: SettingsUpdate) -> bool {
    update.new_admin_address matches Some(a) ==> a@.len() > 0
}

/// Fails if the update gives an empty admin address.
pub fn validate_settings_update(update: &SettingsUpdate) -> (r: Result<(), ContractError>)
    ensures
        r is Ok <==> settings_update_valid(*update),
        r matches Err(e) ==> e is InvalidRequest,
{
    match &update.new_admin_address {
        Some(a) => {
            if a.as_str().unicode_len() == 0 {
                return Err(
                    ContractError::InvalidRequest {
                        message: String::from_str("new_admin_address was empty"),
                    },
                );
            }
        },
        None => {},
    }
    Ok(())
}

/// The settings after an update: the new admin where one is given, all else kept.
pub open spec fn updated_settings(info: ContractInfo, update: SettingsUpdate) -> ContractInfo {
    ContractInfo {
        admin: match update.new_admin_address {
            Some(a) => a,
            None => info.admin,
        },
        ..info
    }
}

/// Applies a settings update. Admin only, without funds; fails, changing nothing, with
/// `InvalidRequest` for an empty new admin, `StorageError` without settings, `Unauthorized`
/// for another caller, and `InvalidFunds` with funds attached, checked in that order.
pub fn update_settings(storage: &mut ContractStorage, info: &MessageInfo, update: SettingsUpdate) -> (r:
    Result<Response, ContractError>)
    requires
        old(storage).well_formed(),
    ensures
        final(storage).well_formed(),
        r is Ok <==> settings_update_valid(update) && old(storage).contract_info is Some
            && info.sender@ == old(storage).contract_info->Some_0.admin@ && info.funds@.len() == 0,
        !settings_update_valid(update) ==> (r matches Err(e) && e is InvalidRequest),
        settings_update_valid(update) && old(storage).contract_info is None ==> (r matches Err(e)
            && e is StorageError),
        settings_update_valid(update) && old(storage).contract_info is Some && info.sender@ != old(
            storage,
        ).contract_info->Some_0.admin@ ==> (r matches Err(e) && e is Unauthorized),
        settings_update_valid(update) && old(storage).contract_info is Some && info.sender@ == old(
            storage,
        ).contract_info->Some_0.admin@ && info.funds@.len() != 0 ==> (r matches Err(e)
            && e is InvalidFunds),
        r is Ok ==> final(storage).contract_info == Some(
            updated_settings(old(storage).contract_info->Some_0, update),
        ) && same_records(final(storage), old(storage)),
        r matches Ok(resp) ==> resp.directives@.len() == 0 && resp.attributes@ == match update.new_admin_address {
            Some(a) => seq![
                (EVENT_TYPE_KEY@, EventType::UpdateSettings.name_text()),
                ("new_admin_address"@, a@),
            ],
            None => seq![(EVENT_TYPE_KEY@, EventType::UpdateSettings.name_text())],
        },
        r is Err ==> same_contents(final(storage), old(storage)),
{
    match validate_settings_update(&update) {
        Ok(()) => {},
        Err(e) => {
            return Err(e);
        },
    }
    let admin_matches = match &storage.contract_info {
        None => {
            return Err(
                ContractError::StorageError {
                    message: String::from_str("no contract settings are stored"),
                },
            );
        },
        Some(ci) => compare_text(info.sender.as_str(), ci.admin.as_str()) == 0,
    };
    if !admin_matches {
        return Err(ContractError::Unauthorized { reason: String::from_str("must be the contract admin") });
    }
    if info.funds.len() != 0 {
        return Err(
            ContractError::InvalidFunds {
                message: String::from_str("funds cannot be provided during a settings update"),
            },
        );
    }
    let mut attributes = EventAttributes::new(EventType::UpdateSettings);
    let mut contract_info = match storage.contract_info.take() {
        Some(ci) => ci,
        None => {
            return Err(ContractError::GenericError { message: String::new() });
        },
    };
    match update.new_admin_address {
        Some(a) => {
            attributes = attributes.add_attribute("new_admin_address", a.as_str());
            contract_info.admin = a;
        },
        None => {},
    }
    storage.contract_info = Some(contract_info);
    Ok(Response { attributes, directives: Vec::new(), data: None })
}

} // verus!
