use vstd::prelude::*;

use crate::types::coin::Coin;

verus! {

/// The settings given when the contract is instantiated.
#[derive(Clone, Debug, PartialEq, Eq)]
pub struct InstantiateMsg {
    pub bind_name: String,
    pub contract_name: String,
    pub create_request_nhash_fee: u128,
}

/// The kinds of migration.
#[derive(Clone, Copy, Debug, PartialEq, Eq, Structural)]
pub enum MigrateMsg {
    ContractUpgrade,
}

/// Who calls an operation, and the funds attached to the call.
#[derive(Clone, Debug, PartialEq, Eq)]
pub struct MessageInfo {
    pub sender: String,
    pub funds: Vec<Coin>,
}

/// The environment of a call: the contract's own address.
#[derive(Clone, Debug, PartialEq, Eq)]
pub struct Env {
    pub contract_address: String,
}

} // verus!
