use vstd::prelude::*;

verus! {

/// The tag that names this contract's kind of storage layout.
pub const CONTRACT_TYPE: &'static str = "validation_oracle_smart_contract";

/// The version of this contract's code.
pub const CONTRACT_VERSION: &'static str = "0.1.0";

/// The contract's settings: one record per deployment.
#[derive(Clone, Debug, PartialEq, Eq)]
pub struct ContractInfo {
    pub admin: String,
    pub bind_name: String,
    pub contract_name: String,
    pub contract_type: String,
    pub contract_version: String,
    pub create_request_nhash_fee: u128,
}

impl ContractInfo {
    /// A copy of the settings.
    pub fn duplicate(&self) -> (r: Self)
        ensures
            r == *self,
    {
        ContractInfo {
            admin: self.admin.clone(),
            bind_name: self.bind_name.clone(),
            contract_name: self.contract_name.clone(),
            contract_type: self.contract_type.clone(),
            contract_version: self.contract_version.clone(),
            create_request_nhash_fee: self.create_request_nhash_fee,
        }
    }

    /// Settings for this code's type and version; an absent fee is zero.
    pub fn new(
        admin: String,
        bind_name: String,
        contract_name: String,
        create_request_nhash_fee: Option<u128>,
    ) -> (r: Self)
        ensures
            r.admin == admin,
            r.bind_name == bind_name,
            r.contract_name == contract_name,
            r.contract_type@ == CONTRACT_TYPE@,
            r.contract_version@ == CONTRACT_VERSION@,
            r.create_request_nhash_fee == match create_request_nhash_fee {
                Some(fee) => fee,
                None => 0,
            },
    {
        ContractInfo {
            admin,
            bind_name,
            contract_name,
            contract_type: String::from_str(CONTRACT_TYPE),
            contract_version: String::from_str(CONTRACT_VERSION),
            create_request_nhash_fee: match create_request_nhash_fee {
                Some(fee) => fee,
                None => 0,
            },
        }
    }
}

} // verus!
