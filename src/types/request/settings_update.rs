use vstd::prelude::*;

verus! {

/// Changes to the contract's settings; an absent field is left as it is.
#[derive(Clone, Debug, PartialEq, Eq)]
pub struct SettingsUpdate {
    pub new_admin_address: Option<String>,
}

} // verus!
