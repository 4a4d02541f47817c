use vstd::prelude::*;

use crate::types::access_route::AccessRoute;

verus! {

/// The party that an access definition belongs to.
#[derive(Clone, Copy, Debug, PartialEq, Eq, Structural)]
pub enum AccessDefinitionType {
    Requestor,
    Verifier,
}

/// The routes through which a party's data can be reached.
#[derive(Clone, Debug, PartialEq, Eq)]
pub struct AccessDefinition {
    pub owner_address: String,
    pub access_routes: Vec<AccessRoute>,
    pub definition_type: AccessDefinitionType,
}

impl AccessDefinition {
    pub fn get_owner_address(&self) -> (r: &str)
        ensures
            r@ == self.owner_address@,
    {
        self.owner_address.as_str()
    }

    pub fn get_access_routes(&self) -> (r: &[AccessRoute])
        ensures
            r@ == self.access_routes@,
    {
        self.access_routes.as_slice()
    }
}

} // verus!
