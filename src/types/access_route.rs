use vstd::prelude::*;

use crate::types::coin::{opt_as_str, opt_str_text, opt_text};

verus! {

/// A route through which an owner's data can be reached, optionally named.
#[derive(Clone, Debug, PartialEq, Eq)]
pub struct AccessRoute {
    pub route: String,
    pub name: Option<String>,
}

impl AccessRoute {
    pub fn get_route(&self) -> (r: &str)
        ensures
            r@ == self.route@,
    {
        self.route.as_str()
    }

    pub fn maybe_get_name(&self) -> (r: Option<&str>)
        ensures
            opt_str_text(r) == opt_text(self.name),
    {
        opt_as_str(&self.name)
    }

    pub fn get_name(&self) -> (r: &str)
        requires
            self.name is Some,
        ensures
            r@ == self.name->Some_0@,
    {
        match &self.name {
            Some(n) => n.as_str(),
            None => "",
        }
    }
}

} // verus!
