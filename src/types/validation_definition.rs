use vstd::prelude::*;

use crate::types::coin::{opt_as_str, opt_str_text, opt_text};
use crate::util::text::{lower_of, to_lowercase};

verus! {

/// A kind of validation work that requests may name, curated by the admin.
#[derive(Clone, Debug, PartialEq, Eq)]
pub struct ValidationDefinition {
    pub validation_type: String,
    pub display_name: Option<String>,
    pub enabled: bool,
}

impl ValidationDefinition {
    /// The storage key of a definition: its validation type in lower case.
    pub open spec fn key_of(&self) -> Seq<char> {
        lower_of(self.validation_type@)
    }

    /// A copy of the definition.
    pub fn duplicate(&self) -> (r: Self)
        ensures
            r == *self,
    {
        ValidationDefinition {
            validation_type: self.validation_type.clone(),
            display_name: match &self.display_name {
                Some(n) => Some(n.clone()),
                None => None,
            },
            enabled: self.enabled,
        }
    }

    pub fn get_validation_type(&self) -> (r: &str)
        ensures
            r@ == self.validation_type@,
    {
        self.validation_type.as_str()
    }

    pub fn maybe_get_display_name(&self) -> (r: Option<&str>)
        ensures
            opt_str_text(r) == opt_text(self.display_name),
    {
        opt_as_str(&self.display_name)
    }

    pub fn get_display_name(&self) -> (r: &str)
        requires
            self.display_name is Some,
        ensures
            r@ == self.display_name->Some_0@,
    {
        match &self.display_name {
            Some(v) => v.as_str(),
            None => "",
        }
    }

    /// The key under which the definition is stored.
    pub fn storage_key(&self) -> (r: String)
        ensures
            r@ == self.key_of(),
    {
        to_lowercase(self.validation_type.as_str())
    }
}

} // verus!
