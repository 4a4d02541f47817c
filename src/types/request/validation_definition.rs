use vstd::prelude::*;

use crate::types::coin::{opt_as_str, opt_str_text, opt_text};
use crate::types::validation_definition::ValidationDefinition;
use crate::util::text::{lower_of, to_lowercase};

verus! {

/// A request to create a validation definition.
#[derive(Clone, Debug, PartialEq, Eq)]
pub struct ValidationDefinitionCreationRequest {
    pub validation_type: String,
    pub display_name: Option<String>,
    /// Absent means enabled.
    pub enabled: Option<bool>,
    /// Whether to bind the validation type as a name; absent means yes.
    pub bind_name: Option<bool>,
}

impl ValidationDefinitionCreationRequest {
    pub fn get_validation_type(&self) -> (r: &str)
        ensures
            r@ == self.validation_type@,
    {
        self.validation_type.as_str()
    }

    pub fn maybe_get_display_name(&self) -> (r: Option<&str>)
        ensures
            opt_str_text(r) == opt_text(self.display_name),
    {
        opt_as_str(&self.display_name)
    }

    pub fn get_display_name(&self) -> (r: &str)
        requires
            self.display_name is Some,
        ensures
            r@ == self.display_name->Some_0@,
    {
        match &self.display_name {
            Some(v) => v.as_str(),
            None => "",
        }
    }
}

impl From<ValidationDefinitionCreationRequest> for ValidationDefinition {
    fn from(request: ValidationDefinitionCreationRequest) -> (r: Self) {
        ValidationDefinition {
            validation_type: request.validation_type,
            display_name: request.display_name,
            enabled: match request.enabled {
                Some(e) => e,
                None => true,
            },
        }
    }
}

impl vstd::std_specs::convert::FromSpecImpl<ValidationDefinitionCreationRequest> for ValidationDefinition {
    open spec fn obeys_from_spec() -> bool {
        true
    }

    open spec fn from_spec(request: ValidationDefinitionCreationRequest) -> Self {
        ValidationDefinition {
            validation_type: request.validation_type,
            display_name: request.display_name,
            enabled: match request.enabled {
                Some(e) => e,
                None => true,
            },
        }
    }
}

/// A request to change a validation definition; an absent field is left as it is.
#[derive(Clone, Debug, PartialEq, Eq)]
pub struct ValidationDefinitionUpdateRequest {
    pub current_validation_type: String,
    pub new_validation_type: Option<String>,
    pub new_display_name: Option<String>,
    /// Absent means enabled.
    pub enabled: Option<bool>,
}

impl ValidationDefinitionUpdateRequest {
    /// The key of the definition that the request changes.
    pub open spec fn old_key(&self) -> Seq<char> {
        lower_of(self.current_validation_type@)
    }

    /// The key of the definition after a rename, if the request renames it.
    pub open spec fn new_key(&self) -> Option<Seq<char>> {
        match self.new_validation_type {
            Some(t) => Some(lower_of(t@)),
            None => None,
        }
    }

    /// The definition that the request alone describes, an absent flag read as enabled; this is
    /// what converting the request gives, while an update of a stored definition keeps the
    /// fields the request leaves out.
    pub open spec fn target(&self) -> ValidationDefinition {
        ValidationDefinition {
            validation_type: match self.new_validation_type {
                Some(t) => t,
                None => self.current_validation_type,
            },
            display_name: self.new_display_name,
            enabled: match self.enabled {
                Some(e) => e,
                None => true,
            },
        }
    }

    pub fn get_current_validation_type(&self) -> (r: &str)
        ensures
            r@ == self.current_validation_type@,
    {
        self.current_validation_type.as_str()
    }

    pub fn maybe_get_new_validation_type(&self) -> (r: Option<&str>)
        ensures
            opt_str_text(r) == opt_text(self.new_validation_type),
    {
        opt_as_str(&self.new_validation_type)
    }

    pub fn get_new_validation_type(&self) -> (r: &str)
        requires
            self.new_validation_type is Some,
        ensures
            r@ == self.new_validation_type->Some_0@,
    {
        match &self.new_validation_type {
            Some(v) => v.as_str(),
            None => "",
        }
    }

    pub fn maybe_get_display_name(&self) -> (r: Option<&str>)
        ensures
            opt_str_text(r) == opt_text(self.new_display_name),
    {
        opt_as_str(&self.new_display_name)
    }

    pub fn get_display_name(&self) -> (r: &str)
        requires
            self.new_display_name is Some,
        ensures
            r@ == self.new_display_name->Some_0@,
    {
        match &self.new_display_name {
            Some(v) => v.as_str(),
            None => "",
        }
    }

    /// The key of the definition that the request changes.
    pub fn old_storage_key(&self) -> (r: String)
        ensures
            r@ == self.old_key(),
    {
        to_lowercase(self.current_validation_type.as_str())
    }

    /// The key of the definition after a rename, if the request renames it.
    pub fn maybe_get_new_storage_key(&self) -> (r: Option<String>)
        ensures
            opt_text(r) == self.new_key(),
    {
        match &self.new_validation_type {
            Some(t) => Some(to_lowercase(t.as_str())),
            None => None,
        }
    }

    /// The key of the definition after the rename that the request asks for.
    pub fn get_new_storage_key(&self) -> (r: String)
        requires
            self.new_validation_type is Some,
        ensures
            r@ == lower_of(self.new_validation_type->Some_0@),
    {
        match &self.new_validation_type {
            Some(t) => to_lowercase(t.as_str()),
            None => String::new(),
        }
    }
}

impl From<ValidationDefinitionUpdateRequest> for ValidationDefinition {
    fn from(request: ValidationDefinitionUpdateRequest) -> (r: Self) {
        ValidationDefinition {
            validation_type: match request.new_validation_type {
                Some(t) => t,
                None => request.current_validation_type,
            },
            display_name: request.new_display_name,
            enabled: match request.enabled {
                Some(e) => e,
                None => true,
            },
        }
    }
}

impl vstd::std_specs::convert::FromSpecImpl<ValidationDefinitionUpdateRequest> for ValidationDefinition {
    open spec fn obeys_from_spec() -> bool {
        true
    }

    open spec fn from_spec(request: ValidationDefinitionUpdateRequest) -> Self {
        request.target()
    }
}

} // verus!
