use vstd::prelude::*;

use crate::types::coin::{opt_as_str, opt_str_text, opt_text, same_opt_text};
use crate::util::text::compare_text;

verus! {

/// A directory record describing an address.
#[derive(Clone, Debug, PartialEq, Eq)]
pub struct EntityDetail {
    pub address: String,
    pub name: Option<String>,
    pub description: Option<String>,
    pub home_url: Option<String>,
    pub source_url: Option<String>,
}

/// What an entity holds, as plain values.
pub open spec fn entity_view(e: EntityDetail) -> (
    Seq<char>,
    Option<Seq<char>>,
    Option<Seq<char>>,
    Option<Seq<char>>,
    Option<Seq<char>>,
) {
    (e.address@, opt_text(e.name), opt_text(e.description), opt_text(e.home_url), opt_text(e.source_url))
}

/// Whether two entities hold the same values.
pub fn same_entity(a: &EntityDetail, b: &EntityDetail) -> (r: bool)
    ensures
        r == (entity_view(*a) == entity_view(*b)),
{
    compare_text(a.address.as_str(), b.address.as_str()) == 0 && same_opt_text(&a.name, &b.name)
        && same_opt_text(&a.description, &b.description) && same_opt_text(&a.home_url, &b.home_url)
        && same_opt_text(&a.source_url, &b.source_url)
}

impl EntityDetail {
    pub fn maybe_get_name(&self) -> (r: Option<&str>)
        ensures
            opt_str_text(r) == opt_text(self.name),
    {
        opt_as_str(&self.name)
    }

    pub fn get_name(&self) -> (r: &str)
        requires
            self.name is Some,
        ensures
            r@ == self.name->Some_0@,
    {
        match &self.name {
            Some(v) => v.as_str(),
            None => "",
        }
    }

    pub fn maybe_get_description(&self) -> (r: Option<&str>)
        ensures
            opt_str_text(r) == opt_text(self.description),
    {
        opt_as_str(&self.description)
    }

    pub fn get_description(&self) -> (r: &str)
        requires
            self.description is Some,
        ensures
            r@ == self.description->Some_0@,
    {
        match &self.description {
            Some(v) => v.as_str(),
            None => "",
        }
    }

    pub fn maybe_get_home_url(&self) -> (r: Option<&str>)
        ensures
            opt_str_text(r) == opt_text(self.home_url),
    {
        opt_as_str(&self.home_url)
    }

    pub fn get_home_url(&self) -> (r: &str)
        requires
            self.home_url is Some,
        ensures
            r@ == self.home_url->Some_0@,
    {
        match &self.home_url {
            Some(v) => v.as_str(),
            None => "",
        }
    }

    pub fn maybe_get_source_url(&self) -> (r: Option<&str>)
        ensures
            opt_str_text(r) == opt_text(self.source_url),
    {
        opt_as_str(&self.source_url)
    }

    pub fn get_source_url(&self) -> (r: &str)
        requires
            self.source_url is Some,
        ensures
            r@ == self.source_url->Some_0@,
    {
        match &self.source_url {
            Some(v) => v.as_str(),
            None => "",
        }
    }
}

} // verus!
