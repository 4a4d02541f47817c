use vstd::prelude::*;

use crate::types::coin::{copy_coins, copy_texts, opt_str_text, Coin};

verus! {

/// The stage of a validation request.
#[derive(Clone, Copy, Debug, PartialEq, Eq, Structural)]
pub enum ValidationRequestStatus {
    /// Submitted, not yet claimed by a validator.
    Requested,
    /// Claimed by a validator, results not yet submitted.
    Pending,
    /// Results submitted.
    Fulfilled,
}

impl ValidationRequestStatus {
    /// The status as text.
    pub open spec fn text(self) -> Seq<char> {
        match self {
            ValidationRequestStatus::Requested => "requested"@,
            ValidationRequestStatus::Pending => "pending"@,
            ValidationRequestStatus::Fulfilled => "fulfilled"@,
        }
    }

    /// The status as text.
    pub fn to_string(&self) -> (r: String)
        ensures
            r@ == self.text(),
    {
        match self {
            ValidationRequestStatus::Requested => String::from_str("requested"),
            ValidationRequestStatus::Pending => String::from_str("pending"),
            ValidationRequestStatus::Fulfilled => String::from_str("fulfilled"),
        }
    }
}

/// A request for validation as a requestor submits it.
#[derive(Clone, Debug, PartialEq, Eq)]
pub struct ValidationRequest {
    pub id: String,
    pub scopes: Vec<String>,
    /// The addresses that may fulfil the request; absent means anyone.
    pub allowed_validators: Option<Vec<String>>,
    pub quote: Vec<Coin>,
}

impl ValidationRequest {
    pub fn get_id(&self) -> (r: &str)
        ensures
            r@ == self.id@,
    {
        self.id.as_str()
    }
}

/// A stored request for validation.
#[derive(Clone, Debug, PartialEq, Eq)]
pub struct ValidationRequestOrder {
    pub id: String,
    pub owner: String,
    pub scopes: Vec<String>,
    /// The addresses that may fulfil the request; absent means anyone.
    pub allowed_validators: Option<Vec<String>>,
    pub quote: Vec<Coin>,
    pub status: ValidationRequestStatus,
}

impl ValidationRequestOrder {
    /// Id, owner and scopes are all present.
    pub open spec fn is_complete(&self) -> bool {
        self.id@.len() > 0 && self.owner@.len() > 0 && self.scopes@.len() > 0
    }

    pub fn get_id(&self) -> (r: &str)
        ensures
            r@ == self.id@,
    {
        self.id.as_str()
    }

    /// Whether two orders hold the same values, field by field.
    pub open spec fn same_as(&self, other: &Self) -> bool {
        &&& self.id == other.id
        &&& self.owner == other.owner
        &&& self.scopes@ == other.scopes@
        &&& match (self.allowed_validators, other.allowed_validators) {
            (Some(a), Some(b)) => a@ == b@,
            (None, None) => true,
            _ => false,
        }
        &&& self.quote@ == other.quote@
        &&& self.status == other.status
    }

    /// A copy of the order.
    pub fn duplicate(&self) -> (r: Self)
        ensures
            r.same_as(self),
    {
        let allowed_validators = match &self.allowed_validators {
            Some(v) => Some(copy_texts(v)),
            None => None,
        };
        let r = ValidationRequestOrder {
            id: self.id.clone(),
            owner: self.owner.clone(),
            scopes: copy_texts(&self.scopes),
            allowed_validators,
            quote: copy_coins(&self.quote),
            status: self.status,
        };
        r
    }

    pub fn get_scopes(&self) -> (r: &[String])
        ensures
            r@ == self.scopes@,
    {
        self.scopes.as_slice()
    }

    pub fn maybe_get_allowed_validators(&self) -> (r: Option<&[String]>)
        ensures
            r is Some == self.allowed_validators is Some,
            r matches Some(v) ==> v@ == self.allowed_validators->Some_0@,
    {
        match &self.allowed_validators {
            Some(v) => Some(v.as_slice()),
            None => None,
        }
    }

    pub fn get_quote(&self) -> (r: &[Coin])
        ensures
            r@ == self.quote@,
    {
        self.quote.as_slice()
    }
}

/// Changes to a stored request for validation; an absent field is left as it is.
#[derive(Clone, Debug, PartialEq, Eq)]
pub struct ValidationRequestUpdate {
    pub current_id: String,
    pub new_id: Option<String>,
    pub new_scopes: Option<Vec<String>>,
    pub new_allowed_validators: Option<Vec<String>>,
    pub new_quote: Option<Vec<Coin>>,
}

impl ValidationRequestUpdate {
    pub fn get_current_id(&self) -> (r: &str)
        ensures
            r@ == self.current_id@,
    {
        self.current_id.as_str()
    }

    pub fn maybe_get_new_id(&self) -> (r: Option<&str>)
        ensures
            opt_str_text(r) == match self.new_id {
                Some(s) => Some(s@),
                None => None::<Seq<char>>,
            },
    {
        match &self.new_id {
            Some(s) => Some(s.as_str()),
            None => None,
        }
    }

    pub fn get_new_id(&self) -> (r: &str)
        requires
            self.new_id is Some,
        ensures
            r@ == self.new_id->Some_0@,
    {
        match &self.new_id {
            Some(s) => s.as_str(),
            None => "",
        }
    }

    pub fn maybe_get_new_scopes(&self) -> (r: Option<&[String]>)
        ensures
            r is Some == self.new_scopes is Some,
            r matches Some(v) ==> v@ == self.new_scopes->Some_0@,
    {
        match &self.new_scopes {
            Some(v) => Some(v.as_slice()),
            None => None,
        }
    }

    pub fn get_new_scopes(&self) -> (r: &[String])
        requires
            self.new_scopes is Some,
        ensures
            r@ == self.new_scopes->Some_0@,
    {
        match &self.new_scopes {
            Some(v) => v.as_slice(),
            None => &[],
        }
    }

    pub fn maybe_get_new_allowed_validators(&self) -> (r: Option<&[String]>)
        ensures
            r is Some == self.new_allowed_validators is Some,
            r matches Some(v) ==> v@ == self.new_allowed_validators->Some_0@,
    {
        match &self.new_allowed_validators {
            Some(v) => Some(v.as_slice()),
            None => None,
        }
    }

    pub fn get_new_allowed_validators(&self) -> (r: &[String])
        requires
            self.new_allowed_validators is Some,
        ensures
            r@ == self.new_allowed_validators->Some_0@,
    {
        match &self.new_allowed_validators {
            Some(v) => v.as_slice(),
            None => &[],
        }
    }

    pub fn maybe_get_new_quote(&self) -> (r: Option<&[Coin]>)
        ensures
            r is Some == self.new_quote is Some,
            r matches Some(v) ==> v@ == self.new_quote->Some_0@,
    {
        match &self.new_quote {
            Some(v) => Some(v.as_slice()),
            None => None,
        }
    }

    pub fn get_new_quote(&self) -> (r: &[Coin])
        requires
            self.new_quote is Some,
        ensures
            r@ == self.new_quote->Some_0@,
    {
        match &self.new_quote {
            Some(v) => v.as_slice(),
            None => &[],
        }
    }
}

} // verus!
