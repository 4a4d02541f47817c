use vstd::prelude::*;

use crate::types::entity::{entity_view, same_entity, EntityDetail};
use crate::util::text::{compare_text, decimal_string, decimal_text, join_strings, join_text};

verus! {

/// What a validator charges for one validation, and who receives it.
#[derive(Clone, Debug, PartialEq, Eq)]
pub struct ValidationCost {
    pub amount: u128,
    pub denom: String,
    pub destination: EntityDetail,
}

impl ValidationCost {
    pub fn get_amount(&self) -> (r: u128)
        ensures
            r == self.amount,
    {
        self.amount
    }

    pub fn get_denom(&self) -> (r: &str)
        ensures
            r@ == self.denom@,
    {
        self.denom.as_str()
    }
}

/// A cost as text: amount, denomination and the address paid, as in `10nhash to V`.
pub open spec fn cost_text(c: ValidationCost) -> Seq<char> {
    decimal_text(c.amount as nat) + c.denom@ + " to "@ + c.destination.address@
}

/// A list of costs as text: each cost's text, joined with ", ".
pub open spec fn costs_text(costs: Seq<ValidationCost>) -> Seq<char> {
    join_text(costs.map_values(|c: ValidationCost| cost_text(c)), ", "@)
}

/// What a list of costs holds: each cost's amount, denomination and destination.
pub open spec fn costs_view(costs: Seq<ValidationCost>) -> Seq<
    (u128, Seq<char>, (Seq<char>, Option<Seq<char>>, Option<Seq<char>>, Option<Seq<char>>, Option<Seq<char>>)),
> {
    costs.map_values(|c: ValidationCost| (c.amount, c.denom@, entity_view(c.destination)))
}

impl ValidationCost {
    /// The cost as text: amount, denomination and the address paid.
    pub fn display(&self) -> (r: String)
        ensures
            r@ == cost_text(*self),
    {
        let mut r = decimal_string(self.amount);
        r.append(self.denom.as_str());
        r.append(" to ");
        r.append(self.destination.address.as_str());
        r
    }
}

/// Renders a list of costs, each as its amount, denomination and address paid, joined with ", ".
pub fn render_costs(costs: &Vec<ValidationCost>) -> (r: String)
    ensures
        r@ == costs_text(costs@),
{
    let mut texts: Vec<String> = Vec::new();
    let mut i: usize = 0;
    while i < costs.len()
        invariant
            i <= costs.len(),
            texts.deep_view() =~= costs@.map_values(|c: ValidationCost| cost_text(c)).take(i as int),
        decreases costs.len() - i,
    {
        let t = costs[i].display();
        let ghost prev = texts.deep_view();
        texts.push(t);
        assert(texts.deep_view() =~= prev.push(t@));
        assert(costs@.map_values(|c: ValidationCost| cost_text(c)).take(i + 1) =~= costs@.map_values(
            |c: ValidationCost| cost_text(c),
        ).take(i as int).push(t@));
        i = i + 1;
    }
    assert(costs@.map_values(|c: ValidationCost| cost_text(c)).take(i as int) =~= costs@.map_values(
        |c: ValidationCost| cost_text(c),
    ));
    join_strings(&texts, ", ")
}

/// Whether two lists of costs hold the same amounts, denominations and destinations in order.
pub fn same_costs(a: &Vec<ValidationCost>, b: &Vec<ValidationCost>) -> (r: bool)
    ensures
        r == (costs_view(a@) == costs_view(b@)),
{
    if a.len() != b.len() {
        assert(costs_view(a@).len() != costs_view(b@).len());
        return false;
    }
    let mut i: usize = 0;
    while i < a.len()
        invariant
            a.len() == b.len(),
            i <= a.len(),
            forall|j: int| 0 <= j < i ==> costs_view(a@)[j] == costs_view(b@)[j],
        decreases a.len() - i,
    {
        if a[i].amount != b[i].amount || compare_text(a[i].denom.as_str(), b[i].denom.as_str()) != 0
            || !same_entity(&a[i].destination, &b[i].destination) {
            assert(costs_view(a@)[i as int] != costs_view(b@)[i as int]);
            return false;
        }
        i = i + 1;
    }
    assert(costs_view(a@) =~= costs_view(b@));
    true
}

} // verus!
