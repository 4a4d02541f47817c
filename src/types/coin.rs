use vstd::prelude::*;

use crate::util::text::{compare_text, decimal_string, decimal_text, join_strings, join_text};

verus! {

/// An amount of one denomination of funds.
#[derive(Clone, Debug, PartialEq, Eq)]
pub struct Coin {
    pub denom: String,
    pub amount: u128,
}

/// The text of an optional text.
pub open spec fn opt_text(o: Option<String>) -> Option<Seq<char>> {
    match o {
        Some(s) => Some(s@),
        None => None,
    }
}

/// The text of an optional borrowed text.
pub open spec fn opt_str_text(o: Option<&str>) -> Option<Seq<char>> {
    match o {
        Some(s) => Some(s@),
        None => None,
    }
}

/// Whether two optional texts are both absent or hold the same text.
pub fn same_opt_text(a: &Option<String>, b: &Option<String>) -> (r: bool)
    ensures
        r == (opt_text(*a) == opt_text(*b)),
{
    match (a, b) {
        (Some(x), Some(y)) => compare_text(x.as_str(), y.as_str()) == 0,
        (None, None) => true,
        _ => false,
    }
}

/// Borrows the text of an optional text.
pub fn opt_as_str(o: &Option<String>) -> (r: Option<&str>)
    ensures
        opt_str_text(r) == opt_text(*o),
{
    match o {
        Some(s) => Some(s.as_str()),
        None => None,
    }
}

/// A coin as text: its amount in decimal followed by its denomination, as in `100nhash`.
pub open spec fn coin_text(c: Coin) -> Seq<char> {
    decimal_text(c.amount as nat) + c.denom@
}

/// A list of coins as text: each coin's text, joined with ", ".
pub open spec fn coins_text(coins: Seq<Coin>) -> Seq<char> {
    join_text(coins.map_values(|c: Coin| coin_text(c)), ", "@)
}

/// What a list of coins holds: each coin's denomination and amount.
pub open spec fn coins_view(coins: Seq<Coin>) -> Seq<(Seq<char>, u128)> {
    coins.map_values(|c: Coin| (c.denom@, c.amount))
}

impl Coin {
    /// The coin as text: its amount in decimal followed by its denomination.
    pub fn display(&self) -> (r: String)
        ensures
            r@ == coin_text(*self),
    {
        let mut r = decimal_string(self.amount);
        r.append(self.denom.as_str());
        r
    }
}

impl Coin {
    /// A copy of the coin.
    pub fn duplicate(&self) -> (r: Self)
        ensures
            r == *self,
    {
        Coin { denom: self.denom.clone(), amount: self.amount }
    }
}

/// A copy of a list of coins.
pub fn copy_coins(coins: &Vec<Coin>) -> (r: Vec<Coin>)
    ensures
        r@ == coins@,
{
    let mut r: Vec<Coin> = Vec::new();
    let mut i: usize = 0;
    while i < coins.len()
        invariant
            i <= coins.len(),
            r@ =~= coins@.take(i as int),
        decreases coins.len() - i,
    {
        r.push(coins[i].duplicate());
        assert(coins@.take(i + 1) =~= coins@.take(i as int).push(coins@[i as int]));
        i = i + 1;
    }
    assert(coins@.take(i as int) =~= coins@);
    r
}

/// A copy of a list of texts.
pub fn copy_texts(texts: &Vec<String>) -> (r: Vec<String>)
    ensures
        r@ == texts@,
{
    let mut r: Vec<String> = Vec::new();
    let mut i: usize = 0;
    while i < texts.len()
        invariant
            i <= texts.len(),
            r@ =~= texts@.take(i as int),
        decreases texts.len() - i,
    {
        r.push(texts[i].clone());
        assert(texts@.take(i + 1) =~= texts@.take(i as int).push(texts@[i as int]));
        i = i + 1;
    }
    assert(texts@.take(i as int) =~= texts@);
    r
}

/// Renders a list of coins, each as its amount followed by its denomination, joined with ", ".
pub fn render_coins(coins: &Vec<Coin>) -> (r: String)
    ensures
        r@ == coins_text(coins@),
{
    let mut texts: Vec<String> = Vec::new();
    let mut i: usize = 0;
    while i < coins.len()
        invariant
            i <= coins.len(),
            texts.deep_view() =~= coins@.map_values(|c: Coin| coin_text(c)).take(i as int),
        decreases coins.len() - i,
    {
        let t = coins[i].display();
        let ghost prev = texts.deep_view();
        texts.push(t);
        assert(texts.deep_view() =~= prev.push(t@));
        assert(coins@.map_values(|c: Coin| coin_text(c)).take(i + 1) =~= coins@.map_values(
            |c: Coin| coin_text(c),
        ).take(i as int).push(t@));
        i = i + 1;
    }
    assert(coins@.map_values(|c: Coin| coin_text(c)).take(i as int) =~= coins@.map_values(
        |c: Coin| coin_text(c),
    ));
    join_strings(&texts, ", ")
}

/// Whether two lists of coins hold the same denominations and amounts in the same order.
pub fn same_coins(a: &Vec<Coin>, b: &Vec<Coin>) -> (r: bool)
    ensures
        r == (coins_view(a@) == coins_view(b@)),
{
    if a.len() != b.len() {
        assert(coins_view(a@).len() != coins_view(b@).len());
        return false;
    }
    let mut i: usize = 0;
    while i < a.len()
        invariant
            a.len() == b.len(),
            i <= a.len(),
            forall|j: int| 0 <= j < i ==> coins_view(a@)[j] == coins_view(b@)[j],
        decreases a.len() - i,
    {
        if a[i].amount != b[i].amount || compare_text(a[i].denom.as_str(), b[i].denom.as_str()) != 0 {
            assert(coins_view(a@)[i as int] != coins_view(b@)[i as int]);
            return false;
        }
        i = i + 1;
    }
    assert(coins_view(a@) =~= coins_view(b@));
    true
}

} // verus!
