use vstd::prelude::*;

use crate::util::text::compare_text;

verus! {

/// The name bound for a validation type under the contract's naming root:
/// `"<validation_type>.<base_contract_name>"`.
pub fn generate_validation_definition_attribute_name(
    validation_type: &str,
    base_contract_name: &str,
) -> (r: String)
    ensures
        r@ == validation_type@ + seq!['.'] + base_contract_name@,
{
    let mut r = String::from_str(validation_type);
    proof {
        reveal_strlit(".");
    }
    r.append(".");
    r.append(base_contract_name);
    r
}

/// Whether two lists hold the same texts the same number of times, in any order.
pub fn equal_sets(a: &Vec<String>, b: &Vec<String>) -> (r: bool)
    ensures
        r == (a.deep_view().to_multiset() == b.deep_view().to_multiset()),
{
    broadcast use vstd::seq_lib::group_to_multiset_ensures, vstd::multiset::group_multiset_axioms;

    let mut rest: Vec<String> = Vec::new();
    let mut k: usize = 0;
    while k < b.len()
        invariant
            k <= b.len(),
            rest.deep_view() =~= b.deep_view().take(k as int),
        decreases b.len() - k,
    {
        let t = b[k].clone();
        let ghost prev = rest.deep_view();
        rest.push(t);
        assert(rest.deep_view() =~= prev.push(t@));
        assert(b.deep_view().take(k + 1) =~= b.deep_view().take(k as int).push(t@));
        k = k + 1;
    }
    assert(b.deep_view().take(k as int) =~= b.deep_view());
    let mut i: usize = 0;
    while i < a.len()
        invariant
            i <= a.len(),
            a.deep_view().take(i as int).to_multiset().add(rest.deep_view().to_multiset())
                =~= b.deep_view().to_multiset(),
        decreases a.len() - i,
    {
        let ghost x = a.deep_view()[i as int];
        assert(a.deep_view().take(i + 1) =~= a.deep_view().take(i as int).push(x));
        let mut j: usize = 0;
        let mut found = false;
        while j < rest.len() && !found
            invariant
                i < a.len(),
                x == a.deep_view()[i as int],
                a.deep_view().take(i as int).to_multiset().add(rest.deep_view().to_multiset())
                    =~= b.deep_view().to_multiset(),
                j <= rest.len(),
                found ==> j > 0 && rest.deep_view()[j - 1] == x,
                !found ==> forall|m: int| 0 <= m < j ==> rest.deep_view()[m] != x,
            decreases rest.len() - j + (if found { 0int } else { 1int }),
        {
            if compare_text(rest[j].as_str(), a[i].as_str()) == 0 {
                found = true;
            }
            j = j + 1;
        }
        if !found {
            assert(!rest.deep_view().contains(x));
            assert(a.deep_view() =~= a.deep_view().take(i as int).push(x) + a.deep_view().skip(i + 1));
            proof {
                vstd::seq_lib::lemma_multiset_commutative(
                    a.deep_view().take(i as int).push(x),
                    a.deep_view().skip(i + 1),
                );
                vstd::seq_lib::to_multiset_build(a.deep_view().take(i as int), x);
                vstd::seq_lib::to_multiset_contains(rest.deep_view(), x);
            }
            assert(a.deep_view().to_multiset().count(x) > b.deep_view().to_multiset().count(x));
            assert(a.deep_view().to_multiset() != b.deep_view().to_multiset());
            return false;
        }
        let ghost before = rest.deep_view();
        rest.remove(j - 1);
        assert(rest.deep_view() =~= before.remove(j - 1));
        proof {
            vstd::seq_lib::to_multiset_remove(before, j - 1);
            vstd::seq_lib::to_multiset_build(a.deep_view().take(i as int), x);
            assert(before.contains(x));
            vstd::seq_lib::to_multiset_contains(before, x);
            let m = a.deep_view().take(i as int).to_multiset();
            let n = before.to_multiset();
            assert(m.insert(x).add(n.remove(x)) =~= m.add(n));
        }
        assert(a.deep_view().take(i + 1).to_multiset() =~= a.deep_view().take(i as int).to_multiset().insert(x));
        i = i + 1;
    }
    assert(a.deep_view().take(i as int) =~= a.deep_view());
    proof {
        vstd::seq_lib::to_multiset_len(rest.deep_view());
        vstd::seq_lib::to_multiset_len(a.deep_view());
        vstd::seq_lib::to_multiset_len(b.deep_view());
    }
    if rest.len() == 0 {
        assert(rest.deep_view().to_multiset() =~= vstd::multiset::Multiset::<Seq<char>>::empty());
        assert(a.deep_view().to_multiset().add(rest.deep_view().to_multiset()) =~= a.deep_view().to_multiset());
        true
    } else {
        assert(b.deep_view().to_multiset().len() > a.deep_view().to_multiset().len());
        assert(a.deep_view().to_multiset() != b.deep_view().to_multiset());
        false
    }
}

} // verus!
