use vstd::prelude::*;

use crate::storage::indexed_store::IndexedStore;
use crate::types::error::{describe, ContractError};
use crate::types::request::validation_request::{ValidationRequestOrder, ValidationRequestStatus};
use crate::util::text::compare_text;
use std::cmp::Ordering;

verus! {

/// The store of validation requests is well formed and holds each request under its id; every
/// stored request has an id, an owner and a scope.
pub open spec fn requests_keyed(store: &IndexedStore<ValidationRequestOrder>) -> bool {
    &&& store.well_formed()
    &&& forall|k: Seq<char>| #[trigger] store@.contains_key(k) ==> store@[k].id@ == k
    &&& forall|k: Seq<char>| #[trigger] store@.contains_key(k) ==> store@[k].is_complete()
}

/// Adds a complete request under its id; fails if a request with that id exists.
pub fn insert_request(
    store: &mut IndexedStore<ValidationRequestOrder>,
    request: ValidationRequestOrder,
) -> (r: Result<(), ContractError>)
    requires
        requests_keyed(old(store)),
        request.is_complete(),
    ensures
        requests_keyed(final(store)),
        r is Ok <==> !old(store)@.contains_key(request.id@),
        r is Ok ==> final(store)@ == old(store)@.insert(request.id@, request),
        r is Err ==> r->Err_0 is RecordAlreadyExists && final(store)@ == old(store)@,
{
    let key = request.id.clone();
    let id = request.id.clone();
    if store.insert(key, request) {
        Ok(())
    } else {
        Err(
            ContractError::RecordAlreadyExists {
                explanation: describe("a request already exists with id", id.as_str()),
            },
        )
    }
}

/// Replaces the request stored under the same id by a complete one; fails if there is none.
pub fn update_request(
    store: &mut IndexedStore<ValidationRequestOrder>,
    request: ValidationRequestOrder,
) -> (r: Result<(), ContractError>)
    requires
        requests_keyed(old(store)),
        request.is_complete(),
    ensures
        requests_keyed(final(store)),
        r is Ok <==> old(store)@.contains_key(request.id@),
        r is Ok ==> final(store)@ == old(store)@.insert(request.id@, request),
        r is Err ==> r->Err_0 is RecordNotFound && final(store)@ == old(store)@,
{
    if store.contains(request.id.as_str()) {
        let key = request.id.clone();
        store.replace(key, request);
        Ok(())
    } else {
        Err(
            ContractError::RecordNotFound {
                explanation: describe("no request exists with id", request.id.as_str()),
            },
        )
    }
}

/// The request stored under `id`, if any.
pub fn may_get_request<'a>(store: &'a IndexedStore<ValidationRequestOrder>, id: &str) -> (r: Option<
    &'a ValidationRequestOrder,
>)
    requires
        requests_keyed(store),
    ensures
        r is None <==> !store@.contains_key(id@),
        r matches Some(v) ==> *v == store@[id@],
{
    store.maybe_load(id)
}

/// The request stored under `id`; fails if there is none.
pub fn get_request<'a>(store: &'a IndexedStore<ValidationRequestOrder>, id: &str) -> (r: Result<
    &'a ValidationRequestOrder,
    ContractError,
>)
    requires
        requests_keyed(store),
    ensures
        r is Err <==> !store@.contains_key(id@),
        r matches Ok(v) ==> *v == store@[id@],
        r matches Err(e) ==> e is RecordNotFound,
{
    match store.maybe_load(id) {
        Some(v) => Ok(v),
        None => Err(
            ContractError::RecordNotFound {
                explanation: describe("no request exists with id", id),
            },
        ),
    }
}

/// Removes the request stored under `id`; fails if there is none.
pub fn delete_request_by_id(store: &mut IndexedStore<ValidationRequestOrder>, id: &str) -> (r:
    Result<(), ContractError>)
    requires
        requests_keyed(old(store)),
    ensures
        requests_keyed(final(store)),
        r is Ok <==> old(store)@.contains_key(id@),
        final(store)@ == old(store)@.remove(id@),
        r matches Err(e) ==> e is RecordNotFound,
{
    match store.remove(id) {
        Some(_) => Ok(()),
        None => Err(
            ContractError::RecordNotFound {
                explanation: describe("no request exists with id", id),
            },
        ),
    }
}

/// Whether a list of addresses holds `address`.
pub open spec fn lists_address(list: Seq<String>, address: Seq<char>) -> bool {
    exists|j: int| 0 <= j < list.len() && list[j]@ == address
}

/// Whether a request may be fulfilled by `validator` by name: it lists its allowed validators
/// and `validator` is among them.
pub open spec fn names_validator(request: ValidationRequestOrder, validator: Seq<char>) -> bool {
    match request.allowed_validators {
        Some(list) => lists_address(list@, validator),
        None => false,
    }
}

/// Whether `list` holds `address`.
pub fn contains_address(list: &Vec<String>, address: &str) -> (r: bool)
    ensures
        r == lists_address(list@, address@),
{
    let mut i: usize = 0;
    while i < list.len()
        invariant
            i <= list.len(),
            forall|j: int| 0 <= j < i ==> list@[j]@ != address@,
        decreases list.len() - i,
    {
        if compare_text(list[i].as_str(), address) == 0 {
            return true;
        }
        i = i + 1;
    }
    false
}

/// The requests of `owner`, in id order.
pub open spec fn requests_of_owner(records: Seq<ValidationRequestOrder>, owner: Seq<char>) -> Seq<
    ValidationRequestOrder,
> {
    records.filter(|r: ValidationRequestOrder| r.owner@ == owner)
}

/// The requests in `status`, in id order.
pub open spec fn requests_in_status(
    records: Seq<ValidationRequestOrder>,
    status: ValidationRequestStatus,
) -> Seq<ValidationRequestOrder> {
    records.filter(|r: ValidationRequestOrder| r.status == status)
}

/// The requests that name `validator` among their allowed validators, in id order.
pub open spec fn requests_naming_validator(
    records: Seq<ValidationRequestOrder>,
    validator: Seq<char>,
) -> Seq<ValidationRequestOrder> {
    records.filter(|r: ValidationRequestOrder| names_validator(r, validator))
}

/// Whether `compare` can be called on any two requests, gives one answer for each pair, and
/// answers `Less` for the reverse of a pair it answers `Greater`.
pub open spec fn consistent_comparator<C: Fn(&ValidationRequestOrder, &ValidationRequestOrder) -> Ordering>(
    compare: C,
) -> bool {
    &&& forall|a: &ValidationRequestOrder, b: &ValidationRequestOrder| #[trigger] compare.requires((a, b))
    &&& forall|a: &ValidationRequestOrder, b: &ValidationRequestOrder, o1: Ordering, o2: Ordering|
        #[trigger] compare.ensures((a, b), o1) && #[trigger] compare.ensures((a, b), o2) ==> o1 == o2
    &&& forall|a: &ValidationRequestOrder, b: &ValidationRequestOrder|
        #[trigger] compare.ensures((a, b), Ordering::Greater) ==> compare.ensures(
            (b, a),
            Ordering::Less,
        )
}

/// Whether `compare` never ranks an item of `items` after the item that follows it.
pub open spec fn sorted_by<C: Fn(&ValidationRequestOrder, &ValidationRequestOrder) -> Ordering>(
    compare: C,
    items: Seq<&ValidationRequestOrder>,
) -> bool {
    forall|i: int|
        0 <= i < items.len() - 1 ==> !#[trigger] compare.ensures(
            (items[i], items[i + 1]),
            Ordering::Greater,
        )
}

/// Sorts requests with `compare`, keeping items that it ranks equal in their order.
fn sort_requests<'a, C: Fn(&ValidationRequestOrder, &ValidationRequestOrder) -> Ordering>(
    items: Vec<&'a ValidationRequestOrder>,
    compare: C,
) -> (r: Vec<&'a ValidationRequestOrder>)
    requires
        consistent_comparator(compare),
    ensures
        sorted_by(compare, r@),
        r@.to_multiset() == items@.to_multiset(),
{
    broadcast use vstd::seq_lib::group_to_multiset_ensures;

    let mut sorted: Vec<&ValidationRequestOrder> = Vec::new();
    let mut i: usize = 0;
    while i < items.len()
        invariant
            consistent_comparator(compare),
            i <= items.len(),
            sorted_by(compare, sorted@),
            sorted@.to_multiset() == items@.take(i as int).to_multiset(),
        decreases items.len() - i,
    {
        let x = items[i];
        let mut j: usize = sorted.len();
        while j > 0
            invariant
                consistent_comparator(compare),
                i < items.len(),
                x == items@[i as int],
                sorted_by(compare, sorted@),
                sorted@.to_multiset() == items@.take(i as int).to_multiset(),
                j <= sorted.len(),
                j < sorted.len() ==> compare.ensures((sorted@[j as int], x), Ordering::Greater),
            ensures
                j <= sorted.len(),
                j < sorted.len() ==> compare.ensures((sorted@[j as int], x), Ordering::Greater),
                j > 0 ==> !compare.ensures((sorted@[j - 1], x), Ordering::Greater),
            decreases j,
        {
            let o = compare(sorted[j - 1], x);
            match o {
                Ordering::Greater => {
                    j = j - 1;
                },
                _ => {
                    break ;
                },
            }
        }
        let ghost before = sorted@;
        sorted.insert(j, x);
        assert(sorted@ =~= before.insert(j as int, x));
        assert forall|k: int| 0 <= k < sorted@.len() - 1 implies !#[trigger] compare.ensures(
            (sorted@[k], sorted@[k + 1]),
            Ordering::Greater,
        ) by {
            if k + 1 < j {
                assert(sorted@[k] == before[k] && sorted@[k + 1] == before[k + 1]);
                assert(!compare.ensures((before[k], before[k + 1]), Ordering::Greater));
            } else if k + 1 == j {
                assert(sorted@[k] == before[k] && sorted@[k + 1] == x);
                assert(!compare.ensures((before[j - 1], x), Ordering::Greater));
            } else if k == j {
                assert(sorted@[k] == x && sorted@[k + 1] == before[k]);
                assert(compare.ensures((before[k], x), Ordering::Greater));
                assert(compare.ensures((x, before[k]), Ordering::Less));
                if compare.ensures((x, before[k]), Ordering::Greater) {
                    assert(Ordering::Less == Ordering::Greater);
                }
            } else {
                assert(sorted@[k] == before[k - 1] && sorted@[k + 1] == before[k]);
                let m = k - 1;
                assert(!compare.ensures((before[m], before[m + 1]), Ordering::Greater));
                assert(m + 1 == k);
            }
        }
        proof {
            vstd::seq_lib::to_multiset_insert(before, j as int, x);
            vstd::seq_lib::to_multiset_build(items@.take(i as int), x);
        }
        assert(items@.take(i + 1) =~= items@.take(i as int).push(x));
        i = i + 1;
    }
    assert(items@.take(i as int) =~= items@);
    sorted
}

/// Whether a list of borrowed requests is, item by item, `expected`.
pub open spec fn same_requests(r: Seq<&ValidationRequestOrder>, expected: Seq<ValidationRequestOrder>) -> bool {
    r.len() == expected.len() && forall|i: int| 0 <= i < r.len() ==> *r[i] == expected[i]
}

/// All requests of `owner`, in id order.
pub fn get_requests_by_owner<'a, C: Fn(&ValidationRequestOrder, &ValidationRequestOrder) -> Ordering>(store: &'a IndexedStore<ValidationRequestOrder>, owner: &str, compare: Option<C>) -> (r:
    Vec<&'a ValidationRequestOrder>)
    requires
        requests_keyed(store),
        compare matches Some(c) ==> consistent_comparator(c),
    ensures
        compare is None ==> same_requests(r@, requests_of_owner(store.records(), owner@)),
        compare matches Some(c) ==> sorted_by(c, r@) && exists|u: Seq<&ValidationRequestOrder>|
            #[trigger] same_requests(u, requests_of_owner(store.records(), owner@)) && u.to_multiset() == r@.to_multiset(),
{
    let mut out: Vec<&ValidationRequestOrder> = Vec::new();
    let mut i: usize = 0;
    let n = store.len();
    while i < n
        invariant
            n == store.records().len(),
            i <= n,
            same_requests(out@, requests_of_owner(store.records().take(i as int), owner@)),
        decreases n - i,
    {
        let request = store.record_at(i);
        proof {
            reveal(Seq::filter);
            assert(store.records().take(i + 1).drop_last() =~= store.records().take(i as int));
        }
        if compare_text(request.owner.as_str(), owner) == 0 {
            out.push(request);
        }
        i = i + 1;
    }
    assert(store.records().take(n as int) =~= store.records());
    match compare {
        None => out,
        Some(c) => {
            let ghost unsorted = out@;
            let sorted = sort_requests(out, c);
            assert(same_requests(unsorted, requests_of_owner(store.records(), owner@)));
            sorted
        },
    }
}

/// All requests in `status`, in id order.
pub fn get_requests_by_status<'a, C: Fn(&ValidationRequestOrder, &ValidationRequestOrder) -> Ordering>(
    store: &'a IndexedStore<ValidationRequestOrder>,
    status: ValidationRequestStatus, compare: Option<C>) -> (r: Vec<&'a ValidationRequestOrder>)
    requires
        requests_keyed(store),
        compare matches Some(c) ==> consistent_comparator(c),
    ensures
        compare is None ==> same_requests(r@, requests_in_status(store.records(), status)),
        compare matches Some(c) ==> sorted_by(c, r@) && exists|u: Seq<&ValidationRequestOrder>|
            #[trigger] same_requests(u, requests_in_status(store.records(), status)) && u.to_multiset() == r@.to_multiset(),
{
    let mut out: Vec<&ValidationRequestOrder> = Vec::new();
    let mut i: usize = 0;
    let n = store.len();
    while i < n
        invariant
            n == store.records().len(),
            i <= n,
            same_requests(out@, requests_in_status(store.records().take(i as int), status)),
        decreases n - i,
    {
        let request = store.record_at(i);
        proof {
            reveal(Seq::filter);
            assert(store.records().take(i + 1).drop_last() =~= store.records().take(i as int));
        }
        if request.status == status {
            out.push(request);
        }
        i = i + 1;
    }
    assert(store.records().take(n as int) =~= store.records());
    match compare {
        None => out,
        Some(c) => {
            let ghost unsorted = out@;
            let sorted = sort_requests(out, c);
            assert(same_requests(unsorted, requests_in_status(store.records(), status)));
            sorted
        },
    }
}

/// All requests that name `validator` among their allowed validators, in id order.
pub fn get_requests_by_validator<'a, C: Fn(&ValidationRequestOrder, &ValidationRequestOrder) -> Ordering>(
    store: &'a IndexedStore<ValidationRequestOrder>,
    validator: &str, compare: Option<C>) -> (r: Vec<&'a ValidationRequestOrder>)
    requires
        requests_keyed(store),
        compare matches Some(c) ==> consistent_comparator(c),
    ensures
        compare is None ==> same_requests(r@, requests_naming_validator(store.records(), validator@)),
        compare matches Some(c) ==> sorted_by(c, r@) && exists|u: Seq<&ValidationRequestOrder>|
            #[trigger] same_requests(u, requests_naming_validator(store.records(), validator@)) && u.to_multiset() == r@.to_multiset(),
{
    let mut out: Vec<&ValidationRequestOrder> = Vec::new();
    let mut i: usize = 0;
    let n = store.len();
    while i < n
        invariant
            n == store.records().len(),
            i <= n,
            same_requests(
                out@,
                requests_naming_validator(store.records().take(i as int), validator@),
            ),
        decreases n - i,
    {
        let request = store.record_at(i);
        proof {
            reveal(Seq::filter);
            assert(store.records().take(i + 1).drop_last() =~= store.records().take(i as int));
        }
        let allowed = match &request.allowed_validators {
            Some(list) => contains_address(list, validator),
            None => false,
        };
        if allowed {
            out.push(request);
        }
        i = i + 1;
    }
    assert(store.records().take(n as int) =~= store.records());
    match compare {
        None => out,
        Some(c) => {
            let ghost unsorted = out@;
            let sorted = sort_requests(out, c);
            assert(same_requests(unsorted, requests_naming_validator(store.records(), validator@)));
            sorted
        },
    }
}

} // verus!
