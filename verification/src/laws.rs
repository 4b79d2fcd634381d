//! What holds of the operations of the library, for all lists and values.

use crate::info::{ListInfo, TypeId};
use crate::model::{
    items_applied, list_applied, list_hash_model, list_partial_eq_model, mix, mix_items,
    pairs_partial_eq, typed_seed, ValueModel,
};
use vstd::prelude::*;

verus! {

/// Whether no opaque value stands in `v` or in a list inside it.
pub open spec fn comparable(v: ValueModel) -> bool
    decreases v,
{
    match v {
        ValueModel::Opaque { .. } => false,
        ValueModel::List { items, .. } => forall|i: int|
            0 <= i < items.len() ==> comparable(#[trigger] items[i]),
        _ => true,
    }
}

/// The pairs from position `i` on compare `Some(true)` together exactly when
/// each of them does.
pub proof fn lemma_pairs_true(a: Seq<ValueModel>, b: Seq<ValueModel>, i: int)
    requires
        0 <= i <= a.len(),
    ensures
        pairs_partial_eq(a, b, i) == Some(true) <==> forall|j: int|
            i <= j < a.len() ==> #[trigger] a[j].partial_eq(b[j]) == Some(true),
    decreases a.len() - i,
{
    if i < a.len() {
        lemma_pairs_true(a, b, i + 1);
        if a[i].partial_eq(b[i]) == Some(true) {
            if pairs_partial_eq(a, b, i) == Some(true) {
                assert forall|j: int| i <= j < a.len() implies #[trigger] a[j].partial_eq(b[j])
                    == Some(true) by {
                    if j > i {
                        assert(i + 1 <= j);
                    }
                }
            }
        }
    }
}

/// The pairs from position `i` on cannot be compared where one of them
/// cannot, and no pair from `i` up to that one compares `Some(false)`.
pub proof fn lemma_pairs_undecidable(a: Seq<ValueModel>, b: Seq<ValueModel>, i: int, k: int)
    requires
        a.len() == b.len(),
        0 <= i <= k < a.len(),
        a[k].partial_eq(b[k]) is None,
        forall|j: int| i <= j < k ==> #[trigger] a[j].partial_eq(b[j]) != Some(false),
    ensures
        pairs_partial_eq(a, b, i) is None,
    decreases k - i,
{
    if i < k {
        assert(a[i].partial_eq(b[i]) != Some(false));
        lemma_pairs_undecidable(a, b, i + 1, k);
    }
}

/// Two lists are partially equal exactly when they have one length and
/// every pair of elements at one position compares `Some(true)`.
pub proof fn law_partial_eq_true(
    a: Seq<ValueModel>,
    represented: Option<ListInfo>,
    b: Seq<ValueModel>,
)
    ensures
        list_partial_eq_model(a, ValueModel::List { represented, items: b }) == Some(true) <==> (
        a.len() == b.len() && forall|j: int|
            0 <= j < a.len() ==> #[trigger] a[j].partial_eq(b[j]) == Some(true)),
{
    lemma_pairs_true(a, b, 0);
}

/// Two lists of one length cannot be compared where a pair of elements
/// cannot, and no pair before it compares `Some(false)`.
pub proof fn law_partial_eq_undecidable(
    a: Seq<ValueModel>,
    represented: Option<ListInfo>,
    b: Seq<ValueModel>,
    k: int,
)
    requires
        a.len() == b.len(),
        0 <= k < a.len(),
        a[k].partial_eq(b[k]) is None,
        forall|j: int| 0 <= j < k ==> #[trigger] a[j].partial_eq(b[j]) != Some(false),
    ensures
        list_partial_eq_model(a, ValueModel::List { represented, items: b }) is None,
{
    lemma_pairs_undecidable(a, b, 0, k);
}

/// A list is not partially equal to a value that is no list.
pub proof fn law_partial_eq_other_kind(a: Seq<ValueModel>, b: ValueModel)
    requires
        !(b is List),
    ensures
        list_partial_eq_model(a, b) == Some(false),
{
}

/// A value with no opaque value inside is partially equal to itself.
pub proof fn lemma_comparable_reflexive(v: ValueModel)
    requires
        comparable(v),
    ensures
        v.partial_eq(v) == Some(true),
    decreases v, 0nat,
{
    match v {
        ValueModel::List { items, .. } => {
            lemma_pairs_reflexive(items, 0);
        },
        _ => {},
    }
}

/// The elements from position `i` on, with no opaque value inside, are
/// partially equal to themselves.
pub proof fn lemma_pairs_reflexive(items: Seq<ValueModel>, i: int)
    requires
        0 <= i <= items.len(),
        forall|j: int| 0 <= j < items.len() ==> comparable(#[trigger] items[j]),
    ensures
        pairs_partial_eq(items, items, i) == Some(true),
    decreases items, items.len() - i,
{
    if i < items.len() {
        lemma_comparable_reflexive(items[i]);
        lemma_pairs_reflexive(items, i + 1);
    }
}

/// The dynamic clone of a list is partially equal to the list, where no
/// opaque value stands in the list: the clone holds the elements `items`
/// of the list, whatever type it stands for.
pub proof fn law_clone_is_partial_eq(items: Seq<ValueModel>, represented: Option<ListInfo>)
    requires
        forall|j: int| 0 <= j < items.len() ==> comparable(#[trigger] items[j]),
    ensures
        list_partial_eq_model(items, ValueModel::List { represented, items }) == Some(true),
{
    lemma_pairs_reflexive(items, 0);
}

/// To insert at the back is to push.
pub proof fn law_insert_at_back_is_push(a: Seq<ValueModel>, v: ValueModel)
    ensures
        a.insert(a.len() as int, v) == a.push(v),
{
    assert(a.insert(a.len() as int, v) =~= a.push(v));
}

/// What applying the elements of `b` from position `i` on does to `a`,
/// where `a` has at least `i` elements.
pub proof fn lemma_items_applied(a: Seq<ValueModel>, b: Seq<ValueModel>, i: int)
    requires
        0 <= i <= a.len(),
    ensures
        ({
            let r = items_applied(a, b, i);
            &&& r.value.len() >= a.len()
            &&& b.len() <= a.len() ==> r.value.len() == a.len()
            &&& a.len() <= b.len() ==> r.value.len() <= b.len()
            &&& r.error is None && a.len() <= b.len() ==> r.value.len() == b.len()
            &&& forall|j: int| 0 <= j < i ==> #[trigger] r.value[j] == a[j]
            &&& forall|j: int| b.len() <= j < a.len() ==> #[trigger] r.value[j] == a[j]
            &&& r.error is None ==> forall|j: int|
                a.len() <= j < b.len() ==> #[trigger] r.value[j] == b[j]
        }),
    decreases b.len() - i,
{
    if i < b.len() {
        if i < a.len() {
            let step = a[i].applied(b[i]);
            let next = a.update(i, step.value);
            if step.error is None {
                lemma_items_applied(next, b, i + 1);
            }
        } else {
            let next = a.push(b[i]);
            lemma_items_applied(next, b, i + 1);
        }
    }
}

/// Applying a list with at least as many elements: where no element fails,
/// the list has the length of `b` afterwards, and past its old back it
/// holds the elements of `b` at those positions.
pub proof fn law_apply_longer(a: Seq<ValueModel>, represented: Option<ListInfo>, b: Seq<ValueModel>)
    requires
        a.len() <= b.len(),
        list_applied(a, ValueModel::List { represented, items: b }).error is None,
    ensures
        ({
            let after = list_applied(a, ValueModel::List { represented, items: b }).value;
            &&& after.len() == b.len()
            &&& forall|j: int| a.len() <= j < b.len() ==> #[trigger] after[j] == b[j]
        }),
{
    lemma_items_applied(a, b, 0);
}

/// Applying a list with fewer elements: the list keeps its length, and its
/// elements from the length of `b` on stay as they are.
pub proof fn law_apply_shorter(
    a: Seq<ValueModel>,
    represented: Option<ListInfo>,
    b: Seq<ValueModel>,
)
    requires
        b.len() <= a.len(),
    ensures
        ({
            let after = list_applied(a, ValueModel::List { represented, items: b }).value;
            &&& after.len() == a.len()
            &&& forall|j: int| b.len() <= j < a.len() ==> #[trigger] after[j] == a[j]
        }),
{
    lemma_items_applied(a, b, 0);
}

/// Applying a value that is no list changes nothing and fails.
pub proof fn law_apply_other_kind(a: Seq<ValueModel>, b: ValueModel)
    requires
        !(b is List),
    ensures
        list_applied(a, b).value == a,
        list_applied(a, b).error is Some,
{
}

/// The hash state after the elements from position `i` on is absent
/// exactly where one of them has no hash.
pub proof fn lemma_mix_items_absent(h: u64, items: Seq<ValueModel>, i: int)
    requires
        0 <= i <= items.len(),
    ensures
        mix_items(h, items, i) is None <==> exists|j: int|
            i <= j < items.len() && #[trigger] items[j].hash() is None,
    decreases items.len() - i,
{
    if i < items.len() {
        match items[i].hash() {
            Some(x) => {
                lemma_mix_items_absent(mix(h, x), items, i + 1);
                if mix_items(h, items, i) is None {
                    let j = choose|j: int|
                        i + 1 <= j < items.len() && #[trigger] items[j].hash() is None;
                    assert(i <= j < items.len() && items[j].hash() is None);
                } else {
                    assert forall|j: int| i <= j < items.len() implies !(
                    #[trigger] items[j].hash() is None) by {
                        if j > i {
                            assert(i + 1 <= j);
                        }
                    }
                }
            },
            None => {
                assert(i <= i < items.len() && items[i].hash() is None);
            },
        }
    }
}

/// A list has no hash exactly where one of its elements has none.
pub proof fn law_hash_absent(type_id: TypeId, items: Seq<ValueModel>)
    ensures
        list_hash_model(type_id, items) is None <==> exists|j: int|
            0 <= j < items.len() && #[trigger] items[j].hash() is None,
{
    lemma_mix_items_absent(mix(typed_seed(type_id.id), items.len() as u64), items, 0);
}

} // verus!
