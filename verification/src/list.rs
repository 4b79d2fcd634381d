//! The list capability, its iterator, and the behaviour that every list
//! shares.

use crate::dynamic_list::DynamicList;
use crate::hash::mix_word;
use crate::info::{ListInfo, TypeId, TypeInfo};
use crate::kind::{ApplyError, ReflectKind};
use crate::model::{
    items_applied, items_debug, list_applied, list_debug_model, list_hash_model,
    list_partial_eq_model, mix_items, pairs_partial_eq, ValueModel, HASH_SEED,
};
use crate::value::Value;
use vstd::pervasive::unreached;
use vstd::prelude::*;
use vstd::string::StringExecFns;

verus! {

/// An ordered, variable-length collection of type-erased values.
///
/// The elements are addressed by position: the front element is at index 0
/// and the back element at `len() - 1`. The view of a list is the sequence of
/// its elements, front to back.
pub trait List {
    /// The elements of the list, front to back.
    spec fn view(&self) -> Seq<ValueModel>;

    /// Whether the list can store the value `v`.
    spec fn accepts(&self, v: ValueModel) -> bool;

    /// The list type that the list stands for, if it declares one.
    spec fn represented(&self) -> Option<ListInfo>;

    /// The identity of the concrete type of the list.
    spec fn list_type_id(&self) -> TypeId;

    /// The element at `index`, or `None` if there is none.
    fn get(&self, index: usize) -> (element: Option<&Value>)
        ensures
            index < self@.len() ==> (element matches Some(e) && e@ == self@[index as int]),
            index >= self@.len() ==> element is None,
            self@.len() <= usize::MAX,
    ;

    /// The element at `index`, to be changed in place, or `None` if there is
    /// none.
    fn get_mut(&mut self, index: usize) -> (element: Option<&mut Value>)
        ensures
            match element {
                Some(e) => index < old(self)@.len() && (*e)@ == old(self)@[index as int]
                    && final(self)@ == old(self)@.update(index as int, (*final(e))@),
                None => index >= old(self)@.len() && final(self)@ == old(self)@,
            },
            final(self).list_type_id() == old(self).list_type_id(),
            final(self).represented() == old(self).represented(),
            forall|v: ValueModel| final(self).accepts(v) == old(self).accepts(v),
    ;

    /// Inserts `element` at `index` and moves the elements from there on one
    /// place to the back.
    fn insert(&mut self, index: usize, element: Value)
        requires
            index <= old(self)@.len(),
            old(self).accepts(element@),
        ensures
            final(self)@ == old(self)@.insert(index as int, element@),
            final(self).list_type_id() == old(self).list_type_id(),
            final(self).represented() == old(self).represented(),
            forall|v: ValueModel| final(self).accepts(v) == old(self).accepts(v),
    ;

    /// Removes the element at `index`, returns it, and moves the elements
    /// behind it one place to the front.
    fn remove(&mut self, index: usize) -> (element: Value)
        requires
            index < old(self)@.len(),
        ensures
            element@ == old(self)@[index as int],
            final(self)@ == old(self)@.remove(index as int),
            final(self).list_type_id() == old(self).list_type_id(),
            final(self).represented() == old(self).represented(),
            forall|v: ValueModel| final(self).accepts(v) == old(self).accepts(v),
    ;

    /// Appends `value` to the back of the list.
    fn push(&mut self, value: Value)
        requires
            old(self).accepts(value@),
        ensures
            final(self)@ == old(self)@.push(value@),
            final(self).list_type_id() == old(self).list_type_id(),
            final(self).represented() == old(self).represented(),
            forall|v: ValueModel| final(self).accepts(v) == old(self).accepts(v),
    {
        let n = self.len();
        self.insert(n, value);
        assert(old(self)@.insert(n as int, value@) =~= old(self)@.push(value@));
    }

    /// Removes the back element and returns it, or `None` if the list is
    /// empty.
    fn pop(&mut self) -> (element: Option<Value>)
        ensures
            old(self)@.len() == 0 ==> element is None && final(self)@ == old(self)@,
            old(self)@.len() > 0 ==> (element matches Some(e) && e@ == old(self)@.last()
                && final(self)@ == old(self)@.drop_last()),
            final(self).list_type_id() == old(self).list_type_id(),
            final(self).represented() == old(self).represented(),
            forall|v: ValueModel| final(self).accepts(v) == old(self).accepts(v),
    {
        if self.is_empty() {
            None
        } else {
            let n = self.len();
            let e = self.remove(n - 1);
            assert(old(self)@.remove(n - 1) =~= old(self)@.drop_last());
            Some(e)
        }
    }

    /// The number of elements.
    fn len(&self) -> (n: usize)
        ensures
            n == self@.len(),
    ;

    /// Whether the list has no elements.
    fn is_empty(&self) -> (empty: bool)
        ensures
            empty == (self@.len() == 0),
    {
        self.len() == 0
    }

    /// The type that the list stands for, if it declares one.
    fn get_represented_type_info(&self) -> (info: Option<TypeInfo>)
        ensures
            info == described(self.represented()),
    ;

    /// The identity of the concrete type of the list.
    fn type_id(&self) -> (id: TypeId)
        ensures
            id == self.list_type_id(),
    ;

    /// An iterator over the elements, front to back.
    fn iter(&self) -> (it: ListIter<'_, Self>) where Self: Sized
        ensures
            it.list == self,
            it.index == 0,
    ;

    /// Takes the list apart into its elements, front to back.
    fn drain(self) -> (elements: Vec<Value>) where Self: Sized
        ensures
            elements@.len() == self@.len(),
            forall|i: int| 0 <= i < self@.len() ==> (#[trigger] elements@[i])@ == self@[i],
    ;

    /// A dynamic list with a clone of each element, which stands for the
    /// type that this list stands for.
    fn clone_dynamic(&self) -> (copy: DynamicList)
        ensures
            copy@ == self@,
            copy.spec_represented() == self.represented(),
    {
        let mut copy = DynamicList::default();
        copy.set_represented_type(self.get_represented_type_info());
        let n = self.len();
        let mut i: usize = 0;
        while i < n
            invariant
                n == self@.len(),
                i <= n,
                copy@ == self@.subrange(0, i as int),
                copy.spec_represented() == self.represented(),
            decreases n - i,
        {
            match self.get(i) {
                Some(value) => {
                    copy.push_box(value.clone_value());
                },
                None => {},
            }
            i += 1;
            assert(self@.subrange(0, i as int) =~= self@.subrange(0, i - 1).push(self@[i - 1]));
        }
        assert(self@.subrange(0, n as int) =~= self@);
        copy
    }
}

/// An iterator over the elements of a list, front to back.
///
/// Once it has returned `None` it returns `None` for ever, and its index
/// stays where it is.
pub struct ListIter<'a, L: ?Sized> {
    pub list: &'a L,
    pub index: usize,
}

impl<'a, L: List + ?Sized> ListIter<'a, L> {
    /// The elements of the list that the iterator walks.
    pub open spec fn items(&self) -> Seq<ValueModel> {
        self.list@
    }

    /// An iterator at the front of `list`.
    pub fn new(list: &'a L) -> (it: ListIter<'a, L>)
        ensures
            it.list == list,
            it.index == 0,
    {
        ListIter { list, index: 0 }
    }

    /// Whether the iterator has come past the back of the list.
    pub open spec fn exhausted(&self) -> bool {
        self.index >= self.items().len()
    }

    /// The element at the index, after which the index moves one on.
    ///
    /// An exhausted iterator returns `None` and stays as it is: it is still
    /// exhausted, and its index has not moved.
    pub fn next(&mut self) -> (element: Option<&'a Value>)
        ensures
            final(self).list == old(self).list,
            !old(self).exhausted() ==> (element matches Some(e)
                && e@ == old(self).items()[old(self).index as int]
                && final(self).index == old(self).index + 1),
            old(self).exhausted() ==> element is None && *final(self) == *old(self),
            old(self).exhausted() ==> final(self).exhausted(),
    {
        let value = self.list.get(self.index);
        if value.is_some() {
            self.index += 1;
        }
        value
    }

    /// The number of elements of the list, as the least and the greatest
    /// number of elements to come.
    pub fn size_hint(&self) -> (hint: (usize, Option<usize>))
        ensures
            hint.0 == self.items().len(),
            hint.1 == Some(hint.0),
    {
        let size = self.list.len();
        (size, Some(size))
    }
}

/// The description of a type that stands for the list type `info`.
pub open spec fn described(info: Option<ListInfo>) -> Option<TypeInfo> {
    match info {
        Some(list) => Some(TypeInfo::List(list)),
        None => None,
    }
}

/// Whether `b` can be applied to the list `a` without an element that the
/// list cannot store: every element of `b` past the back of `a` is one that
/// `a` accepts.
pub open spec fn can_take<L: List + ?Sized>(a: &L, b: ValueModel) -> bool {
    b matches ValueModel::List { items, .. } ==> forall|i: int|
        a@.len() <= i < items.len() ==> a.accepts(#[trigger] items[i])
}

/// Whether the two lists are of one concrete type, stand for one type and
/// accept the same values.
pub open spec fn same_list_type<L: List + ?Sized>(a: &L, b: &L) -> bool {
    &&& a.list_type_id() == b.list_type_id()
    &&& a.represented() == b.represented()
    &&& forall|v: ValueModel| a.accepts(v) == b.accepts(v)
}

/// The hash of a list: its concrete type, its length and the hash of each
/// element in order. `None` where an element has no hash.
pub fn list_hash<L: List>(list: &L) -> (hash: Option<u64>)
    ensures
        hash == list_hash_model(list.list_type_id(), list@),
{
    hash_elements(list, Ghost(list@))
}

/// The hash of the list `list`, whose elements are `items`.
pub(crate) fn hash_elements<L: List>(list: &L, Ghost(items): Ghost<Seq<ValueModel>>) -> (hash:
    Option<u64>)
    requires
        items == list@,
    ensures
        hash == list_hash_model(list.list_type_id(), list@),
    decreases items, 0nat,
{
    let seed = mix_word(HASH_SEED, list.type_id().id);
    let mut state = mix_word(seed, list.len() as u64);
    let mut it = list.iter();
    loop
        invariant
            items == list@,
            it.list == list,
            it.index <= list@.len(),
            mix_items(state, list@, it.index as int) == list_hash_model(
                list.list_type_id(),
                list@,
            ),
        decreases list@.len() - it.index,
    {
        match it.next() {
            Some(value) => {
                assert(decreases_to!(items => items[it.index - 1]));
                match value.reflect_hash() {
                    Some(word) => {
                        state = mix_word(state, word);
                    },
                    None => {
                        return None;
                    },
                }
            },
            None => {
                return Some(state);
            },
        }
    }
}

/// Applies the elements of `b` to the elements of `a` at the same positions,
/// and appends a clone of each element of `b` that is past the back of `a`.
///
/// `b` must be a list, and no element may fail to apply.
pub fn list_apply<L: List>(a: &mut L, b: &Value)
    requires
        can_take(old(a), b@),
        list_applied(old(a)@, b@).error is None,
    ensures
        final(a)@ == list_applied(old(a)@, b@).value,
        same_list_type(old(a), final(a)),
{
    match list_try_apply(a, b) {
        Ok(_) => {},
        Err(_) => unreached(),
    }
}

/// Applies the elements of `b` to the elements of `a` at the same positions,
/// and appends a clone of each element of `b` that is past the back of `a`.
///
/// Fails with [`ApplyError::MismatchedKinds`] where `b` is no list, and with
/// the error of the first element that fails to apply; the elements before
/// it have been applied by then.
pub fn list_try_apply<L: List>(a: &mut L, b: &Value) -> (applied: Result<(), ApplyError>)
    requires
        can_take(old(a), b@),
    ensures
        final(a)@ == list_applied(old(a)@, b@).value,
        match applied {
            Ok(_) => list_applied(old(a)@, b@).error is None,
            Err(error) => list_applied(old(a)@, b@).error == Some(error),
        },
        same_list_type(old(a), final(a)),
    decreases b@, 0nat,
{
    match b {
        Value::List(list_value) => {
            assert(b@->items == list_value@);
            let mut it = list_value.iter();
            loop
                invariant
                    it.list == list_value,
                    it.index <= list_value@.len(),
                    b@ matches ValueModel::List { items, .. } && items == list_value@,
                    same_list_type(old(a), a),
                    forall|i: int|
                        a@.len() <= i < list_value@.len() ==> a.accepts(
                            #[trigger] list_value@[i],
                        ),
                    items_applied(a@, list_value@, it.index as int) == list_applied(old(a)@, b@),
                decreases list_value@.len() - it.index,
            {
                let i = it.index;
                match it.next() {
                    Some(value) => {
                        if i < a.len() {
                            match a.get_mut(i) {
                                Some(v) => {
                                    assert(decreases_to!(b@ => b@->items));
                                    assert(decreases_to!(list_value@ => list_value@[i as int]));
                                    let result = v.try_apply(value);
                                    match result {
                                        Err(error) => {
                                            return Err(error);
                                        },
                                        Ok(_) => {},
                                    }
                                },
                                None => {},
                            }
                        } else {
                            a.push(value.clone_value());
                        }
                    },
                    None => {
                        return Ok(());
                    },
                }
            }
        },
        _ => Err(
            ApplyError::MismatchedKinds { from_kind: b.reflect_kind(), to_kind: ReflectKind::List },
        ),
    }
}

/// Partial equality of a list and a value.
///
/// `Some(false)` where `b` is no list or has another length. Else the
/// elements are compared in order, and the first pair that does not compare
/// `Some(true)` gives the result; `Some(true)` where every pair does.
pub fn list_partial_eq<L: List>(a: &L, b: &Value) -> (equal: Option<bool>)
    ensures
        equal == list_partial_eq_model(a@, b@),
    decreases b@, 0nat,
{
    let list = match b {
        Value::List(list) => list,
        _ => {
            return Some(false);
        },
    };
    if a.len() != list.len() {
        return Some(false);
    }
    let mut a_iter = a.iter();
    let mut b_iter = list.iter();
    loop
        invariant
            a_iter.list == a,
            b_iter.list == list,
            a_iter.index == b_iter.index,
            a_iter.index <= a@.len(),
            a@.len() == list@.len(),
            b@ matches ValueModel::List { items, .. } && items == list@,
            pairs_partial_eq(a@, list@, a_iter.index as int) == list_partial_eq_model(a@, b@),
        decreases a@.len() - a_iter.index,
    {
        let a_next = a_iter.next();
        let b_next = b_iter.next();
        match (a_next, b_next) {
            (Some(a_value), Some(b_value)) => {
                assert(decreases_to!(b@ => b@->items));
                assert(decreases_to!(list@ => list@[b_iter.index - 1]));
                let eq_result = a_value.reflect_partial_eq(b_value);
                match eq_result {
                    Some(true) => {},
                    failed => {
                        return failed;
                    },
                }
            },
            _ => {
                return Some(true);
            },
        }
    }
}

/// The debug text of a list: the debug text of each element in order,
/// separated by a comma and a space, in square brackets.
pub fn list_debug(dyn_list: &dyn List) -> (text: String)
    ensures
        text@ == list_debug_model(dyn_list@),
{
    let mut text = String::new();
    write_list_debug(dyn_list, &mut text, Ghost(dyn_list@));
    assert(text@ =~= list_debug_model(dyn_list@));
    text
}

/// Appends the debug text of the list `dyn_list`, whose elements are
/// `items`, to `out`.
pub(crate) fn write_list_debug<L: List + ?Sized>(
    dyn_list: &L,
    out: &mut String,
    Ghost(items): Ghost<Seq<ValueModel>>,
)
    requires
        items == dyn_list@,
    ensures
        final(out)@ == old(out)@ + list_debug_model(dyn_list@),
    decreases items, 0nat,
{
    out.append("[");
    let mut it = ListIter::new(dyn_list);
    loop
        invariant
            items == dyn_list@,
            it.list == dyn_list,
            it.index <= dyn_list@.len(),
            out@ + items_debug(dyn_list@, it.index as int) == old(out)@ + "["@ + items_debug(
                dyn_list@,
                0,
            ),
        ensures
            out@ == old(out)@ + "["@ + items_debug(dyn_list@, 0),
        decreases dyn_list@.len() - it.index,
    {
        let ghost before = out@;
        match it.next() {
            Some(item) => {
                assert(decreases_to!(items => items[it.index - 1]));
                item.write_debug(out);
                let (size, _) = it.size_hint();
                if it.index < size {
                    out.append(", ");
                    assert(out@ + items_debug(dyn_list@, it.index as int) =~= before + (
                    dyn_list@[it.index - 1].debug() + ", "@ + items_debug(
                        dyn_list@,
                        it.index as int,
                    )));
                } else {
                    assert(out@ + items_debug(dyn_list@, it.index as int) =~= before
                        + dyn_list@[it.index - 1].debug());
                }
            },
            None => {
                assert(out@ + items_debug(dyn_list@, it.index as int) =~= out@);
                break ;
            },
        }
    }
    out.append("]");
    assert(final(out)@ =~= old(out)@ + list_debug_model(dyn_list@));
}

} // verus!
