//! A list of values of one type that keeps a few elements inline, on top of
//! `smallvec::SmallVec`.

use crate::info::{ListInfo, TypeId, TypeInfo, TypePath, SMALL_LIST_ID};
use crate::kind::{ApplyError, ReflectKind};
use crate::hash::mix_word;
use crate::list::{can_take, list_apply, list_partial_eq, list_try_apply, List, ListIter};
use crate::model::{list_applied, list_partial_eq_model, mix, ValueModel, HASH_SEED};
use crate::reflect::{FromReflect, Reflect};
use crate::value::Value;
use smallvec::SmallVec;
use std::marker::PhantomData;
use vstd::pervasive::unreached;
use vstd::prelude::*;

verus! {

/// A `smallvec::SmallVec` of values: up to eight inline, more on the heap.
#[verifier::external_body]
pub struct Storage {
    inner: SmallVec<[Value; 8]>,
}

/// The values that the storage holds, front to back.
pub uninterp spec fn stored(storage: Storage) -> Seq<Value>;

/// `SmallVec::new`: a vector that holds nothing.
#[verifier::external_body]
fn storage_new() -> (storage: Storage)
    ensures
        stored(storage) == Seq::<Value>::empty(),
{
    Storage { inner: SmallVec::new() }
}

/// `SmallVec::with_capacity`: a vector that holds nothing, with room for
/// `n` values. Like `Vec::with_capacity`, it stops the program where that
/// much memory cannot be had.
#[verifier::external_body]
fn storage_with_capacity(n: usize) -> (storage: Storage)
    ensures
        stored(storage) == Seq::<Value>::empty(),
{
    Storage { inner: SmallVec::with_capacity(n) }
}

/// `SmallVec::len`: the number of values held.
#[verifier::external_body]
fn storage_len(storage: &Storage) -> (n: usize)
    ensures
        n == stored(*storage).len(),
{
    storage.inner.len()
}

/// Indexing a `SmallVec`: the value at `index`, which must be in bounds.
#[verifier::external_body]
fn storage_get(storage: &Storage, index: usize) -> (value: &Value)
    requires
        index < stored(*storage).len(),
    ensures
        *value == stored(*storage)[index as int],
{
    &storage.inner[index]
}

/// Indexing a `SmallVec` mutably: the value at `index`, which must be in
/// bounds, to be changed in place; no other value changes.
#[verifier::external_body]
fn storage_get_mut(storage: &mut Storage, index: usize) -> (value: &mut Value)
    requires
        index < stored(*old(storage)).len(),
    ensures
        *value == stored(*old(storage))[index as int],
        stored(*final(storage)) == stored(*old(storage)).update(index as int, *final(value)),
{
    &mut storage.inner[index]
}

/// `SmallVec::insert`: puts `value` at `index`, which must not be past the
/// back, and moves the values from there on one place to the back. Like
/// `Vec::insert`, it stops the program where the memory for it cannot be
/// had.
#[verifier::external_body]
fn storage_insert(storage: &mut Storage, index: usize, value: Value)
    requires
        index <= stored(*old(storage)).len(),
    ensures
        stored(*final(storage)) == stored(*old(storage)).insert(index as int, value),
{
    storage.inner.insert(index, value);
}

/// `SmallVec::remove`: takes out the value at `index`, which must be in
/// bounds, and moves the values behind it one place to the front.
#[verifier::external_body]
fn storage_remove(storage: &mut Storage, index: usize) -> (value: Value)
    requires
        index < stored(*old(storage)).len(),
    ensures
        value == stored(*old(storage))[index as int],
        stored(*final(storage)) == stored(*old(storage)).remove(index as int),
{
    storage.inner.remove(index)
}

/// `SmallVec::push`: puts `value` behind the last value. Like `Vec::push`,
/// it stops the program where the memory for it cannot be had.
#[verifier::external_body]
fn storage_push(storage: &mut Storage, value: Value)
    ensures
        stored(*final(storage)) == stored(*old(storage)).push(value),
{
    storage.inner.push(value);
}

/// `SmallVec::pop`: takes out the last value, or returns `None` where
/// there is none.
#[verifier::external_body]
fn storage_pop(storage: &mut Storage) -> (value: Option<Value>)
    ensures
        stored(*old(storage)).len() == 0 ==> value is None && stored(*final(storage)) == stored(
            *old(storage),
        ),
        stored(*old(storage)).len() > 0 ==> value == Some(stored(*old(storage)).last()) && stored(
            *final(storage),
        ) == stored(*old(storage)).drop_last(),
{
    storage.inner.pop()
}

/// `SmallVec::into_vec`: the values held, front to back, as a `Vec`.
#[verifier::external_body]
fn storage_into_vec(storage: Storage) -> (values: Vec<Value>)
    ensures
        values@ == stored(storage),
{
    storage.inner.into_vec()
}

/// Whether `v` can become an item of the type `T`: it is a value of that
/// type, or one can be built from it.
pub open spec fn converts<T: FromReflect>(v: ValueModel) -> bool {
    T::is_instance(v) || T::rebuilds(v)
}

/// Makes `value` an item of the type `T`.
///
/// A value of the type `T` is taken as it is. From any other value an item
/// is built, where that can be done. Else `value` comes back unchanged.
pub fn convert<T: FromReflect>(value: Value) -> (converted: Result<Value, Value>)
    ensures
        match converted {
            Ok(item) => converts::<T>(value@) && item@ == value@ && T::is_instance(item@),
            Err(back) => !converts::<T>(value@) && back == value,
        },
{
    match T::take(value) {
        Ok(typed) => Ok(typed.into_value()),
        Err(value) => match T::from_reflect(&value) {
            Some(typed) => Ok(typed.into_value()),
            None => Err(value),
        },
    }
}

/// A list of values of the type `T` that keeps up to eight of them inline.
pub struct SmallList<T> {
    values: Storage,
    item: PhantomData<T>,
}

impl<T: FromReflect + TypePath> TypePath for SmallList<T> {
    open spec fn spec_type_path() -> &'static str {
        "reflect_list::SmallList"
    }

    open spec fn spec_short_type_path() -> &'static str {
        "SmallList"
    }

    open spec fn spec_type_id() -> TypeId {
        TypeId { id: mix(mix(HASH_SEED, SMALL_LIST_ID), T::spec_type_id().id) }
    }

    fn type_path() -> (path: &'static str) {
        "reflect_list::SmallList"
    }

    fn short_type_path() -> (path: &'static str) {
        "SmallList"
    }

    fn type_id() -> (id: TypeId) {
        TypeId { id: mix_word(mix_word(HASH_SEED, SMALL_LIST_ID), T::type_id().id) }
    }
}

impl<T: FromReflect + TypePath> SmallList<T> {
    /// The elements of the list, front to back.
    pub closed spec fn view(&self) -> Seq<ValueModel> {
        stored(self.values).map_values(|v: Value| v@)
    }

    /// Whether every element is a value of the type `T`.
    pub open spec fn uniform(&self) -> bool {
        forall|i: int| 0 <= i < self@.len() ==> T::is_instance(#[trigger] self@[i])
    }

    /// An empty list.
    pub fn new() -> (list: Self)
        ensures
            list@ == Seq::<ValueModel>::empty(),
            list.uniform(),
    {
        let list = SmallList { values: storage_new(), item: PhantomData };
        assert(list@ =~= Seq::<ValueModel>::empty());
        list
    }

    /// The description of this list type.
    pub fn type_info() -> (info: TypeInfo)
        ensures
            info == TypeInfo::List(ListInfo::spec_new::<SmallList<T>, T>()),
    {
        TypeInfo::List(ListInfo::describing::<SmallList<T>, T>())
    }

    /// Builds a list from the elements of the list `reflect`, each built
    /// anew as an item of the type `T`.
    ///
    /// `None` where `reflect` is no list, and where one of its elements
    /// cannot be built as an item: there is no list of a part of the
    /// elements.
    pub fn from_reflect(reflect: &Value) -> (built: Option<Self>)
        ensures
            match built {
                Some(list) => reflect@ matches ValueModel::List { items, .. } && list@ == items
                    && list.uniform() && forall|i: int|
                    0 <= i < items.len() ==> T::rebuilds(#[trigger] items[i]),
                None => reflect@ matches ValueModel::List { items, .. } ==> exists|i: int|
                    0 <= i < items.len() && !T::rebuilds(#[trigger] items[i]),
            },
    {
        match reflect {
            Value::List(ref_list) => {
                let mut new_list = SmallList {
                    values: storage_with_capacity(ref_list.len()),
                    item: PhantomData,
                };
                assert(new_list@ =~= Seq::<ValueModel>::empty());
                let mut it = ref_list.iter();
                loop
                    invariant
                        it.list == ref_list,
                        it.index <= ref_list@.len(),
                        reflect@ matches ValueModel::List { items, .. } && items == ref_list@,
                        new_list@ == ref_list@.subrange(0, it.index as int),
                        new_list.uniform(),
                        forall|i: int|
                            0 <= i < it.index ==> T::rebuilds(#[trigger] ref_list@[i]),
                    decreases ref_list@.len() - it.index,
                {
                    match it.next() {
                        Some(field) => {
                            match T::from_reflect(field) {
                                Some(item) => {
                                    let ghost before = new_list@;
                                    storage_push(&mut new_list.values, item.into_value());
                                    assert(new_list@ =~= before.push(field@));
                                    assert(new_list@ =~= ref_list@.subrange(0, it.index as int));
                                },
                                None => {
                                    assert(!T::rebuilds(ref_list@[it.index - 1]));
                                    return None;
                                },
                            }
                        },
                        None => {
                            assert(new_list@ =~= ref_list@);
                            return Some(new_list);
                        },
                    }
                }
            },
            _ => None,
        }
    }

    /// Applies the elements of the list `value` to the elements of this
    /// list, where that cannot fail.
    pub fn apply(&mut self, value: &Value)
        requires
            can_take(old(self), value@),
            list_applied(old(self)@, value@).error is None,
        ensures
            final(self)@ == list_applied(old(self)@, value@).value,
    {
        list_apply(self, value);
    }

    /// Applies the elements of the list `value` to the elements of this
    /// list.
    pub fn try_apply(&mut self, value: &Value) -> (applied: Result<(), ApplyError>)
        requires
            can_take(old(self), value@),
        ensures
            final(self)@ == list_applied(old(self)@, value@).value,
            match applied {
                Ok(_) => list_applied(old(self)@, value@).error is None,
                Err(error) => list_applied(old(self)@, value@).error == Some(error),
            },
    {
        list_try_apply(self, value)
    }

    /// The shape of the list, which is that of a list.
    pub fn reflect_kind(&self) -> (kind: ReflectKind)
        ensures
            kind == ReflectKind::List,
    {
        ReflectKind::List
    }

    /// A clone of the list as a dynamic list, erased.
    pub fn clone_value(&self) -> (copy: Value)
        ensures
            copy@ == (ValueModel::List {
                represented: Some(ListInfo::spec_new::<SmallList<T>, T>()),
                items: self@,
            }),
    {
        Value::List(self.clone_dynamic())
    }

    /// Partial equality of the list and `value`.
    pub fn reflect_partial_eq(&self, value: &Value) -> (equal: Option<bool>)
        ensures
            equal == list_partial_eq_model(self@, value@),
    {
        list_partial_eq(self, value)
    }
}

impl<T: FromReflect + TypePath> List for SmallList<T> {
    open spec fn view(&self) -> Seq<ValueModel> {
        SmallList::view(self)
    }

    open spec fn accepts(&self, v: ValueModel) -> bool {
        converts::<T>(v)
    }

    open spec fn represented(&self) -> Option<ListInfo> {
        Some(ListInfo::spec_new::<SmallList<T>, T>())
    }

    open spec fn list_type_id(&self) -> TypeId {
        <SmallList<T> as TypePath>::spec_type_id()
    }

    fn get(&self, index: usize) -> (element: Option<&Value>) {
        if index < storage_len(&self.values) {
            Some(storage_get(&self.values, index))
        } else {
            None
        }
    }

    fn get_mut(&mut self, index: usize) -> (element: Option<&mut Value>) {
        if index < storage_len(&self.values) {
            Some(storage_get_mut(&mut self.values, index))
        } else {
            None
        }
    }

    fn insert(&mut self, index: usize, value: Value)
        ensures
            old(self).uniform() ==> final(self).uniform(),
    {
        match convert::<T>(value) {
            Ok(item) => {
                storage_insert(&mut self.values, index, item);
                assert(final(self)@ =~= old(self)@.insert(index as int, value@));
            },
            Err(_) => unreached(),
        }
    }

    fn remove(&mut self, index: usize) -> (element: Value)
        ensures
            old(self).uniform() ==> final(self).uniform(),
    {
        let element = storage_remove(&mut self.values, index);
        assert(final(self)@ =~= old(self)@.remove(index as int));
        element
    }

    fn push(&mut self, value: Value)
        ensures
            old(self).uniform() ==> final(self).uniform(),
    {
        match convert::<T>(value) {
            Ok(item) => {
                storage_push(&mut self.values, item);
                assert(final(self)@ =~= old(self)@.push(value@));
            },
            Err(_) => unreached(),
        }
    }

    fn pop(&mut self) -> (element: Option<Value>)
        ensures
            old(self).uniform() ==> final(self).uniform(),
    {
        let element = storage_pop(&mut self.values);
        assert(old(self)@.len() > 0 ==> final(self)@ =~= old(self)@.drop_last());
        element
    }

    fn len(&self) -> (n: usize) {
        storage_len(&self.values)
    }

    fn get_represented_type_info(&self) -> (info: Option<TypeInfo>) {
        Some(TypeInfo::List(ListInfo::describing::<SmallList<T>, T>()))
    }

    fn type_id(&self) -> (id: TypeId) {
        <SmallList<T> as TypePath>::type_id()
    }

    fn iter(&self) -> (it: ListIter<'_, Self>) {
        ListIter { list: self, index: 0 }
    }

    fn drain(self) -> (elements: Vec<Value>) {
        storage_into_vec(self.values)
    }
}

} // verus!
