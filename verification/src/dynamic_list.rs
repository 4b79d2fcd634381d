//! The dynamic list: the list that can stand for any list.

use crate::info::{ListInfo, TypeId, TypeInfo, DYNAMIC_LIST_ID};
use crate::kind::{ApplyError, ReflectKind};
use crate::list::{
    described, list_apply, list_hash, list_partial_eq, list_try_apply, write_list_debug, List,
    ListIter,
};
use crate::model::{
    list_applied, list_debug_model, list_hash_model, list_partial_eq_model, ValueModel,
};
use crate::reflect::Reflect;
use crate::value::Value;
use vstd::pervasive::unreached;
use vstd::prelude::*;
use vstd::string::StringExecFns;

verus! {

/// A list of type-erased values.
///
/// It can hold values of any type side by side, and it may stand for a
/// list type that it is not itself: a clone of a list of another type is a
/// dynamic list that stands for the type of that list.
#[derive(Debug)]
pub struct DynamicList {
    represented_type: Option<ListInfo>,
    values: Vec<Value>,
}

impl DynamicList {
    /// An empty list that stands for no type.
    pub fn new() -> (list: DynamicList)
        ensures
            list@ == Seq::<ValueModel>::empty(),
            list.spec_represented() is None,
    {
        let list = DynamicList { represented_type: None, values: Vec::new() };
        assert(list@ =~= Seq::<ValueModel>::empty());
        list
    }

    /// Sets the type that the list stands for.
    ///
    /// The type must be a list type.
    pub fn set_represented_type(&mut self, represented_type: Option<TypeInfo>)
        requires
            represented_type matches Some(info) ==> info is List,
        ensures
            described(final(self).spec_represented()) == represented_type,
            final(self)@ == old(self)@,
    {
        self.represented_type = match represented_type {
            Some(TypeInfo::List(info)) => Some(info),
            Some(_) => unreached(),
            None => None,
        };
    }

    /// A list with a clone of each element, which stands for the same type.
    pub fn clone_dynamic(&self) -> (copy: DynamicList)
        ensures
            copy@ == self@,
            copy.spec_represented() == self.spec_represented(),
        decreases self@, 0nat,
    {
        let mut values: Vec<Value> = Vec::new();
        let n = self.values.len();
        let mut i: usize = 0;
        while i < n
            invariant
                n == self.values@.len(),
                i <= n,
                values@.len() == i,
                forall|j: int| 0 <= j < i ==> (#[trigger] values@[j])@ == self.values@[j]@,
            decreases n - i,
        {
            assert(self@[i as int] == self.values@[i as int]@);
            assert(decreases_to!(self@ => self@[i as int]));
            let value = self.values[i].clone_value();
            values.push(value);
            i += 1;
        }
        let copy = DynamicList { represented_type: self.represented_type, values };
        assert(copy@ =~= self@);
        copy
    }

    /// Appends a typed value to the list.
    pub fn push<T: Reflect>(&mut self, value: T)
        ensures
            final(self)@ == old(self)@.push(value.erased()),
            final(self).spec_represented() == old(self).spec_represented(),
    {
        self.values.push(value.into_value());
    }

    /// Applies the elements of the list `value` to the elements of this
    /// list, where that cannot fail.
    pub fn apply(&mut self, value: &Value)
        requires
            list_applied(old(self)@, value@).error is None,
        ensures
            final(self)@ == list_applied(old(self)@, value@).value,
            final(self).spec_represented() == old(self).spec_represented(),
    {
        list_apply(self, value);
    }

    /// Applies the elements of the list `value` to the elements of this
    /// list.
    pub fn try_apply(&mut self, value: &Value) -> (applied: Result<(), ApplyError>)
        ensures
            final(self)@ == list_applied(old(self)@, value@).value,
            match applied {
                Ok(_) => list_applied(old(self)@, value@).error is None,
                Err(error) => list_applied(old(self)@, value@).error == Some(error),
            },
            final(self).spec_represented() == old(self).spec_represented(),
    {
        list_try_apply(self, value)
    }

    /// Replaces this list by `value` if `value` is a dynamic list, and
    /// hands `value` back unchanged if it is not.
    pub fn set(&mut self, value: Value) -> (replaced: Result<(), Value>)
        ensures
            match replaced {
                Ok(_) => value == Value::List(*final(self)),
                Err(back) => !(value is List) && back == value && *final(self) == *old(self),
            },
    {
        match value {
            Value::List(list) => {
                *self = list;
                Ok(())
            },
            other => Err(other),
        }
    }

    /// The shape of a dynamic list, which is that of a list.
    pub fn reflect_kind(&self) -> (kind: ReflectKind)
        ensures
            kind == ReflectKind::List,
    {
        ReflectKind::List
    }

    /// A clone of the list, erased.
    pub fn clone_value(&self) -> (copy: Value)
        ensures
            copy@ == (ValueModel::List { represented: self.spec_represented(), items: self@ }),
    {
        Value::List(self.clone_dynamic())
    }

    /// The hash of the list, or `None` where an element has none.
    pub fn reflect_hash(&self) -> (hash: Option<u64>)
        ensures
            hash == list_hash_model(TypeId { id: DYNAMIC_LIST_ID }, self@),
    {
        list_hash(self)
    }

    /// Partial equality of the list and `value`.
    pub fn reflect_partial_eq(&self, value: &Value) -> (equal: Option<bool>)
        ensures
            equal == list_partial_eq_model(self@, value@),
    {
        list_partial_eq(self, value)
    }

    /// The debug text of the list.
    pub fn debug(&self) -> (text: String)
        ensures
            text@ == "DynamicList("@ + list_debug_model(self@) + ")"@,
    {
        let mut text = String::new();
        text.append("DynamicList(");
        write_list_debug(self, &mut text, Ghost(self@));
        text.append(")");
        assert(text@ =~= "DynamicList("@ + list_debug_model(self@) + ")"@);
        text
    }

    /// Whether the list is a dynamic stand-in for a value of another type;
    /// a dynamic list always is.
    pub fn is_dynamic(&self) -> (dynamic: bool)
        ensures
            dynamic,
    {
        true
    }

    /// The elements of the list, front to back.
    pub fn into_iter(self) -> (elements: Vec<Value>)
        ensures
            elements@.len() == self@.len(),
            forall|i: int| 0 <= i < self@.len() ==> (#[trigger] elements@[i])@ == self@[i],
    {
        self.values
    }

    /// Appends an erased value to the list.
    pub fn push_box(&mut self, value: Value)
        ensures
            final(self)@ == old(self)@.push(value@),
            final(self).spec_represented() == old(self).spec_represented(),
    {
        self.values.push(value);
    }
}


impl DynamicList {
    /// The elements of the list, front to back.
    pub closed spec fn view(&self) -> Seq<ValueModel>
        decreases self,
    {
        Seq::new(
            self.values@.len(),
            |i: int|
                if 0 <= i < self.values@.len() {
                    self.values@[i]@
                } else {
                    ValueModel::Unit
                },
        )
    }

    /// The type that the list stands for, if one was declared.
    pub closed spec fn spec_represented(&self) -> Option<ListInfo> {
        self.represented_type
    }
}

impl List for DynamicList {
    open spec fn view(&self) -> Seq<ValueModel> {
        DynamicList::view(self)
    }

    open spec fn accepts(&self, v: ValueModel) -> bool {
        true
    }

    open spec fn represented(&self) -> Option<ListInfo> {
        self.spec_represented()
    }

    open spec fn list_type_id(&self) -> TypeId {
        TypeId { id: DYNAMIC_LIST_ID }
    }

    fn get(&self, index: usize) -> (element: Option<&Value>) {
        if index < self.values.len() {
            Some(&self.values[index])
        } else {
            None
        }
    }

    fn get_mut(&mut self, index: usize) -> (element: Option<&mut Value>) {
        if index < self.values.len() {
            Some(&mut self.values[index])
        } else {
            None
        }
    }

    fn insert(&mut self, index: usize, element: Value) {
        self.values.insert(index, element);
    }

    fn remove(&mut self, index: usize) -> (element: Value) {
        self.values.remove(index)
    }

    fn push(&mut self, value: Value) {
        self.push_box(value);
    }

    fn pop(&mut self) -> (element: Option<Value>) {
        self.values.pop()
    }

    fn len(&self) -> (n: usize) {
        self.values.len()
    }

    fn get_represented_type_info(&self) -> (info: Option<TypeInfo>) {
        match self.represented_type {
            Some(info) => Some(TypeInfo::List(info)),
            None => None,
        }
    }

    fn type_id(&self) -> (id: TypeId) {
        TypeId { id: DYNAMIC_LIST_ID }
    }

    fn iter(&self) -> (it: ListIter<'_, Self>) {
        ListIter { list: self, index: 0 }
    }

    fn drain(self) -> (elements: Vec<Value>) {
        self.values
    }

    fn clone_dynamic(&self) -> (copy: DynamicList) {
        DynamicList::clone_dynamic(self)
    }
}

impl Default for DynamicList {
    fn default() -> (list: DynamicList)
        ensures
            list@ == Seq::<ValueModel>::empty(),
            list.spec_represented() is None,
    {
        DynamicList::new()
    }
}

} // verus!
