//! Type-erased values.

use crate::dynamic_list::DynamicList;
use crate::info::{
    TypeId, BOOL_ID, DYNAMIC_LIST_ID, I32_ID, I64_ID, STRING_ID, U32_ID, U64_ID, UNIT_ID,
    USIZE_ID,
};
use crate::kind::{ApplyError, ReflectKind};
use crate::hash::{mix_signed_word, mix_str, mix_word};
use crate::list::{hash_elements, list_partial_eq, list_try_apply, write_list_debug};
use crate::model::{list_debug_model, nat_text, ValueModel, HASH_SEED};
use crate::reflect::Reflect;
use crate::render::{push_int, push_nat};
use vstd::pervasive::unreached;
use vstd::prelude::*;
use vstd::string::StringExecFns;

verus! {

/// A value of a type that the library cannot look into.
#[derive(Clone, Copy, Debug)]
pub struct Opaque {
    pub type_id: TypeId,
    pub token: u64,
}

/// An owned value whose concrete type is known only at run time.
#[derive(Debug)]
pub enum Value {
    Unit,
    Bool(bool),
    U32(u32),
    U64(u64),
    Usize(usize),
    I32(i32),
    I64(i64),
    Str(String),
    Opaque(Opaque),
    List(DynamicList),
}

impl View for Value {
    type V = ValueModel;

    open spec fn view(&self) -> ValueModel
        decreases self,
    {
        match self {
            Value::Unit => ValueModel::Unit,
            Value::Bool(b) => ValueModel::Bool(*b),
            Value::U32(n) => ValueModel::U32(*n),
            Value::U64(n) => ValueModel::U64(*n),
            Value::Usize(n) => ValueModel::Usize(*n),
            Value::I32(n) => ValueModel::I32(*n),
            Value::I64(n) => ValueModel::I64(*n),
            Value::Str(s) => ValueModel::Str(s@),
            Value::Opaque(o) => ValueModel::Opaque { type_id: o.type_id, token: o.token },
            Value::List(l) => ValueModel::List { represented: l.spec_represented(), items: l@ },
        }
    }
}

impl Value {
    /// The typed value that this value holds, if it is of the type `T`;
    /// else the value itself, unchanged.
    pub fn take<T: Reflect>(self) -> (taken: Result<T, Value>)
        ensures
            match taken {
                Ok(typed) => T::is_instance(self@) && typed.erased() == self@,
                Err(back) => !T::is_instance(self@) && back == self,
            },
    {
        T::take(self)
    }

    /// The list that this value is, if it is one.
    pub fn as_list(&self) -> (list: Option<&DynamicList>)
        ensures
            match list {
                Some(l) => *self == Value::List(*l),
                None => !(self is List),
            },
    {
        match self {
            Value::List(l) => Some(l),
            _ => None,
        }
    }

    /// The list that this value is, if it is one, to be changed in place.
    pub fn as_list_mut(&mut self) -> (list: Option<&mut DynamicList>)
        ensures
            match list {
                Some(l) => *old(self) == Value::List(*l) && *final(self) == Value::List(*final(l)),
                None => !(*old(self) is List) && *final(self) == *old(self),
            },
    {
        match self {
            Value::List(l) => Some(l),
            _ => None,
        }
    }

    /// The shape of the value.
    pub fn reflect_kind(&self) -> (kind: ReflectKind)
        ensures
            kind == self@.kind(),
    {
        match self {
            Value::List(_) => ReflectKind::List,
            _ => ReflectKind::Value,
        }
    }

    /// The identity of the concrete type of the value.
    pub fn type_id(&self) -> (id: TypeId)
        ensures
            id == self@.type_id(),
    {
        match self {
            Value::Unit => TypeId { id: UNIT_ID },
            Value::Bool(_) => TypeId { id: BOOL_ID },
            Value::U32(_) => TypeId { id: U32_ID },
            Value::U64(_) => TypeId { id: U64_ID },
            Value::Usize(_) => TypeId { id: USIZE_ID },
            Value::I32(_) => TypeId { id: I32_ID },
            Value::I64(_) => TypeId { id: I64_ID },
            Value::Str(_) => TypeId { id: STRING_ID },
            Value::Opaque(o) => o.type_id,
            Value::List(_) => TypeId { id: DYNAMIC_LIST_ID },
        }
    }

    /// The path of the concrete type of the value.
    pub fn reflect_type_path(&self) -> (path: &'static str)
        ensures
            path == self@.type_path(),
    {
        match self {
            Value::Unit => "()",
            Value::Bool(_) => "bool",
            Value::U32(_) => "u32",
            Value::U64(_) => "u64",
            Value::Usize(_) => "usize",
            Value::I32(_) => "i32",
            Value::I64(_) => "i64",
            Value::Str(_) => "alloc::string::String",
            Value::Opaque(_) => "opaque",
            Value::List(_) => "reflect_list::DynamicList",
        }
    }

    /// Whether the two values are of one variant, and, where they are
    /// opaque, of one type.
    pub fn same_type(&self, other: &Value) -> (same: bool)
        ensures
            same == self@.same_type(other@),
    {
        match (self, other) {
            (Value::Unit, Value::Unit) => true,
            (Value::Bool(_), Value::Bool(_)) => true,
            (Value::U32(_), Value::U32(_)) => true,
            (Value::U64(_), Value::U64(_)) => true,
            (Value::Usize(_), Value::Usize(_)) => true,
            (Value::I32(_), Value::I32(_)) => true,
            (Value::I64(_), Value::I64(_)) => true,
            (Value::Str(_), Value::Str(_)) => true,
            (Value::Opaque(a), Value::Opaque(b)) => a.type_id == b.type_id,
            (Value::List(_), Value::List(_)) => true,
            _ => false,
        }
    }

    /// Partial equality with another value: `None` where the comparison
    /// cannot be made.
    pub fn reflect_partial_eq(&self, other: &Value) -> (equal: Option<bool>)
        ensures
            equal == self@.partial_eq(other@),
        decreases other@, 1nat,
    {
        match self {
            Value::Unit => Some(matches!(other, Value::Unit)),
            Value::Bool(a) => match other {
                Value::Bool(b) => Some(*a == *b),
                _ => Some(false),
            },
            Value::U32(a) => match other {
                Value::U32(b) => Some(*a == *b),
                _ => Some(false),
            },
            Value::U64(a) => match other {
                Value::U64(b) => Some(*a == *b),
                _ => Some(false),
            },
            Value::Usize(a) => match other {
                Value::Usize(b) => Some(*a == *b),
                _ => Some(false),
            },
            Value::I32(a) => match other {
                Value::I32(b) => Some(*a == *b),
                _ => Some(false),
            },
            Value::I64(a) => match other {
                Value::I64(b) => Some(*a == *b),
                _ => Some(false),
            },
            Value::Str(a) => match other {
                Value::Str(b) => Some(*a == *b),
                _ => Some(false),
            },
            Value::Opaque(_) => None,
            Value::List(l) => {
                list_partial_eq(l, other)
            },
        }
    }

    /// The hash of the value, or `None` where it has none.
    pub fn reflect_hash(&self) -> (hash: Option<u64>)
        ensures
            hash == self@.hash(),
        decreases self@, 1nat,
    {
        match self {
            Value::Unit => Some(mix_word(HASH_SEED, UNIT_ID)),
            Value::Bool(b) => Some(mix_word(mix_word(HASH_SEED, BOOL_ID), if *b { 1 } else { 0 })),
            Value::U32(n) => Some(mix_word(mix_word(HASH_SEED, U32_ID), *n as u64)),
            Value::U64(n) => Some(mix_word(mix_word(HASH_SEED, U64_ID), *n)),
            Value::Usize(n) => Some(mix_word(mix_word(HASH_SEED, USIZE_ID), *n as u64)),
            Value::I32(n) => Some(mix_signed_word(mix_word(HASH_SEED, I32_ID), *n as i64)),
            Value::I64(n) => Some(mix_signed_word(mix_word(HASH_SEED, I64_ID), *n)),
            Value::Str(s) => Some(mix_str(mix_word(HASH_SEED, STRING_ID), s.as_str())),
            Value::Opaque(_) => None,
            Value::List(l) => {
                assert(self@->items == l@);
                assert(decreases_to!(self@ => self@->items));
                hash_elements(l, Ghost(l@))
            },
        }
    }

    /// Applies `value` to this value.
    ///
    /// A list takes a list, element by element. Any other value takes a
    /// value of its own type and becomes a clone of it; a value of another
    /// type is refused with [`ApplyError::MismatchedTypes`].
    pub fn try_apply(&mut self, value: &Value) -> (applied: Result<(), ApplyError>)
        ensures
            final(self)@ == old(self)@.applied(value@).value,
            match applied {
                Ok(_) => old(self)@.applied(value@).error is None,
                Err(error) => old(self)@.applied(value@).error == Some(error),
            },
        decreases value@, 1nat,
    {
        match self {
            Value::List(l) => list_try_apply(l, value),
            _ => {
                if self.same_type(value) {
                    *self = value.clone_value();
                    Ok(())
                } else {
                    Err(
                        ApplyError::MismatchedTypes {
                            from_type: value.type_id(),
                            to_type: self.type_id(),
                        },
                    )
                }
            },
        }
    }

    /// Applies `value` to this value, where that cannot fail.
    pub fn apply(&mut self, value: &Value)
        requires
            old(self)@.applied(value@).error is None,
        ensures
            final(self)@ == old(self)@.applied(value@).value,
    {
        match self.try_apply(value) {
            Ok(_) => {},
            Err(_) => unreached(),
        }
    }

    /// The debug text of the value.
    pub fn debug(&self) -> (text: String)
        ensures
            text@ == self@.debug(),
    {
        let mut text = String::new();
        self.write_debug(&mut text);
        assert(text@ =~= self@.debug());
        text
    }

    /// Appends the debug text of the value to `out`.
    pub fn write_debug(&self, out: &mut String)
        ensures
            final(out)@ == old(out)@ + self@.debug(),
        decreases self@, 1nat,
    {
        match self {
            Value::Unit => {
                out.append("()");
            },
            Value::Bool(b) => {
                if *b {
                    out.append("true");
                } else {
                    out.append("false");
                }
            },
            Value::U32(n) => {
                push_nat(out, *n as u64);
            },
            Value::U64(n) => {
                push_nat(out, *n);
            },
            Value::Usize(n) => {
                push_nat(out, *n as u64);
            },
            Value::I32(n) => {
                push_int(out, *n as i64);
            },
            Value::I64(n) => {
                push_int(out, *n);
            },
            Value::Str(s) => {
                out.append("\"");
                out.append(s.as_str());
                out.append("\"");
                assert(final(out)@ =~= old(out)@ + ("\""@ + s@ + "\""@));
            },
            Value::Opaque(o) => {
                out.append("Opaque(");
                push_nat(out, o.type_id.id);
                out.append(")");
                assert(final(out)@ =~= old(out)@ + ("Opaque("@ + nat_text(o.type_id.id as nat)
                    + ")"@));
            },
            Value::List(l) => {
                assert(self@->items == l@);
                assert(decreases_to!(self@ => self@->items));
                out.append("DynamicList(");
                write_list_debug(l, out, Ghost(l@));
                out.append(")");
                assert(final(out)@ =~= old(out)@ + ("DynamicList("@ + list_debug_model(l@)
                    + ")"@));
            },
        }
    }

    /// An independent copy of the value.
    pub fn clone_value(&self) -> (copy: Value)
        ensures
            copy@ == self@,
        decreases self@, 1nat,
    {
        match self {
            Value::Unit => Value::Unit,
            Value::Bool(b) => Value::Bool(*b),
            Value::U32(n) => Value::U32(*n),
            Value::U64(n) => Value::U64(*n),
            Value::Usize(n) => Value::Usize(*n),
            Value::I32(n) => Value::I32(*n),
            Value::I64(n) => Value::I64(*n),
            Value::Str(s) => Value::Str(s.clone()),
            Value::Opaque(o) => Value::Opaque(*o),
            Value::List(l) => {
                assert(self@->items == l@);
                assert(decreases_to!(self@ => self@->items));
                Value::List(l.clone_dynamic())
            },
        }
    }
}

} // verus!
