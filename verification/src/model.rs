//! The mathematical model of type-erased values, and what the operations of
//! the library mean on it.

use crate::info::{
    ListInfo, TypeId, BOOL_ID, DYNAMIC_LIST_ID, I32_ID, I64_ID, STRING_ID, U32_ID, U64_ID,
    UNIT_ID, USIZE_ID,
};
use crate::kind::{ApplyError, ReflectKind};
use vstd::prelude::*;

verus! {

/// What a type-erased value is, as a mathematical value.
pub enum ValueModel {
    Unit,
    Bool(bool),
    U32(u32),
    U64(u64),
    Usize(usize),
    I32(i32),
    I64(i64),
    Str(Seq<char>),
    Opaque { type_id: TypeId, token: u64 },
    List { represented: Option<ListInfo>, items: Seq<ValueModel> },
}

/// The outcome of applying one value to another: the value afterwards, and
/// the error, if the application stopped on one.
pub struct Applied<T> {
    pub value: T,
    pub error: Option<ApplyError>,
}

/// The state with which every hash starts.
pub const HASH_SEED: u64 = 0xcbf2_9ce4_8422_2325;

/// The multiplier of one hashing step.
pub const HASH_PRIME: u64 = 0x0000_0100_0000_01b3;

/// One hashing step: the state `h` after the word `x` has been fed to it.
pub open spec fn mix(h: u64, x: u64) -> u64 {
    (h ^ x).wrapping_mul(HASH_PRIME)
}

/// The two words that stand for a signed integer in a hash: its sign and its
/// distance from zero (from minus one, when it is negative).
pub open spec fn mix_signed(h: u64, n: int) -> u64 {
    if n < 0 {
        mix(mix(h, 1), (-(n + 1)) as u64)
    } else {
        mix(mix(h, 0), n as u64)
    }
}

/// The hash state after the characters of `s` from position `i` on.
pub open spec fn mix_chars(h: u64, s: Seq<char>, i: int) -> u64
    decreases s.len() - i,
{
    if 0 <= i < s.len() {
        mix_chars(mix(h, s[i] as u64), s, i + 1)
    } else {
        h
    }
}

/// The hash state of a value of the type `id` before its content is fed.
pub open spec fn typed_seed(id: u64) -> u64 {
    mix(HASH_SEED, id)
}

/// The character of one decimal digit.
pub open spec fn digit_char(d: int) -> char {
    if d == 0 {
        '0'
    } else if d == 1 {
        '1'
    } else if d == 2 {
        '2'
    } else if d == 3 {
        '3'
    } else if d == 4 {
        '4'
    } else if d == 5 {
        '5'
    } else if d == 6 {
        '6'
    } else if d == 7 {
        '7'
    } else if d == 8 {
        '8'
    } else {
        '9'
    }
}

/// The decimal digits of a natural number, most significant first.
pub open spec fn nat_text(n: nat) -> Seq<char>
    decreases n,
{
    if n < 10 {
        seq![digit_char(n as int)]
    } else {
        nat_text(n / 10).push(digit_char((n % 10) as int))
    }
}

/// The decimal text of an integer, with a minus sign when it is negative.
pub open spec fn int_text(n: int) -> Seq<char> {
    if n < 0 {
        seq!['-'] + nat_text((-n) as nat)
    } else {
        nat_text(n as nat)
    }
}

impl ValueModel {
    /// The shape of the value.
    pub open spec fn kind(self) -> ReflectKind {
        match self {
            ValueModel::List { .. } => ReflectKind::List,
            _ => ReflectKind::Value,
        }
    }

    /// The identity of the concrete type of the value.
    pub open spec fn type_id(self) -> TypeId {
        match self {
            ValueModel::Unit => TypeId { id: UNIT_ID },
            ValueModel::Bool(_) => TypeId { id: BOOL_ID },
            ValueModel::U32(_) => TypeId { id: U32_ID },
            ValueModel::U64(_) => TypeId { id: U64_ID },
            ValueModel::Usize(_) => TypeId { id: USIZE_ID },
            ValueModel::I32(_) => TypeId { id: I32_ID },
            ValueModel::I64(_) => TypeId { id: I64_ID },
            ValueModel::Str(_) => TypeId { id: STRING_ID },
            ValueModel::Opaque { type_id, .. } => type_id,
            ValueModel::List { .. } => TypeId { id: DYNAMIC_LIST_ID },
        }
    }

    /// The path of the concrete type of the value.
    pub open spec fn type_path(self) -> &'static str {
        match self {
            ValueModel::Unit => "()",
            ValueModel::Bool(_) => "bool",
            ValueModel::U32(_) => "u32",
            ValueModel::U64(_) => "u64",
            ValueModel::Usize(_) => "usize",
            ValueModel::I32(_) => "i32",
            ValueModel::I64(_) => "i64",
            ValueModel::Str(_) => "alloc::string::String",
            ValueModel::Opaque { .. } => "opaque",
            ValueModel::List { .. } => "reflect_list::DynamicList",
        }
    }

    /// Whether the two values are of one variant, and, where they are opaque,
    /// of one type.
    pub open spec fn same_type(self, other: ValueModel) -> bool {
        match (self, other) {
            (ValueModel::Unit, ValueModel::Unit) => true,
            (ValueModel::Bool(_), ValueModel::Bool(_)) => true,
            (ValueModel::U32(_), ValueModel::U32(_)) => true,
            (ValueModel::U64(_), ValueModel::U64(_)) => true,
            (ValueModel::Usize(_), ValueModel::Usize(_)) => true,
            (ValueModel::I32(_), ValueModel::I32(_)) => true,
            (ValueModel::I64(_), ValueModel::I64(_)) => true,
            (ValueModel::Str(_), ValueModel::Str(_)) => true,
            (ValueModel::Opaque { type_id: a, .. }, ValueModel::Opaque { type_id: b, .. }) => a
                == b,
            (ValueModel::List { .. }, ValueModel::List { .. }) => true,
            _ => false,
        }
    }

    /// Partial equality of two values: `Some(true)`, `Some(false)`, or `None`
    /// where the comparison cannot be made.
    ///
    /// An opaque value compares with nothing. A list compares with a list,
    /// element by element. Any other value equals exactly the values of its
    /// own type with the same content.
    pub open spec fn partial_eq(self, other: ValueModel) -> Option<bool>
        decreases self, 0nat,
    {
        match self {
            ValueModel::Opaque { .. } => None,
            ValueModel::List { items, .. } => list_partial_eq_model(items, other),
            ValueModel::Str(a) => Some(other matches ValueModel::Str(b) && a == b),
            _ => Some(self == other),
        }
    }

    /// The hash of the value, or `None` where it has none.
    pub open spec fn hash(self) -> Option<u64>
        decreases self, 0nat,
    {
        match self {
            ValueModel::Unit => Some(typed_seed(UNIT_ID)),
            ValueModel::Bool(b) => Some(mix(typed_seed(BOOL_ID), if b { 1 } else { 0 })),
            ValueModel::U32(n) => Some(mix(typed_seed(U32_ID), n as u64)),
            ValueModel::U64(n) => Some(mix(typed_seed(U64_ID), n)),
            ValueModel::Usize(n) => Some(mix(typed_seed(USIZE_ID), n as u64)),
            ValueModel::I32(n) => Some(mix_signed(typed_seed(I32_ID), n as int)),
            ValueModel::I64(n) => Some(mix_signed(typed_seed(I64_ID), n as int)),
            ValueModel::Str(s) => Some(
                mix_chars(mix(typed_seed(STRING_ID), s.len() as u64), s, 0),
            ),
            ValueModel::Opaque { .. } => None,
            ValueModel::List { items, .. } => list_hash_model(
                TypeId { id: DYNAMIC_LIST_ID },
                items,
            ),
        }
    }

    /// The outcome of applying `other` to the value.
    ///
    /// A list takes a list, element by element. Any other value takes a value
    /// of its own type and becomes equal to it.
    pub open spec fn applied(self, other: ValueModel) -> Applied<ValueModel>
        decreases other, 1nat,
    {
        match self {
            ValueModel::List { represented, items } => {
                let r = list_applied(items, other);
                Applied {
                    value: ValueModel::List { represented: represented, items: r.value },
                    error: r.error,
                }
            },
            _ => if self.same_type(other) {
                Applied { value: other, error: None }
            } else {
                Applied {
                    value: self,
                    error: Some(
                        ApplyError::MismatchedTypes {
                            from_type: other.type_id(),
                            to_type: self.type_id(),
                        },
                    ),
                }
            },
        }
    }

    /// The debug text of the value.
    pub open spec fn debug(self) -> Seq<char>
        decreases self, 0nat,
    {
        match self {
            ValueModel::Unit => "()"@,
            ValueModel::Bool(b) => if b {
                "true"@
            } else {
                "false"@
            },
            ValueModel::U32(n) => nat_text(n as nat),
            ValueModel::U64(n) => nat_text(n as nat),
            ValueModel::Usize(n) => nat_text(n as nat),
            ValueModel::I32(n) => int_text(n as int),
            ValueModel::I64(n) => int_text(n as int),
            ValueModel::Str(s) => "\""@ + s + "\""@,
            ValueModel::Opaque { type_id, .. } => "Opaque("@ + nat_text(type_id.id as nat) + ")"@,
            ValueModel::List { items, .. } => "DynamicList("@ + list_debug_model(items) + ")"@,
        }
    }
}

/// Partial equality of the elements `a` and `b` from position `i` on: the
/// result of the first pair that does not compare `Some(true)`, or
/// `Some(true)` where every pair does.
pub open spec fn pairs_partial_eq(a: Seq<ValueModel>, b: Seq<ValueModel>, i: int) -> Option<bool>
    decreases a, a.len() - i,
{
    if 0 <= i < a.len() {
        match a[i].partial_eq(b[i]) {
            Some(true) => pairs_partial_eq(a, b, i + 1),
            r => r,
        }
    } else {
        Some(true)
    }
}

/// Partial equality of a list with the elements `a` and the value `b`.
///
/// `Some(false)` where `b` is no list or has another length; else the
/// comparison of the elements in order.
pub open spec fn list_partial_eq_model(a: Seq<ValueModel>, b: ValueModel) -> Option<bool>
    decreases a, a.len() + 1,
{
    match b {
        ValueModel::List { items, .. } => if a.len() != items.len() {
            Some(false)
        } else {
            pairs_partial_eq(a, items, 0)
        },
        _ => Some(false),
    }
}

/// The hash state `h` after the hashes of the elements from position `i` on,
/// or `None` where one of them has no hash.
pub open spec fn mix_items(h: u64, items: Seq<ValueModel>, i: int) -> Option<u64>
    decreases items, items.len() - i,
{
    if 0 <= i < items.len() {
        match items[i].hash() {
            Some(x) => mix_items(mix(h, x), items, i + 1),
            None => None,
        }
    } else {
        Some(h)
    }
}

/// The hash of a list of the concrete type `type_id` with the elements
/// `items`: the type, the length and the hash of each element in order.
pub open spec fn list_hash_model(type_id: TypeId, items: Seq<ValueModel>) -> Option<u64>
    decreases items, items.len() + 1,
{
    mix_items(mix(typed_seed(type_id.id), items.len() as u64), items, 0)
}

/// The outcome of applying the elements of `b` from position `i` on to `a`.
///
/// An element of `b` is applied to the element of `a` at its position, where
/// there is one, and is appended to `a` otherwise. The first error stops the
/// application.
pub open spec fn items_applied(a: Seq<ValueModel>, b: Seq<ValueModel>, i: int) -> Applied<
    Seq<ValueModel>,
>
    decreases b, b.len() - i,
{
    if 0 <= i < b.len() {
        if i < a.len() {
            let r = a[i].applied(b[i]);
            let next = a.update(i, r.value);
            if r.error is Some {
                Applied { value: next, error: r.error }
            } else {
                items_applied(next, b, i + 1)
            }
        } else {
            items_applied(a.push(b[i]), b, i + 1)
        }
    } else {
        Applied { value: a, error: None }
    }
}

/// The outcome of applying the value `b` to a list with the elements `a`.
pub open spec fn list_applied(a: Seq<ValueModel>, b: ValueModel) -> Applied<Seq<ValueModel>>
    decreases b, 0nat,
{
    match b {
        ValueModel::List { items, .. } => items_applied(a, items, 0),
        _ => Applied {
            value: a,
            error: Some(
                ApplyError::MismatchedKinds { from_kind: b.kind(), to_kind: ReflectKind::List },
            ),
        },
    }
}

/// The debug texts of the elements from position `i` on, separated by a
/// comma and a space.
pub open spec fn items_debug(items: Seq<ValueModel>, i: int) -> Seq<char>
    decreases items, items.len() - i,
{
    if 0 <= i < items.len() {
        if i + 1 < items.len() {
            items[i].debug() + ", "@ + items_debug(items, i + 1)
        } else {
            items[i].debug()
        }
    } else {
        Seq::empty()
    }
}

/// The debug text of a list: its elements in order, in square brackets.
pub open spec fn list_debug_model(items: Seq<ValueModel>) -> Seq<char>
    decreases items, items.len() + 1,
{
    "["@ + items_debug(items, 0) + "]"@
}

} // verus!
