//! Kinds of reflected values and the errors of applying one value to another.

use crate::info::TypeId;
use vstd::prelude::*;

verus! {

/// The shape of a reflected value, independent of its concrete type.
#[derive(Clone, Copy, Debug, PartialEq, Eq, Structural)]
pub enum ReflectKind {
    Struct,
    TupleStruct,
    Tuple,
    List,
    Array,
    Dictionary,
    Enum,
    Value,
}

/// Why one value could not be applied to another.
#[derive(Clone, Copy, Debug, PartialEq, Eq, Structural)]
pub enum ApplyError {
    /// The two values do not have the same shape.
    MismatchedKinds { from_kind: ReflectKind, to_kind: ReflectKind },
    /// The two values have the same shape but not the same concrete type.
    MismatchedTypes { from_type: TypeId, to_type: TypeId },
}

} // verus!
