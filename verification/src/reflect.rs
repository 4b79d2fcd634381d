//! Typed values: how a value of a concrete type is erased, and how it is
//! won back from an erased value.

use crate::info::{
    TypeId, TypePath, BOOL_ID, DYNAMIC_LIST_ID, I32_ID, I64_ID, STRING_ID, U32_ID, U64_ID,
    UNIT_ID, USIZE_ID,
};
use crate::model::ValueModel;
use crate::dynamic_list::DynamicList;
use crate::value::Value;
use vstd::prelude::*;

verus! {

/// A concrete type whose values can be erased.
pub trait Reflect: Sized {
    /// What the value is once erased.
    spec fn erased(&self) -> ValueModel;

    /// Whether `v` is a value of this type.
    spec fn is_instance(v: ValueModel) -> bool;

    /// Erases the value.
    fn into_value(self) -> (value: Value)
        ensures
            value@ == self.erased(),
            Self::is_instance(value@),
    ;

    /// Wins the typed value back from `value` if it is of this type, and
    /// hands `value` back unchanged if it is not.
    fn take(value: Value) -> (taken: Result<Self, Value>)
        ensures
            match taken {
                Ok(typed) => Self::is_instance(value@) && typed.erased() == value@,
                Err(back) => !Self::is_instance(value@) && back == value,
            },
    ;
}

/// A concrete type whose values can be built from what an erased value
/// holds, whatever the concrete type of that value.
pub trait FromReflect: Reflect {
    /// Whether a value of this type can be built from `v`.
    spec fn rebuilds(v: ValueModel) -> bool;

    /// Builds a value of this type from `value`, or returns `None` where
    /// what `value` holds does not fit the type.
    fn from_reflect(value: &Value) -> (built: Option<Self>)
        ensures
            built is Some <==> Self::rebuilds(value@),
            built matches Some(typed) ==> typed.erased() == value@,
    ;
}

impl TypePath for () {
    open spec fn spec_type_path() -> &'static str {
        "()"
    }

    open spec fn spec_short_type_path() -> &'static str {
        "()"
    }

    open spec fn spec_type_id() -> TypeId {
        TypeId { id: UNIT_ID }
    }

    fn type_path() -> (path: &'static str) {
        "()"
    }

    fn short_type_path() -> (path: &'static str) {
        "()"
    }

    fn type_id() -> (id: TypeId) {
        TypeId { id: UNIT_ID }
    }
}

impl Reflect for () {
    open spec fn erased(&self) -> ValueModel {
        ValueModel::Unit
    }

    open spec fn is_instance(v: ValueModel) -> bool {
        v is Unit
    }

    fn into_value(self) -> (value: Value) {
        Value::Unit
    }

    fn take(value: Value) -> (taken: Result<Self, Value>) {
        match value {
            Value::Unit => Ok(()),
            other => Err(other),
        }
    }
}

impl FromReflect for () {
    open spec fn rebuilds(v: ValueModel) -> bool {
        v is Unit
    }

    fn from_reflect(value: &Value) -> (built: Option<Self>) {
        match value {
            Value::Unit => Some(()),
            _ => None,
        }
    }
}

impl TypePath for bool {
    open spec fn spec_type_path() -> &'static str {
        "bool"
    }

    open spec fn spec_short_type_path() -> &'static str {
        "bool"
    }

    open spec fn spec_type_id() -> TypeId {
        TypeId { id: BOOL_ID }
    }

    fn type_path() -> (path: &'static str) {
        "bool"
    }

    fn short_type_path() -> (path: &'static str) {
        "bool"
    }

    fn type_id() -> (id: TypeId) {
        TypeId { id: BOOL_ID }
    }
}

impl Reflect for bool {
    open spec fn erased(&self) -> ValueModel {
        ValueModel::Bool(*self)
    }

    open spec fn is_instance(v: ValueModel) -> bool {
        v is Bool
    }

    fn into_value(self) -> (value: Value) {
        Value::Bool(self)
    }

    fn take(value: Value) -> (taken: Result<Self, Value>) {
        match value {
            Value::Bool(n) => Ok(n),
            other => Err(other),
        }
    }
}

impl FromReflect for bool {
    open spec fn rebuilds(v: ValueModel) -> bool {
        v is Bool
    }

    fn from_reflect(value: &Value) -> (built: Option<Self>) {
        match value {
            Value::Bool(n) => Some(*n),
            _ => None,
        }
    }
}

impl TypePath for u32 {
    open spec fn spec_type_path() -> &'static str {
        "u32"
    }

    open spec fn spec_short_type_path() -> &'static str {
        "u32"
    }

    open spec fn spec_type_id() -> TypeId {
        TypeId { id: U32_ID }
    }

    fn type_path() -> (path: &'static str) {
        "u32"
    }

    fn short_type_path() -> (path: &'static str) {
        "u32"
    }

    fn type_id() -> (id: TypeId) {
        TypeId { id: U32_ID }
    }
}

impl Reflect for u32 {
    open spec fn erased(&self) -> ValueModel {
        ValueModel::U32(*self)
    }

    open spec fn is_instance(v: ValueModel) -> bool {
        v is U32
    }

    fn into_value(self) -> (value: Value) {
        Value::U32(self)
    }

    fn take(value: Value) -> (taken: Result<Self, Value>) {
        match value {
            Value::U32(n) => Ok(n),
            other => Err(other),
        }
    }
}

impl FromReflect for u32 {
    open spec fn rebuilds(v: ValueModel) -> bool {
        v is U32
    }

    fn from_reflect(value: &Value) -> (built: Option<Self>) {
        match value {
            Value::U32(n) => Some(*n),
            _ => None,
        }
    }
}

impl TypePath for u64 {
    open spec fn spec_type_path() -> &'static str {
        "u64"
    }

    open spec fn spec_short_type_path() -> &'static str {
        "u64"
    }

    open spec fn spec_type_id() -> TypeId {
        TypeId { id: U64_ID }
    }

    fn type_path() -> (path: &'static str) {
        "u64"
    }

    fn short_type_path() -> (path: &'static str) {
        "u64"
    }

    fn type_id() -> (id: TypeId) {
        TypeId { id: U64_ID }
    }
}

impl Reflect for u64 {
    open spec fn erased(&self) -> ValueModel {
        ValueModel::U64(*self)
    }

    open spec fn is_instance(v: ValueModel) -> bool {
        v is U64
    }

    fn into_value(self) -> (value: Value) {
        Value::U64(self)
    }

    fn take(value: Value) -> (taken: Result<Self, Value>) {
        match value {
            Value::U64(n) => Ok(n),
            other => Err(other),
        }
    }
}

impl FromReflect for u64 {
    open spec fn rebuilds(v: ValueModel) -> bool {
        v is U64
    }

    fn from_reflect(value: &Value) -> (built: Option<Self>) {
        match value {
            Value::U64(n) => Some(*n),
            _ => None,
        }
    }
}

impl TypePath for usize {
    open spec fn spec_type_path() -> &'static str {
        "usize"
    }

    open spec fn spec_short_type_path() -> &'static str {
        "usize"
    }

    open spec fn spec_type_id() -> TypeId {
        TypeId { id: USIZE_ID }
    }

    fn type_path() -> (path: &'static str) {
        "usize"
    }

    fn short_type_path() -> (path: &'static str) {
        "usize"
    }

    fn type_id() -> (id: TypeId) {
        TypeId { id: USIZE_ID }
    }
}

impl Reflect for usize {
    open spec fn erased(&self) -> ValueModel {
        ValueModel::Usize(*self)
    }

    open spec fn is_instance(v: ValueModel) -> bool {
        v is Usize
    }

    fn into_value(self) -> (value: Value) {
        Value::Usize(self)
    }

    fn take(value: Value) -> (taken: Result<Self, Value>) {
        match value {
            Value::Usize(n) => Ok(n),
            other => Err(other),
        }
    }
}

impl FromReflect for usize {
    open spec fn rebuilds(v: ValueModel) -> bool {
        v is Usize
    }

    fn from_reflect(value: &Value) -> (built: Option<Self>) {
        match value {
            Value::Usize(n) => Some(*n),
            _ => None,
        }
    }
}

impl TypePath for i32 {
    open spec fn spec_type_path() -> &'static str {
        "i32"
    }

    open spec fn spec_short_type_path() -> &'static str {
        "i32"
    }

    open spec fn spec_type_id() -> TypeId {
        TypeId { id: I32_ID }
    }

    fn type_path() -> (path: &'static str) {
        "i32"
    }

    fn short_type_path() -> (path: &'static str) {
        "i32"
    }

    fn type_id() -> (id: TypeId) {
        TypeId { id: I32_ID }
    }
}

impl Reflect for i32 {
    open spec fn erased(&self) -> ValueModel {
        ValueModel::I32(*self)
    }

    open spec fn is_instance(v: ValueModel) -> bool {
        v is I32
    }

    fn into_value(self) -> (value: Value) {
        Value::I32(self)
    }

    fn take(value: Value) -> (taken: Result<Self, Value>) {
        match value {
            Value::I32(n) => Ok(n),
            other => Err(other),
        }
    }
}

impl FromReflect for i32 {
    open spec fn rebuilds(v: ValueModel) -> bool {
        v is I32
    }

    fn from_reflect(value: &Value) -> (built: Option<Self>) {
        match value {
            Value::I32(n) => Some(*n),
            _ => None,
        }
    }
}

impl TypePath for i64 {
    open spec fn spec_type_path() -> &'static str {
        "i64"
    }

    open spec fn spec_short_type_path() -> &'static str {
        "i64"
    }

    open spec fn spec_type_id() -> TypeId {
        TypeId { id: I64_ID }
    }

    fn type_path() -> (path: &'static str) {
        "i64"
    }

    fn short_type_path() -> (path: &'static str) {
        "i64"
    }

    fn type_id() -> (id: TypeId) {
        TypeId { id: I64_ID }
    }
}

impl Reflect for i64 {
    open spec fn erased(&self) -> ValueModel {
        ValueModel::I64(*self)
    }

    open spec fn is_instance(v: ValueModel) -> bool {
        v is I64
    }

    fn into_value(self) -> (value: Value) {
        Value::I64(self)
    }

    fn take(value: Value) -> (taken: Result<Self, Value>) {
        match value {
            Value::I64(n) => Ok(n),
            other => Err(other),
        }
    }
}

impl FromReflect for i64 {
    open spec fn rebuilds(v: ValueModel) -> bool {
        v is I64
    }

    fn from_reflect(value: &Value) -> (built: Option<Self>) {
        match value {
            Value::I64(n) => Some(*n),
            _ => None,
        }
    }
}

impl TypePath for String {
    open spec fn spec_type_path() -> &'static str {
        "alloc::string::String"
    }

    open spec fn spec_short_type_path() -> &'static str {
        "String"
    }

    open spec fn spec_type_id() -> TypeId {
        TypeId { id: STRING_ID }
    }

    fn type_path() -> (path: &'static str) {
        "alloc::string::String"
    }

    fn short_type_path() -> (path: &'static str) {
        "String"
    }

    fn type_id() -> (id: TypeId) {
        TypeId { id: STRING_ID }
    }
}

impl Reflect for String {
    open spec fn erased(&self) -> ValueModel {
        ValueModel::Str(self@)
    }

    open spec fn is_instance(v: ValueModel) -> bool {
        v is Str
    }

    fn into_value(self) -> (value: Value) {
        Value::Str(self)
    }

    fn take(value: Value) -> (taken: Result<Self, Value>) {
        match value {
            Value::Str(s) => Ok(s),
            other => Err(other),
        }
    }
}

impl FromReflect for String {
    open spec fn rebuilds(v: ValueModel) -> bool {
        v is Str
    }

    fn from_reflect(value: &Value) -> (built: Option<Self>) {
        match value {
            Value::Str(s) => Some(s.clone()),
            _ => None,
        }
    }
}

impl TypePath for DynamicList {
    open spec fn spec_type_path() -> &'static str {
        "reflect_list::DynamicList"
    }

    open spec fn spec_short_type_path() -> &'static str {
        "DynamicList"
    }

    open spec fn spec_type_id() -> TypeId {
        TypeId { id: DYNAMIC_LIST_ID }
    }

    fn type_path() -> (path: &'static str) {
        "reflect_list::DynamicList"
    }

    fn short_type_path() -> (path: &'static str) {
        "DynamicList"
    }

    fn type_id() -> (id: TypeId) {
        TypeId { id: DYNAMIC_LIST_ID }
    }
}

impl Reflect for DynamicList {
    open spec fn erased(&self) -> ValueModel {
        ValueModel::List { represented: self.spec_represented(), items: self@ }
    }

    open spec fn is_instance(v: ValueModel) -> bool {
        v is List
    }

    fn into_value(self) -> (value: Value) {
        Value::List(self)
    }

    fn take(value: Value) -> (taken: Result<Self, Value>) {
        match value {
            Value::List(list) => Ok(list),
            other => Err(other),
        }
    }
}

} // verus!
