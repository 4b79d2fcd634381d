//! Type identities, type paths and the descriptors built from them.

use crate::list::List;
use crate::reflect::FromReflect;
use vstd::prelude::*;

verus! {

/// The runtime identity of a concrete type.
///
/// Two types are the same type exactly when their identities are equal.
#[derive(Clone, Copy, Debug, PartialEq, Eq, Structural)]
pub struct TypeId {
    pub id: u64,
}

/// The identity of the unit type.
pub const UNIT_ID: u64 = 1;

/// The identity of `bool`.
pub const BOOL_ID: u64 = 2;

/// The identity of `u32`.
pub const U32_ID: u64 = 3;

/// The identity of `u64`.
pub const U64_ID: u64 = 4;

/// The identity of `usize`.
pub const USIZE_ID: u64 = 5;

/// The identity of `i32`.
pub const I32_ID: u64 = 6;

/// The identity of `i64`.
pub const I64_ID: u64 = 7;

/// The identity of `String`.
pub const STRING_ID: u64 = 8;

/// The identity of the dynamic list.
pub const DYNAMIC_LIST_ID: u64 = 9;

/// The identity of the list with inline storage.
pub const SMALL_LIST_ID: u64 = 10;

/// A type that knows its own stable path and its runtime identity.
pub trait TypePath {
    /// The full path of the type.
    spec fn spec_type_path() -> &'static str;

    /// The path of the type without its module.
    spec fn spec_short_type_path() -> &'static str;

    /// The runtime identity of the type.
    spec fn spec_type_id() -> TypeId;

    fn type_path() -> (path: &'static str)
        ensures
            path == Self::spec_type_path(),
    ;

    fn short_type_path() -> (path: &'static str)
        ensures
            path == Self::spec_short_type_path(),
    ;

    fn type_id() -> (id: TypeId)
        ensures
            id == Self::spec_type_id(),
    ;
}

/// The paths of one type, gathered so that they can be read without the type.
#[derive(Clone, Copy, Debug)]
pub struct TypePathTable {
    pub type_path: &'static str,
    pub short_type_path: &'static str,
}

impl TypePathTable {
    /// The table of the paths of `T`, as a mathematical value.
    pub open spec fn spec_of<T: TypePath>() -> TypePathTable {
        TypePathTable {
            type_path: T::spec_type_path(),
            short_type_path: T::spec_short_type_path(),
        }
    }

    /// The table of the paths of `T`.
    pub fn of<T: TypePath>() -> (table: Self)
        ensures
            table == Self::spec_of::<T>(),
    {
        TypePathTable { type_path: T::type_path(), short_type_path: T::short_type_path() }
    }

    /// The full path.
    pub fn path(&self) -> (path: &'static str)
        ensures
            path == self.type_path,
    {
        self.type_path
    }

    /// The path without the module.
    pub fn short_path(&self) -> (path: &'static str)
        ensures
            path == self.short_type_path,
    {
        self.short_type_path
    }
}

/// Describes a list type and the type of its items.
///
/// A descriptor is fixed once built. Two descriptors stand for the same list
/// type when their identities match; the paths are for people to read.
#[derive(Clone, Copy, Debug)]
pub struct ListInfo {
    pub type_path: TypePathTable,
    pub type_id: TypeId,
    pub item_type_path: TypePathTable,
    pub item_type_id: TypeId,
    pub docs: Option<&'static str>,
}

impl ListInfo {
    /// The descriptor of the list type `TList` whose items are of type
    /// `TItem`, as a mathematical value.
    pub open spec fn spec_new<TList: TypePath, TItem: TypePath>() -> ListInfo {
        ListInfo {
            type_path: TypePathTable::spec_of::<TList>(),
            type_id: TList::spec_type_id(),
            item_type_path: TypePathTable::spec_of::<TItem>(),
            item_type_id: TItem::spec_type_id(),
            docs: None,
        }
    }

    /// The descriptor of the list type `TList` whose items are of type `TItem`.
    pub fn new<TList: List + TypePath, TItem: FromReflect + TypePath>() -> (info: Self)
        ensures
            info == Self::spec_new::<TList, TItem>(),
    {
        Self::describing::<TList, TItem>()
    }

    /// The descriptor of a type with the paths and the identity of `TList`,
    /// with items of type `TItem`.
    pub fn describing<TList: TypePath, TItem: TypePath>() -> (info: Self)
        ensures
            info == Self::spec_new::<TList, TItem>(),
    {
        ListInfo {
            type_path: TypePathTable::of::<TList>(),
            type_id: TList::type_id(),
            item_type_path: TypePathTable::of::<TItem>(),
            item_type_id: TItem::type_id(),
            docs: None,
        }
    }

    /// The same descriptor with its docstring replaced by `docs`.
    pub fn with_docs(self, docs: Option<&'static str>) -> (info: Self)
        ensures
            info == (ListInfo { docs: docs, ..self }),
    {
        ListInfo { docs, ..self }
    }

    /// The paths of the list type.
    pub fn type_path_table(&self) -> (table: &TypePathTable)
        ensures
            *table == self.type_path,
    {
        &self.type_path
    }

    /// The full path of the list type.
    pub fn type_path(&self) -> (path: &'static str)
        ensures
            path == self.type_path.type_path,
    {
        self.type_path_table().path()
    }

    /// The identity of the list type.
    pub fn type_id(&self) -> (id: TypeId)
        ensures
            id == self.type_id,
    {
        self.type_id
    }

    /// Whether `T` is the list type.
    pub fn is<T: TypePath>(&self) -> (same: bool)
        ensures
            same == (T::spec_type_id() == self.type_id),
    {
        T::type_id() == self.type_id
    }

    /// The paths of the item type.
    pub fn item_type_path_table(&self) -> (table: &TypePathTable)
        ensures
            *table == self.item_type_path,
    {
        &self.item_type_path
    }

    /// The identity of the item type.
    pub fn item_type_id(&self) -> (id: TypeId)
        ensures
            id == self.item_type_id,
    {
        self.item_type_id
    }

    /// Whether `T` is the item type.
    pub fn item_is<T: TypePath>(&self) -> (same: bool)
        ensures
            same == (T::spec_type_id() == self.item_type_id),
    {
        T::type_id() == self.item_type_id
    }

    /// The docstring of the list type, if it has one.
    pub fn docs(&self) -> (docs: Option<&'static str>)
        ensures
            docs == self.docs,
    {
        self.docs
    }
}

/// Describes a type that is read as a single value, with no parts.
#[derive(Clone, Copy, Debug)]
pub struct ValueInfo {
    pub type_path: TypePathTable,
    pub type_id: TypeId,
}

impl ValueInfo {
    /// The descriptor of the type `T`.
    pub fn new<T: TypePath>() -> (info: Self)
        ensures
            info.type_path == TypePathTable::spec_of::<T>(),
            info.type_id == T::spec_type_id(),
    {
        ValueInfo { type_path: TypePathTable::of::<T>(), type_id: T::type_id() }
    }
}

/// What is known of a type at run time, by the shape of the type.
#[derive(Clone, Copy, Debug)]
pub enum TypeInfo {
    List(ListInfo),
    Value(ValueInfo),
}

impl TypeInfo {
    /// The identity of the described type.
    pub fn type_id(&self) -> (id: TypeId)
        ensures
            id == self.spec_type_id(),
    {
        match self {
            TypeInfo::List(info) => info.type_id,
            TypeInfo::Value(info) => info.type_id,
        }
    }

    pub open spec fn spec_type_id(&self) -> TypeId {
        match self {
            TypeInfo::List(info) => info.type_id,
            TypeInfo::Value(info) => info.type_id,
        }
    }

    /// Whether the described type is a list.
    pub fn is_list(&self) -> (list: bool)
        ensures
            list == (self is List),
    {
        match self {
            TypeInfo::List(_) => true,
            TypeInfo::Value(_) => false,
        }
    }
}

} // verus!
