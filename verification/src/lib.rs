//! Runtime reflection over ordered, variable-length collections.
//!
//! A [`Value`] is an owned value whose concrete type is known only at run
//! time. The [`List`] trait is the surface through which list-shaped
//! containers are read, changed, cloned, compared and hashed without knowing
//! their concrete type, and [`DynamicList`] is the container that can stand
//! for any of them.

pub mod dynamic_list;
pub mod hash;
pub mod info;
pub mod kind;
pub mod laws;
pub mod list;
pub mod model;
pub mod reflect;
pub mod render;
pub mod small_list;
pub mod value;

pub use crate::dynamic_list::DynamicList;
pub use crate::info::{ListInfo, TypeId, TypeInfo, TypePath, TypePathTable, ValueInfo};
pub use crate::kind::{ApplyError, ReflectKind};
pub use crate::list::{
    list_apply, list_debug, list_hash, list_partial_eq, list_try_apply, List, ListIter,
};
pub use crate::model::ValueModel;
pub use crate::reflect::{FromReflect, Reflect};
pub use crate::small_list::SmallList;
pub use crate::value::{Opaque, Value};
