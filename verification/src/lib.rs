//! A verified model of the intrinsic construction framework of a
//! scripting-language runtime: the machinery that registers native
//! constructors (exemplified by the `ReferenceError` builtin) into a realm
//! with a correct prototype chain, exact property attributes, and
//! subclassing-aware instantiation via the active `new`-target.

pub mod attribute;
pub mod value;
pub mod object;
pub mod registry;
pub mod construction;
pub mod builder;
pub mod intrinsics;
pub mod laws;
