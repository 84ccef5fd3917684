//! Object-safe forms of `PartialEq`, `Eq` and `Hash`.
//!
//! The three std traits cannot be made into trait objects. This crate has an
//! object-safe trait for each of them, `PartialEqObj`, `EqObj` and `HashObj`,
//! which every type with the std trait has by a blanket impl, and it gives
//! the std trait back to `dyn PartialEqObj`, `dyn EqObj`, `dyn HashObj` and to
//! `Obj<T>`, a wrapper around anything that dereferences to a value with the
//! object-safe trait. A trait of your own that extends the object-safe ones
//! has trait objects, and `eq_objects` and `hash_into` are all that their
//! `PartialEq` and `Hash` need.
//!
//! Two values behind abstract references are equal where they are of one
//! concrete type and equal under that type's own `==`. Values of two types
//! are never equal; comparing them is no error.
//!
//! Contracts speak of a value behind an abstract reference as a `Referent`,
//! and of a hasher as a `HasherState`.

mod any;
mod eq;
mod hash;
mod obj;
mod partial_eq;

pub use any::{any_referent, referent_of, AnyRef, AsAny, Erased, Referent};
pub use eq::{to_eq_object, EqObj};
pub use hash::{
    as_hash_object, hash_feeds, hash_into, hash_respects_eq, lemma_equal_values_hash_alike, state_of,
    to_hash_object, HashObj, HashSink, HasherState,
};
pub use obj::Obj;
pub use partial_eq::{
    eq_found, eq_objects, lemma_other_type, lemma_same_type, obj_eq_spec, to_partial_eq_object,
    PartialEqObj,
};
