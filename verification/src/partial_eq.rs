use crate::any::{any_referent, referent_of, AnyRef, AsAny, Referent};
use crate::obj::Obj;
use core::ops::Deref;
use vstd::prelude::*;
use vstd::std_specs::cmp::PartialEqSpec;
use vstd::std_specs::cmp::PartialEqSpecImpl;

verus! {

/// The object-safe form of `PartialEq`: equality against a value that is
/// known only through an abstract reference.
///
/// Every type with `PartialEq` that holds no borrowed data has it. Two values
/// are equal under it where they are of one concrete type and that type's
/// `==` holds them equal; values of two types are never equal.
pub trait PartialEqObj {
    /// The referent that `self` hands out for comparison.
    spec fn comparand(&self) -> Referent<'_>;

    /// Whether `equal` is an answer that comparing `self` with the value
    /// `other` may give.
    spec fn eq_object_spec(&self, other: Referent<'_>, equal: bool) -> bool;

    /// Compares `self` with the value behind `other`.
    fn eq_object(&self, other: AnyRef<'_>) -> (equal: bool)
        ensures
            self.eq_object_spec(any_referent(other), equal),
    ;

    /// `self` as the abstract reference that `eq_object` takes.
    fn as_partial_eq_object(&self) -> (object: AnyRef<'_>)
        ensures
            any_referent(object) == self.comparand(),
    ;
}

/// What `eq_object` answers once the other value has been looked for as a
/// `T`: the answer of `T`'s own `==` where it was found, `false` where it
/// was not.
pub fn eq_found<T: PartialEq>(left: &T, found: Option<&T>) -> (equal: bool)
    ensures
        match found {
            Some(right) => call_ensures(T::eq, (left, right), equal),
            None => !equal,
        },
{
    match found {
        Some(right) => left.eq(right),
        None => false,
    }
}

impl<T> PartialEqObj for T where T: PartialEq + AsAny {
    open spec fn comparand(&self) -> Referent<'_> {
        referent_of(self)
    }

    /// Where `other` is a value of `T`, `equal` is an answer of `T`'s own
    /// `==` on `self` and that value; where it is no value of `T`, `equal`
    /// is `false`.
    open spec fn eq_object_spec(&self, other: Referent<'_>, equal: bool) -> bool {
        &&& forall|same: &T| #[trigger]
            referent_of(same) == other ==> call_ensures(T::eq, (self, same), equal)
        &&& (forall|same: &T| #[trigger] referent_of(same) != other) ==> !equal
    }

    fn eq_object(&self, other: AnyRef<'_>) -> (equal: bool) {
        let found = other.downcast_ref::<T>();
        let equal = eq_found(self, found);
        proof {
            if let Some(right) = found {
                assert(referent_of(right) == any_referent(other));
            }
        }
        equal
    }

    fn as_partial_eq_object(&self) -> (object: AnyRef<'_>) {
        self.as_any()
    }
}

/// `value`, moved behind an owning abstract reference.
pub fn to_partial_eq_object<T: PartialEq + 'static>(value: T) -> (object: Box<dyn PartialEqObj>)
    ensures
        (*object).comparand() == referent_of(&value),
        forall|other: Referent<'_>, equal: bool|
            #[trigger] (*object).eq_object_spec(other, equal) == value.eq_object_spec(other, equal),
{
    return Box::new(value);
}

/// Compares two values through their object-safe equality: `left` with the
/// abstract reference that `right` hands out. This is `==` on every type that
/// has its `PartialEq` from `PartialEqObj`.
pub fn eq_objects<X: PartialEqObj + ?Sized>(left: &X, right: &X) -> (equal: bool)
    ensures
        left.eq_object_spec(right.comparand(), equal),
{
    left.eq_object(right.as_partial_eq_object())
}

impl PartialEq for dyn PartialEqObj {
    fn eq(&self, other: &Self) -> (equal: bool)
        ensures
            self.eq_object_spec(other.comparand(), equal),
    {
        eq_objects(self, other)
    }
}

impl PartialEqSpecImpl for dyn PartialEqObj {
    /// The answer is pinned by `eq_object_spec`, a relation; so `eq` states
    /// it in a clause of its own.
    open spec fn obeys_eq_spec() -> bool {
        false
    }

    open spec fn eq_spec(&self, other: &Self) -> bool {
        self.eq_object_spec(other.comparand(), true)
    }
}

/// Whether `equal` is an answer that `left == right` may give: an answer of
/// the object-safe equality on what the two payloads dereference to.
pub open spec fn obj_eq_spec<T: Deref>(left: &Obj<T>, right: &Obj<T>, equal: bool) -> bool where
    T::Target: PartialEqObj,
 {
    exists|one: &T::Target|
        #[trigger] call_ensures(T::deref, (&left.0,), one) && exists|other: &T::Target|
            #[trigger] call_ensures(T::deref, (&right.0,), other) && one.eq_object_spec(
                other.comparand(),
                equal,
            )
}

impl<T: Deref> PartialEq for Obj<T> where T::Target: PartialEqObj, Obj<T>: 'static {
    fn eq(&self, other: &Self) -> (equal: bool)
        ensures
            obj_eq_spec(self, other, equal),
    {
        eq_objects(self.0.deref(), other.0.deref())
    }
}

impl<T: Deref> PartialEqSpecImpl for Obj<T> where T::Target: PartialEqObj, Obj<T>: 'static {
    /// The answer is pinned by `obj_eq_spec`, a relation; so `eq` states it
    /// in a clause of its own.
    open spec fn obeys_eq_spec() -> bool {
        false
    }

    open spec fn eq_spec(&self, other: &Self) -> bool {
        obj_eq_spec(self, other, true)
    }
}

/// Between two values of one type, the object-safe equality answers as the
/// type's own `==` does.
pub proof fn lemma_same_type<T: PartialEq + 'static>(left: &T, right: &T, equal: bool)
    requires
        left.eq_object_spec(referent_of(right), equal),
    ensures
        call_ensures(T::eq, (left, right), equal),
        T::obeys_eq_spec() ==> equal == left.eq_spec(right),
{
}

/// Against a value of another type, the object-safe equality answers
/// `false`, whatever the two values hold.
pub proof fn lemma_other_type<T: PartialEq + 'static, U: 'static>(
    left: &T,
    right: &U,
    equal: bool,
)
    requires
        left.eq_object_spec(referent_of(right), equal),
        forall|same: &T| #[trigger] referent_of(same) != referent_of(right),
    ensures
        !equal,
{
}

} // verus!
