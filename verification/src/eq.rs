use crate::any::{AnyRef, Referent};
use crate::obj::Obj;
use crate::partial_eq::{eq_objects, PartialEqObj};
use core::ops::Deref;
use vstd::prelude::*;
use vstd::std_specs::cmp::PartialEqSpecImpl;

verus! {

/// The object-safe form of `Eq`. Every type with `Eq` and `PartialEqObj` has
/// it. It adds no behaviour to `PartialEqObj`: it marks that the type's `==`
/// is meant as an equivalence relation, which the type promises and nothing
/// here checks.
pub trait EqObj {
    /// `self` as the partial-equality object that it is.
    spec fn eq_object_view(&self) -> Obj<&dyn PartialEqObj>;

    /// `self` as an abstract reference to a value with a total equality.
    fn as_eq_object(&self) -> (object: Obj<&dyn PartialEqObj>)
        ensures
            object == self.eq_object_view(),
    ;
}

impl<T> EqObj for T where T: Eq + PartialEqObj {
    open spec fn eq_object_view(&self) -> Obj<&dyn PartialEqObj> {
        Obj(self)
    }

    fn as_eq_object(&self) -> (object: Obj<&dyn PartialEqObj>) {
        Obj(self)
    }
}

/// `value`, moved behind an owning abstract reference.
pub fn to_eq_object<T: Eq + 'static>(value: T) -> (object: Box<dyn EqObj>)
    ensures
        (*object).eq_object_view() == value.eq_object_view(),
{
    return Box::new(value);
}

/// An abstract reference to a value with a total equality compares as the
/// value behind it does.
impl PartialEqObj for dyn EqObj {
    open spec fn comparand(&self) -> Referent<'_> {
        self.eq_object_view().0.comparand()
    }

    open spec fn eq_object_spec(&self, other: Referent<'_>, equal: bool) -> bool {
        self.eq_object_view().0.eq_object_spec(other, equal)
    }

    fn eq_object(&self, other: AnyRef<'_>) -> (equal: bool) {
        self.as_eq_object().0.eq_object(other)
    }

    fn as_partial_eq_object(&self) -> (object: AnyRef<'_>) {
        self.as_eq_object().0.as_partial_eq_object()
    }
}

impl PartialEq for dyn EqObj {
    fn eq(&self, other: &Self) -> (equal: bool)
        ensures
            self.eq_object_spec(other.comparand(), equal),
    {
        eq_objects(self, other)
    }
}

impl PartialEqSpecImpl for dyn EqObj {
    /// The answer is pinned by `eq_object_spec`, a relation; so `eq` states
    /// it in a clause of its own.
    open spec fn obeys_eq_spec() -> bool {
        false
    }

    open spec fn eq_spec(&self, other: &Self) -> bool {
        self.eq_object_spec(other.comparand(), true)
    }
}

impl Eq for dyn EqObj {

}

impl<T: Deref> Eq for Obj<T> where T::Target: EqObj + PartialEqObj, Obj<T>: 'static {

}

} // verus!
