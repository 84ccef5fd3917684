use core::any::Any;
use vstd::prelude::*;

verus! {

/// Implemented by every type and asking nothing of it. In contracts,
/// `dyn Erased` is the one type that holds a value of any type together with
/// the type it has.
pub trait Erased {

}

impl<T> Erased for T {

}

/// What an abstract reference refers to: a value and its concrete type, with
/// the type forgotten statically. Two referents are equal where they are the
/// same value of the same type.
pub struct Referent<'a>(pub &'a dyn Erased);

/// The referent that `value` is.
pub open spec fn referent_of<T>(value: &T) -> Referent<'_> {
    Referent(value)
}

/// A borrowed value whose concrete type can be tested while the program runs.
///
/// It holds a `&dyn Any`. `Any` is a trait of std that Verus takes in no
/// signature and in no field, so the field is hidden from it, and what the
/// reference refers to has the name `any_referent`.
#[verifier::external_body]
pub struct AnyRef<'a>(&'a dyn Any);

/// The referent behind `any`.
pub uninterp spec fn any_referent(any: AnyRef<'_>) -> Referent<'_>;

/// Views `value` as a `&dyn Any`. This is the unsizing coercion of the
/// language: the reference refers to `value`, and to the type `T` as the type
/// of it.
#[verifier::external_body]
fn any_ref<T: 'static>(value: &T) -> (any: AnyRef<'_>)
    ensures
        any_referent(any) == referent_of(value),
{
    AnyRef(value)
}

/// Calls `<dyn Any>::downcast_ref::<T>`, which hands out the value behind
/// `any` as a `&T` if that value is of type `T`, and `None` if it is of
/// another type. So `found` is `Some(value)` for the `value` of type `T` that
/// `any` refers to, and for nothing else.
#[verifier::external_body]
fn any_downcast_ref<'a, T: 'static>(any: &AnyRef<'a>) -> (found: Option<&'a T>)
    ensures
        forall|value: &T| #[trigger]
            referent_of(value) == any_referent(*any) <==> found == Some(value),
{
    any.0.downcast_ref::<T>()
}

impl<'a> AnyRef<'a> {
    /// The value behind `self` as a `T`, where it is one: `Some(value)` for
    /// the `value` of type `T` that `self` refers to, `None` where `self`
    /// refers to a value of another type.
    pub fn downcast_ref<T: 'static>(&self) -> (found: Option<&'a T>)
        ensures
            forall|value: &T| #[trigger]
                referent_of(value) == any_referent(*self) <==> found == Some(value),
    {
        any_downcast_ref::<T>(self)
    }
}

/// The type-identity accessor. Every type that holds no borrowed data has it.
pub trait AsAny: 'static {
    /// The referent that `self` is.
    spec fn referent(&self) -> Referent<'_>;

    /// `self` as a reference whose concrete type can be tested.
    fn as_any(&self) -> (any: AnyRef<'_>)
        ensures
            any_referent(any) == self.referent(),
    ;
}

impl<T: 'static> AsAny for T {
    open spec fn referent(&self) -> Referent<'_> {
        referent_of(self)
    }

    fn as_any(&self) -> (any: AnyRef<'_>) {
        any_ref(self)
    }
}

} // verus!
