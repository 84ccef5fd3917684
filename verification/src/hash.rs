use crate::any::{referent_of, Referent};
use crate::obj::Obj;
use core::hash::{Hash, Hasher};
use core::ops::Deref;
use vstd::prelude::*;

verus! {

/// The state of a hasher, as contracts see it: a hasher of any type, with the
/// type forgotten statically.
pub struct HasherState<'a>(pub &'a dyn Hasher);

/// The state that `hasher` is in.
pub open spec fn state_of<H: Hasher>(hasher: &H) -> HasherState<'_> {
    HasherState(hasher)
}

/// An open-ended hash accumulator, borrowed for writing: a hasher of any
/// type, with the type forgotten statically.
pub struct HashSink<'a>(pub &'a mut dyn Hasher);

impl<'a> HashSink<'a> {
    /// The state that the hasher behind the sink is in.
    pub open spec fn state(&self) -> HasherState<'_> {
        HasherState(&*self.0)
    }
}

/// Whether `Hash::hash` of the value `value` may take a hasher from the state
/// `before` to the state `after`.
pub uninterp spec fn hash_feeds(
    value: Referent<'_>,
    before: HasherState<'_>,
    after: HasherState<'_>,
) -> bool;

/// Borrows `hasher` as a sink. This is the unsizing coercion of the language:
/// the sink starts in the state of `hasher`, and `hasher` ends in the state
/// that the sink is left in.
#[verifier::external_body]
fn sink_of<H: Hasher>(hasher: &mut H) -> (sink: HashSink<'_>)
    ensures
        sink.state() == state_of(old(hasher)),
        HasherState(&*final(sink.0)) == state_of(final(hasher)),
{
    HashSink(hasher)
}

/// Calls `Hash::hash` of `value` on the hasher behind `sink`. What that does
/// to the hasher is for the impl of `T` to say, so it is stated by name only.
/// The sink goes on borrowing the same hasher.
#[verifier::external_body]
fn hash_value<T: Hash>(value: &T, sink: &mut HashSink<'_>)
    ensures
        hash_feeds(referent_of(value), old(sink).state(), final(sink).state()),
        HasherState(&*final(final(sink).0)) == HasherState(&*final(old(sink).0)),
{
    value.hash(&mut sink.0);
}

/// The object-safe form of `Hash`. Every type with `Hash` has it, and feeds a
/// hasher through it as its own `Hash` does.
pub trait HashObj {
    /// Whether feeding `self` to a hasher may take it from the state `before`
    /// to the state `after`.
    spec fn hash_object_spec(&self, before: HasherState<'_>, after: HasherState<'_>) -> bool;

    /// Feeds `self` to the hasher behind `sink`, which goes on borrowing the
    /// same hasher.
    fn hash_object(&self, sink: &mut HashSink<'_>)
        ensures
            self.hash_object_spec(old(sink).state(), final(sink).state()),
            HasherState(&*final(final(sink).0)) == HasherState(&*final(old(sink).0)),
    ;
}

impl<T: Hash> HashObj for T {
    open spec fn hash_object_spec(&self, before: HasherState<'_>, after: HasherState<'_>) -> bool {
        hash_feeds(referent_of(self), before, after)
    }

    fn hash_object(&self, sink: &mut HashSink<'_>) {
        hash_value(self, sink);
    }
}

/// `value` as an abstract reference.
pub fn as_hash_object<T: Hash>(value: &T) -> (object: &dyn HashObj)
    ensures
        forall|before: HasherState<'_>, after: HasherState<'_>|
            #[trigger] object.hash_object_spec(before, after) == value.hash_object_spec(
                before,
                after,
            ),
{
    return value;
}

/// `value`, moved behind an owning abstract reference.
pub fn to_hash_object<T: Hash + 'static>(value: T) -> (object: Box<dyn HashObj>)
    ensures
        forall|before: HasherState<'_>, after: HasherState<'_>|
            #[trigger] (*object).hash_object_spec(before, after) == value.hash_object_spec(
                before,
                after,
            ),
{
    return Box::new(value);
}

/// Feeds `object` to `state` through its object-safe hashing. This is `hash`
/// on every type that has its `Hash` from `HashObj`.
pub fn hash_into<X: HashObj + ?Sized, H: Hasher>(object: &X, state: &mut H)
    ensures
        object.hash_object_spec(state_of(old(state)), state_of(final(state))),
{
    let mut sink = sink_of(state);
    object.hash_object(&mut sink);
}

impl Hash for dyn HashObj {
    fn hash<H: Hasher>(&self, state: &mut H)
        ensures
            self.hash_object_spec(state_of(old(state)), state_of(final(state))),
    {
        hash_into(self, state);
    }
}

impl<T: Deref> Hash for Obj<T> where T::Target: HashObj {
    fn hash<H: Hasher>(&self, state: &mut H)
        ensures
            exists|target: &T::Target|
                #[trigger] call_ensures(T::deref, (&self.0,), target) && target.hash_object_spec(
                    state_of(old(state)),
                    state_of(final(state)),
                ),
    {
        hash_into(self.0.deref(), state);
    }
}

/// Whether the own hashing of `T` tells no two values apart for which the own
/// `==` of `T` may answer `true`: what std asks of a type with both `Hash` and
/// `Eq`.
pub open spec fn hash_respects_eq<T: Hash + PartialEq>() -> bool {
    forall|left: &T, right: &T, before: HasherState<'_>, after: HasherState<'_>|
        call_ensures(T::eq, (left, right), true) ==> (#[trigger] hash_feeds(
            referent_of(left),
            before,
            after,
        ) <==> #[trigger] hash_feeds(referent_of(right), before, after))
}

/// Where the type's own hashing respects its own `==`, two values that are
/// equal under that `==` feed every hasher alike through the object-safe
/// hashing.
pub proof fn lemma_equal_values_hash_alike<T: Hash + PartialEq>(
    left: &T,
    right: &T,
    before: HasherState<'_>,
    after: HasherState<'_>,
)
    requires
        hash_respects_eq::<T>(),
        call_ensures(T::eq, (left, right), true),
    ensures
        left.hash_object_spec(before, after) <==> right.hash_object_spec(before, after),
{
}

} // verus!
