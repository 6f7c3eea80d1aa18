//! The calls into `core` whose behaviour the verifier takes on trust.

use vstd::prelude::*;

verus! {

/// `core::fmt::Formatter`, carried through and never looked into.
#[verifier::external_type_specification]
#[verifier::external_body]
pub struct ExFormatter<'a>(core::fmt::Formatter<'a>);

/// `core::fmt::Error`, carried through and never looked into.
#[verifier::external_type_specification]
#[verifier::external_body]
pub struct ExFmtError(core::fmt::Error);

/// `DerefMut::deref_mut` of `core::mem::ManuallyDrop`.
///
/// Trusted: the reference that comes back points at the wrapped value, so it
/// reads what the wrapper held at the call, and the wrapper ends up holding
/// whatever the reference is left with.
#[verifier::external_body]
pub(crate) fn inner_mut<T>(wrapper: &mut core::mem::ManuallyDrop<T>) -> (inner: &mut T)
    ensures
        *inner == old(wrapper)@,
        *final(inner) == final(wrapper)@,
{
    core::ops::DerefMut::deref_mut(wrapper)
}

/// `Clone::clone_from` of any `T`.
///
/// Trusted, with nothing claimed: the trait asks implementors to leave in
/// `target` what `target = source.clone()` would, and holds none of them to
/// it, so what `target` ends up with is `T`'s own business.
#[verifier::external_body]
pub(crate) fn clone_into<T: Clone>(target: &mut T, source: &T) {
    target.clone_from(source)
}

/// `Hash::hash` of any `T`.
///
/// Trusted, with nothing claimed: what a hasher's state is after the call is
/// not modelled.
#[verifier::external_body]
pub(crate) fn hash_into<T: core::hash::Hash, H: core::hash::Hasher>(value: &T, state: &mut H) {
    value.hash(state)
}

/// `Debug::fmt` of any `T`.
///
/// Trusted, with nothing claimed: what has been written to a formatter is not
/// modelled.
#[verifier::external_body]
pub(crate) fn debug_into<T: core::fmt::Debug>(
    value: &T,
    f: &mut core::fmt::Formatter<'_>,
) -> (done: Result<(), core::fmt::Error>) {
    value.fmt(f)
}

} // verus!
