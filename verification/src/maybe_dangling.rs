//! A wrapper that runs the destructor of what it holds when it goes away.

use crate::trusted::{clone_into, debug_into, hash_into};
use vstd::prelude::*;
use vstd::std_specs::cmp::{PartialEqSpec, PartialOrdSpec};

verus! {

/// A field of no size that has a destructor of its own.
///
/// The destructor does nothing, but the compiler cannot tell that it leaves
/// `T` alone. So a type with this field is only allowed to go away while
/// everything that `T` borrows is still there.
#[derive(PartialEq, Eq, PartialOrd, Ord)]
struct Strict<T> {
    owns: core::marker::PhantomData<T>,
}

impl<T> Drop for Strict<T> {
    fn drop(&mut self)
        opens_invariants none
        no_unwind
    {
    }
}

/// Like [`crate::ManuallyDrop`], but the destructor of the held value runs,
/// exactly once, when the wrapper goes away.
///
/// The view is the held value. The wrapper stores that value and nothing
/// else of any size.
///
/// The compiler asks that whatever `T` borrows outlives the wrapper, also
/// where `T` itself has no destructor.
///
/// `*`, `Clone`, `Default`, `==`, the orderings, `Hash` and `Debug` go by the
/// held value, as they would on a bare `T`.
#[derive(Eq, Ord)]
pub struct MaybeDangling<T> {
    value: T,
    strict: Strict<T>,
}

impl<T> View for MaybeDangling<T> {
    type V = T;

    closed spec fn view(&self) -> T {
        self.value
    }
}

impl<T> MaybeDangling<T> {
    /// Wraps a value.
    pub fn new(value: T) -> (slot: MaybeDangling<T>)
        ensures
            slot@ == value,
    {
        MaybeDangling { value, strict: Strict { owns: core::marker::PhantomData } }
    }

    /// Consumes the wrapper and gives back the value it holds, without
    /// running the value's destructor.
    #[inline]
    pub fn into_inner(slot: MaybeDangling<T>) -> (value: T)
        ensures
            value == slot@,
    {
        let MaybeDangling { value, strict: _ } = slot;
        value
    }
}

impl<T> core::ops::Deref for MaybeDangling<T> {
    type Target = T;

    /// Shared access to the held value.
    #[inline]
    fn deref(&self) -> (value: &T)
        ensures
            *value == self@,
    {
        &self.value
    }
}

impl<T> core::ops::DerefMut for MaybeDangling<T> {
    /// Exclusive access to the held value: the wrapper ends up holding
    /// whatever is written through the reference.
    #[inline]
    fn deref_mut(&mut self) -> (value: &mut T)
        ensures
            *value == old(self)@,
            *final(value) == final(self)@,
    {
        &mut self.value
    }
}

impl<T: Default> Default for MaybeDangling<T> {
    /// A wrapper that holds `T`'s default value.
    #[inline]
    fn default() -> (slot: Self)
        ensures
            call_ensures(T::default, (), slot@),
    {
        MaybeDangling::new(T::default())
    }
}

impl<T: Clone> Clone for MaybeDangling<T> {
    /// A wrapper of its own that holds a clone of the held value.
    fn clone(&self) -> (copy: Self)
        ensures
            cloned(self@, copy@),
    {
        MaybeDangling::new(self.value.clone())
    }

    /// Hands the two held values to `T`'s own `clone_from`: `self` ends up
    /// holding what that left behind.
    fn clone_from(&mut self, source: &Self) {
        clone_into(&mut self.value, &source.value)
    }
}

impl<T: PartialEq> PartialEq for MaybeDangling<T> {
    /// Compares the held values with `T`'s `==`.
    #[inline]
    fn eq(&self, other: &Self) -> (same: bool) {
        self.value == other.value
    }
}

impl<T: PartialEq> vstd::std_specs::cmp::PartialEqSpecImpl for MaybeDangling<T> {
    open spec fn obeys_eq_spec() -> bool {
        T::obeys_eq_spec()
    }

    open spec fn eq_spec(&self, other: &Self) -> bool {
        self@.eq_spec(&other@)
    }
}

impl<T: PartialOrd> PartialOrd for MaybeDangling<T> {
    /// Orders by the held values, with `T`'s `partial_cmp`.
    #[inline]
    fn partial_cmp(&self, other: &Self) -> (order: Option<core::cmp::Ordering>) {
        self.value.partial_cmp(&other.value)
    }
}

impl<T: PartialOrd> vstd::std_specs::cmp::PartialOrdSpecImpl for MaybeDangling<T> {
    open spec fn obeys_partial_cmp_spec() -> bool {
        T::obeys_partial_cmp_spec()
    }

    open spec fn partial_cmp_spec(&self, other: &Self) -> Option<core::cmp::Ordering> {
        self@.partial_cmp_spec(&other@)
    }
}

impl<T: core::hash::Hash> core::hash::Hash for MaybeDangling<T> {
    /// Feeds the held value to the hasher, as `T` itself would be fed.
    #[inline]
    fn hash<H: core::hash::Hasher>(&self, state: &mut H) {
        hash_into(&self.value, state)
    }
}

impl<T: core::fmt::Debug> core::fmt::Debug for MaybeDangling<T> {
    /// Formats the held value as `T` itself would be formatted.
    #[inline]
    fn fmt(&self, f: &mut core::fmt::Formatter<'_>) -> (done: Result<(), core::fmt::Error>) {
        debug_into(&self.value, f)
    }
}

/// Wrapping a value and unwrapping it again gives the value back: `into_inner`
/// accepts every wrapper that `new` can return for `value`, and can return
/// nothing but `value` for it.
pub proof fn lemma_new_then_into_inner<T>(value: T, slot: MaybeDangling<T>)
    requires
        call_ensures(MaybeDangling::<T>::new, (value,), slot),
    ensures
        call_requires(MaybeDangling::<T>::into_inner, (slot,)),
        forall|out: T|
            call_ensures(MaybeDangling::<T>::into_inner, (slot,), out) ==> out == value,
{
}

} // verus!
