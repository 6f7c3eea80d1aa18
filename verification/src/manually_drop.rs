//! A wrapper that never runs the destructor of what it holds.

use crate::trusted::{clone_into, debug_into, hash_into, inner_mut};
use vstd::prelude::*;
use vstd::std_specs::cmp::{PartialEqSpec, PartialOrdSpec};

verus! {

/// A wrapper that keeps the compiler from running `T`'s destructor.
///
/// The wrapper holds one value from [`ManuallyDrop::new`] on. Letting it go
/// out of scope has no effect on the value, which is then leaked; to run the
/// destructor, take the value out with [`ManuallyDrop::into_inner`] and drop
/// it.
///
/// The view is the held value. The wrapper stores that value and nothing
/// else.
///
/// `*`, `Clone`, `Default`, `==`, the orderings, `Hash` and `Debug` go by the
/// held value, as they would on a bare `T`.
#[derive(Copy, Eq, Ord)]
pub struct ManuallyDrop<T> {
    value: core::mem::ManuallyDrop<T>,
}

impl<T> View for ManuallyDrop<T> {
    type V = T;

    closed spec fn view(&self) -> T {
        self.value@
    }
}

impl<T> ManuallyDrop<T> {
    /// Wraps a value whose destructor is to be run by hand, if at all.
    #[inline]
    pub fn new(value: T) -> (slot: ManuallyDrop<T>)
        ensures
            slot@ == value,
    {
        ManuallyDrop { value: core::mem::ManuallyDrop::new(value) }
    }

    /// Consumes the wrapper and gives back the value it holds.
    #[inline]
    pub fn into_inner(slot: ManuallyDrop<T>) -> (value: T)
        ensures
            value == slot@,
    {
        core::mem::ManuallyDrop::into_inner(slot.value)
    }
}

impl<T> core::ops::Deref for ManuallyDrop<T> {
    type Target = T;

    /// Shared access to the held value.
    #[inline]
    fn deref(&self) -> (value: &T)
        ensures
            *value == self@,
    {
        &self.value
    }
}

impl<T> core::ops::DerefMut for ManuallyDrop<T> {
    /// Exclusive access to the held value: the wrapper ends up holding
    /// whatever is written through the reference.
    #[inline]
    fn deref_mut(&mut self) -> (value: &mut T)
        ensures
            *value == old(self)@,
            *final(value) == final(self)@,
    {
        inner_mut(&mut self.value)
    }
}

impl<T: Default> Default for ManuallyDrop<T> {
    /// A wrapper that holds `T`'s default value.
    #[inline]
    fn default() -> (slot: Self)
        ensures
            call_ensures(T::default, (), slot@),
    {
        ManuallyDrop::new(T::default())
    }
}

impl<T: Clone> Clone for ManuallyDrop<T> {
    /// A wrapper of its own that holds a clone of the held value.
    fn clone(&self) -> (copy: Self)
        ensures
            cloned(self@, copy@),
    {
        let held: &T = &self.value;
        ManuallyDrop::new(held.clone())
    }

    /// Hands the two held values to `T`'s own `clone_from`: `self` ends up
    /// holding what that left behind.
    #[inline]
    fn clone_from(&mut self, source: &Self) {
        clone_into(inner_mut(&mut self.value), &source.value)
    }
}

impl<T: PartialEq> PartialEq for ManuallyDrop<T> {
    /// Compares the held values with `T`'s `==`.
    #[inline]
    fn eq(&self, other: &Self) -> (same: bool) {
        let mine: &T = &self.value;
        let theirs: &T = &other.value;
        mine == theirs
    }
}

impl<T: PartialEq> vstd::std_specs::cmp::PartialEqSpecImpl for ManuallyDrop<T> {
    open spec fn obeys_eq_spec() -> bool {
        T::obeys_eq_spec()
    }

    open spec fn eq_spec(&self, other: &Self) -> bool {
        self@.eq_spec(&other@)
    }
}

impl<T: PartialOrd> PartialOrd for ManuallyDrop<T> {
    /// Orders by the held values, with `T`'s `partial_cmp`.
    #[inline]
    fn partial_cmp(&self, other: &Self) -> (order: Option<core::cmp::Ordering>) {
        let mine: &T = &self.value;
        let theirs: &T = &other.value;
        mine.partial_cmp(theirs)
    }
}

impl<T: PartialOrd> vstd::std_specs::cmp::PartialOrdSpecImpl for ManuallyDrop<T> {
    open spec fn obeys_partial_cmp_spec() -> bool {
        T::obeys_partial_cmp_spec()
    }

    open spec fn partial_cmp_spec(&self, other: &Self) -> Option<core::cmp::Ordering> {
        self@.partial_cmp_spec(&other@)
    }
}

impl<T: core::hash::Hash> core::hash::Hash for ManuallyDrop<T> {
    /// Feeds the held value to the hasher, as `T` itself would be fed.
    #[inline]
    fn hash<H: core::hash::Hasher>(&self, state: &mut H) {
        hash_into::<T, H>(&self.value, state)
    }
}

impl<T: core::fmt::Debug> core::fmt::Debug for ManuallyDrop<T> {
    /// Formats the held value as `T` itself would be formatted.
    #[inline]
    fn fmt(&self, f: &mut core::fmt::Formatter<'_>) -> (done: Result<(), core::fmt::Error>) {
        debug_into::<T>(&self.value, f)
    }
}

/// Wrapping a value and unwrapping it again gives the value back: `into_inner`
/// accepts every wrapper that `new` can return for `value`, and can return
/// nothing but `value` for it.
pub proof fn lemma_new_then_into_inner<T>(value: T, slot: ManuallyDrop<T>)
    requires
        call_ensures(ManuallyDrop::<T>::new, (value,), slot),
    ensures
        call_requires(ManuallyDrop::<T>::into_inner, (slot,)),
        forall|out: T|
            call_ensures(ManuallyDrop::<T>::into_inner, (slot,), out) ==> out == value,
{
}

} // verus!
