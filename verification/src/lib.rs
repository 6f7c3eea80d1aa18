//! Two wrappers that decide when, and whether, the destructor of the value
//! they hold runs.
//!
//! [`ManuallyDrop`] never runs it: the holder takes the value out and drops
//! it, or leaks it. [`MaybeDangling`] runs it exactly once, when the wrapper
//! itself goes away.
//!
//! Each wrapper stores its value and nothing else, and stands for it: the
//! view of a wrapper is the value it holds.

pub mod manually_drop;
pub mod maybe_dangling;
mod trusted;

pub use crate::manually_drop::ManuallyDrop;
pub use crate::maybe_dangling::MaybeDangling;
