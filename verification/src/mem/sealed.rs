//! Keeps the set of owning pointers that can be guarded closed.

use vstd::prelude::*;

verus! {

/// Implemented by the owning pointers that a guard can be made from, and
/// by nothing outside of this crate.
pub trait Sealed {

}

impl<T> Sealed for Vec<T> {

}

impl<T> Sealed for Box<T> {

}

} // verus!
