//! Keeps [`SafePinnedInit`](crate::SafePinnedInit) to the pinned pointers of
//! this library.

use crate::ptr::{OwnedUniquePtr, Pinned};
use crate::PinnedInit;
use vstd::prelude::*;

verus! {

/// Implemented for pinned ownership pointers and for nothing else.
pub trait Sealed<T: PinnedInit> {

}

impl<T: PinnedInit, P: OwnedUniquePtr<T>> Sealed<T> for Pinned<P> {

}

} // verus!
