//! The view of a value whose initialization is under way.

use crate::needs_init::NeedsPinnedInit;
use vstd::prelude::*;

verus! {

/// A type that can show itself, pinned and not yet initialized, as a set of
/// handles: one [`NeedsInit`](crate::needs_init::NeedsInit) for each field
/// that is set after pinning, one
/// [`NeedsPinnedInit`](crate::needs_init::NeedsPinnedInit) for each field
/// that is itself initialized where it lies, and plain access to the rest.
///
/// Each implementation adds, to what is stated here, that whatever is
/// written through the handles is what the value holds when they are gone.
pub trait BeginInit: Sized {
    /// The handles.
    type OngoingInit<'init> where Self: 'init;

    /// The value that the handles show at present.
    spec fn shown<'init>(ongoing: Self::OngoingInit<'init>) -> Self;

    /// Takes the value apart into its handles. These show the value as it is.
    fn __begin_init<'init>(this: NeedsPinnedInit<'init, Self>) -> (ongoing: Self::OngoingInit<
        'init,
    >)
        ensures
            Self::shown(ongoing) == *this.target(),
    ;
}

} // verus!
