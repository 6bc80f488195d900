//! The capabilities that initialization runs on.
//!
//! A [`NeedsPinnedInit`] is the handoff token: whoever holds it may
//! initialize the value it points to, and nobody else can reach that value
//! while it exists. It is made from exclusive access to the value, cannot be
//! copied, and is used up by the one call that starts the initialization.
//! A [`NeedsInit`] is the same for a single field.

use crate::private::BeginInit;
use crate::static_uninit::StaticUninit;
use vstd::prelude::*;

verus! {

/// The permission to initialize one pinned value of `T`.
pub struct NeedsPinnedInit<'init, T> {
    place: &'init mut T,
}

impl<'init, T> NeedsPinnedInit<'init, T> {
    /// The value that the token gives access to.
    pub closed spec fn target(self) -> &'init mut T {
        self.place
    }

    /// Makes the token for the value behind `place`. The exclusive borrow
    /// vouches that there is no second one: as long as the token lives, the
    /// value can be reached through it alone, and what the token's holder
    /// leaves there is what `place` holds afterwards.
    pub fn new_unchecked(place: &'init mut T) -> (token: Self)
        ensures
            *token.target() == *old(place),
            *final(token.target()) == *final(place),
    {
        NeedsPinnedInit { place }
    }

    /// Gives the token up for the access it was made from.
    pub fn into_inner(self) -> (place: &'init mut T)
        ensures
            *place == *self.target(),
            *final(place) == *final(self.target()),
    {
        self.place
    }
}

impl<'init, T: BeginInit> NeedsPinnedInit<'init, T> {
    /// Starts the initialization: uses the token up and gives the handles to
    /// the fields of the value in exchange. The handles are those that `T`
    /// makes of the token, with everything that `T` promises of them.
    pub fn begin_init(self) -> (ongoing: T::OngoingInit<'init>)
        ensures
            T::shown(ongoing) == *self.target(),
            call_ensures(T::__begin_init, (self,), ongoing),
    {
        // Called as a value, so that the promise of the implementation at
        // hand is what the caller gets.
        let begin = T::__begin_init;
        begin(self)
    }
}

/// The permission to initialize one field.
pub struct NeedsInit<'init, T> {
    place: &'init mut T,
}

impl<'init, T> NeedsInit<'init, T> {
    /// The field that the capability gives access to.
    pub closed spec fn target(self) -> &'init mut T {
        self.place
    }

    /// Makes the capability for the field behind `place`.
    pub fn new_unchecked(place: &'init mut T) -> (token: Self)
        ensures
            *token.target() == *old(place),
            *final(token.target()) == *final(place),
    {
        NeedsInit { place }
    }
}

impl<'init, T> NeedsInit<'init, StaticUninit<T, false>> {
    /// Writes `value` to the field and uses the capability up, so that the
    /// field is written once.
    pub fn init(self, value: T)
        ensures
            *final(self.target()) == self.target().written(value),
    {
        self.place.write(value);
    }
}

} // verus!
