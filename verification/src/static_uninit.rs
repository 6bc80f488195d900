//! A field that is set only after its owner has been pinned.
//!
//! [`StaticUninit`] is a cell that holds either nothing or a value. Whether it
//! holds one is part of its type: a `StaticUninit<T, false>` may be empty and
//! cannot be read; a `StaticUninit<T, true>` is never empty and is read
//! without a check. The only way from the first to the second is
//! [`TransmuteInto`], which asks that the value has been written.
//!
//! Writing goes through a [`NeedsInit`](crate::needs_init::NeedsInit), a
//! capability that is used up by the write.

use crate::transmute::TransmuteInto;
use vstd::prelude::*;

verus! {

/// A cell for a value of `T` that is computed late. `INIT` says whether the
/// cell is known to hold its value.
#[derive(Debug)]
pub struct StaticUninit<T, const INIT: bool> {
    value: Option<T>,
}

impl<T, const INIT: bool> View for StaticUninit<T, INIT> {
    type V = Option<T>;

    closed spec fn view(&self) -> Option<T> {
        self.value
    }
}

impl<T, const INIT: bool> StaticUninit<T, INIT> {
    #[verifier::type_invariant]
    spec fn holds_what_it_claims(&self) -> bool {
        INIT ==> self.value.is_some()
    }
}

impl<T, const INIT: bool> StaticUninit<T, INIT> {
    /// What the cell holds, if anything. A cell that is known to hold its
    /// value is read with [`get`](StaticUninit::get) instead.
    pub(crate) fn peek(&self) -> (held: Option<&T>)
        ensures
            match held {
                Some(value) => self@ == Some(*value),
                None => self@.is_none(),
            },
    {
        self.value.as_ref()
    }

    /// Whether the cell holds a value.
    pub fn is_set(&self) -> (set: bool)
        ensures
            set == self@.is_some(),
    {
        self.value.is_some()
    }
}

impl<T> StaticUninit<T, false> {
    /// The cell as it is after `value` has been written to it.
    pub closed spec fn written(self, value: T) -> Self {
        StaticUninit { value: Some(value) }
    }

    /// What a written cell holds.
    pub proof fn lemma_written_view(self, value: T)
        ensures
            self.written(value)@ == Some(value),
    {
    }

    /// An empty cell.
    pub fn uninit() -> (cell: Self)
        ensures
            cell@.is_none(),
    {
        StaticUninit { value: None }
    }

    pub(crate) fn write(&mut self, value: T)
        ensures
            *final(self) == old(self).written(value),
    {
        self.value = Some(value);
    }
}

impl<T> StaticUninit<T, true> {
    /// The value that the cell holds.
    pub open spec fn value(&self) -> T {
        self@.unwrap()
    }

    /// Reads the value.
    pub fn get(&self) -> (value: &T)
        ensures
            self@ == Some(*value),
    {
        proof {
            use_type_invariant(self);
        }
        self.value.as_ref().unwrap()
    }

    /// The cell as it is after its value has been replaced by `value`.
    pub closed spec fn replaced(self, value: T) -> Self {
        StaticUninit { value: Some(value) }
    }

    /// What a cell holds whose value has been replaced.
    pub proof fn lemma_replaced_view(self, value: T)
        ensures
            self.replaced(value)@ == Some(value),
    {
    }

    /// Replaces the value.
    pub fn set(&mut self, value: T)
        ensures
            *final(self) == old(self).replaced(value),
            final(self)@ == Some(value),
        no_unwind
    {
        self.value = Some(value);
    }

    /// Access to the value where it lies.
    pub fn get_mut(&mut self) -> (value: &mut T)
        ensures
            old(self)@ == Some(*value),
            final(self)@ == Some(*final(value)),
        no_unwind
    {
        proof {
            use_type_invariant(&*self);
        }
        some_mut(&mut self.value)
    }
}

/// The value inside an option that holds one, where it lies.
fn some_mut<T>(option: &mut Option<T>) -> (value: &mut T)
    requires
        old(option).is_some(),
    ensures
        *old(option) == Some(*value),
        *final(option) == Some(*final(value)),
    no_unwind
{
    match option {
        Some(value) => value,
        None => vstd::pervasive::unreached(),
    }
}

impl<T> TransmuteInto<StaticUninit<T, true>> for StaticUninit<T, false> {
    /// A cell may be taken as initialized once it has been written.
    open spec fn transmutable(&self) -> bool {
        self@.is_some()
    }

    closed spec fn transmuted(&self) -> StaticUninit<T, true> {
        StaticUninit { value: self.value }
    }

    fn can_transmute(&self) -> (yes: bool) {
        self.is_set()
    }

    fn transmute(self) -> (target: StaticUninit<T, true>)
        ensures
            target@ == self@,
    {
        StaticUninit { value: self.value }
    }
}

/// The change of representation keeps what the cell holds.
pub proof fn lemma_transmuted_view<T>(cell: StaticUninit<T, false>)
    ensures
        cell.transmuted()@ == cell@,
{
}

/// Round trip: a value written to a cell is the value read from it once the
/// cell has become initialized, whatever the cell held before and whatever
/// the value is.
pub proof fn lemma_write_then_read<T>(cell: StaticUninit<T, false>, value: T)
    ensures
        cell.written(value).transmutable(),
        cell.written(value).transmuted().value() == value,
{
}

} // verus!
