//! Pinned storage: one heap place that holds a value in either of its two
//! representations.
//!
//! A [`Place`] is acquired once, fallibly, and is never reallocated: the
//! uninitialized value is written into it, initialized where it lies, handed
//! out for the change of representation and taken back into the same cell.
//! Nothing in this module allocates after [`Place::try_new`] or
//! [`Place::try_new_with`] has returned.

use crate::handoff::{Stage, Step};
use std::collections::TryReserveError;
use vstd::prelude::*;

verus! {

/// The backing storage for a place could not be acquired.
#[derive(Clone, Copy, Debug, PartialEq, Eq, Structural)]
pub struct AllocError;

/// What a place holds.
#[derive(Debug)]
pub enum Slot<U, I> {
    /// The value in its uninitialized representation.
    Uninit(U),
    /// Nothing: the value has been handed out and has not come back.
    Vacant,
    /// The value in its initialized representation.
    Init(I),
}

impl<U, I> Slot<U, I> {
    /// The stage of the handoff that the content stands for.
    pub open spec fn stage(self) -> Stage {
        match self {
            Slot::Uninit(_) => Stage::Uninitialized,
            Slot::Vacant => Stage::Initializing,
            Slot::Init(_) => Stage::Initialized,
        }
    }
}

/// One heap cell, owned exclusively.
#[derive(Debug)]
pub struct Place<U, I> {
    cell: Vec<Slot<U, I>>,
}

impl<U, I> View for Place<U, I> {
    type V = Slot<U, I>;

    closed spec fn view(&self) -> Slot<U, I> {
        self.cell@[0]
    }
}

impl<U, I> Place<U, I> {
    #[verifier::type_invariant]
    spec fn holds_one_slot(&self) -> bool {
        self.cell@.len() == 1
    }

    /// Settles a request for storage: where it was granted, `value` moves
    /// into the cell and the cell is the place; where it was refused, there
    /// is no place and `value` is dropped.
    fn settle(cell: Vec<Slot<U, I>>, request: Result<(), TryReserveError>, value: U) -> (made:
        Result<Self, AllocError>)
        requires
            cell@.len() == 0,
        ensures
            match request {
                Ok(()) => made.is_ok() && made.unwrap()@ == Slot::<U, I>::Uninit(value),
                Err(_) => made == Err::<Self, AllocError>(AllocError),
            },
    {
        match request {
            Ok(()) => {
                let mut cell = cell;
                cell.push(Slot::Uninit(value));
                Ok(Place { cell })
            },
            Err(_) => Err(AllocError),
        }
    }

    /// Settles a request for storage like [`settle`](Self::settle), with a
    /// value that is made only if there is a cell to take it.
    fn settle_with<F: FnOnce() -> U>(
        cell: Vec<Slot<U, I>>,
        request: Result<(), TryReserveError>,
        make: F,
    ) -> (made: Result<Self, AllocError>)
        requires
            cell@.len() == 0,
            make.requires(()),
        ensures
            match request {
                Ok(()) => made.is_ok() && made.unwrap()@ is Uninit && make.ensures(
                    (),
                    made.unwrap()@->Uninit_0,
                ),
                Err(_) => made == Err::<Self, AllocError>(AllocError),
            },
    {
        match request {
            Ok(()) => {
                let mut cell = cell;
                cell.push(Slot::Uninit(make()));
                Ok(Place { cell })
            },
            Err(_) => Err(AllocError),
        }
    }

    /// Acquires a place and moves `value` into it. Fails, and drops `value`,
    /// where the storage cannot be had.
    pub fn try_new(value: U) -> (made: Result<Self, AllocError>)
        ensures
            made matches Ok(place) ==> place@ == Slot::<U, I>::Uninit(value),
    {
        let mut cell: Vec<Slot<U, I>> = Vec::new();
        let request = cell.try_reserve(1);
        Self::settle(cell, request, value)
    }

    /// Acquires a place first and only then calls `make` for the value to
    /// put there, so that a value too large to be had is never built.
    pub fn try_new_with<F: FnOnce() -> U>(make: F) -> (made: Result<Self, AllocError>)
        requires
            make.requires(()),
        ensures
            made matches Ok(place) ==> place@ is Uninit && make.ensures((), place@->Uninit_0),
    {
        let mut cell: Vec<Slot<U, I>> = Vec::new();
        let request = cell.try_reserve(1);
        Self::settle_with(cell, request, make)
    }

    /// The content, where it lies.
    pub fn slot(&self) -> (slot: &Slot<U, I>)
        ensures
            *slot == self@,
    {
        proof {
            use_type_invariant(self);
        }
        &self.cell[0]
    }

    /// The stage that the place is at.
    pub fn stage(&self) -> (stage: Stage)
        ensures
            stage == self@.stage(),
    {
        match self.slot() {
            Slot::Uninit(_) => Stage::Uninitialized,
            Slot::Vacant => Stage::Initializing,
            Slot::Init(_) => Stage::Initialized,
        }
    }

    /// Access to the uninitialized value where it lies, as long as the place
    /// holds one.
    pub fn uninit_mut(&mut self) -> (access: Option<&mut U>)
        ensures
            match access {
                Some(value) => old(self)@ == Slot::<U, I>::Uninit(*value) && final(self)@
                    == Slot::<U, I>::Uninit(*final(value)),
                None => !(old(self)@ is Uninit) && final(self)@ == old(self)@,
            },
        no_unwind
    {
        proof {
            use_type_invariant(&*self);
        }
        match &mut self.cell[0] {
            Slot::Uninit(value) => Some(value),
            _ => None,
        }
    }

    /// Access to the initialized value where it lies, as long as the place
    /// holds one.
    pub fn init_mut(&mut self) -> (access: Option<&mut I>)
        ensures
            match access {
                Some(value) => old(self)@ == Slot::<U, I>::Init(*value) && final(self)@
                    == Slot::<U, I>::Init(*final(value)),
                None => !(old(self)@ is Init) && final(self)@ == old(self)@,
            },
        no_unwind
    {
        proof {
            use_type_invariant(&*self);
        }
        match &mut self.cell[0] {
            Slot::Init(value) => Some(value),
            _ => None,
        }
    }

    /// Begins the handoff: hands the uninitialized value out and leaves the
    /// place vacant. A place that is not at `Uninitialized` hands out nothing
    /// and stays as it is, so a place hands its value out at most once.
    pub(crate) fn take(&mut self) -> (taken: Option<U>)
        ensures
            taken.is_some() == old(self)@.stage().after(Step::Begin).is_some(),
            match taken {
                Some(value) => old(self)@ == Slot::<U, I>::Uninit(value) && final(self)@
                    == Slot::<U, I>::Vacant,
                None => final(self)@ == old(self)@,
            },
    {
        proof {
            use_type_invariant(&*self);
        }
        let slot = &mut self.cell[0];
        let mut content = Slot::Vacant;
        core::mem::swap(slot, &mut content);
        match content {
            Slot::Uninit(value) => Some(value),
            other => {
                *slot = other;
                None
            },
        }
    }

    /// Completes the handoff: takes the initialized value into the vacant
    /// place. A place that is not vacant gives `value` back and stays as it
    /// is.
    pub(crate) fn put(&mut self, value: I) -> (put: Result<(), I>)
        ensures
            put.is_ok() == old(self)@.stage().after(Step::Complete).is_some(),
            match put {
                Ok(()) => old(self)@ is Vacant && final(self)@ == Slot::<U, I>::Init(value),
                Err(back) => back == value && final(self)@ == old(self)@,
            },
    {
        proof {
            use_type_invariant(&*self);
        }
        let slot = &mut self.cell[0];
        match slot {
            Slot::Vacant => {
                *slot = Slot::Init(value);
                Ok(())
            },
            _ => Err(value),
        }
    }
}

} // verus!
