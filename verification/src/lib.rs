//! Safe initialization of values that must be pinned before they can be
//! initialized.
//!
//! Some values can only be completed once their address is fixed: a buffer
//! with a cursor into itself is the standard example. Such a value is built
//! in two steps. First it is made in an *uninitialized representation* by
//! ordinary means and moved into a heap place that an ownership pointer owns;
//! pinning the pointer promises that the place is the value's home for good.
//! Then [`SafePinnedInit::init`] runs the type's initialization routine on
//! the value where it lies and changes it into its *initialized
//! representation*, a different type that offers the operations which rely
//! on the completed state. What comes back is the same pointer, typed as
//! owning the initialized value.
//!
//! What the pieces guarantee:
//!
//! - [`transmute::TransmuteInto`] changes a representation only if the value
//!   satisfies what the target representation claims.
//! - [`place::Place`] is storage that is acquired once, and fallibly; a value
//!   changes representation inside it.
//! - [`ptr::OwnedUniquePtr`] is the interface to the kinds of pointers that
//!   can own a place: [`ptr::UniqueOwner`] and [`ptr::CountedOwner`].
//! - [`needs_init::NeedsPinnedInit`] is the token that initialization runs
//!   on. [`init_place`] issues it, for a value that is still uninitialized,
//!   and leaves the value initialized, so that it issues none for that value
//!   again.
//! - [`static_uninit::StaticUninit`] is a field that is written after
//!   pinning and read after initialization.
//! - [`handoff`] states the order of the stages and proves that it is never
//!   run backwards.

pub mod handoff;
pub mod needs_init;
pub mod place;
pub mod prelude;
pub mod private;
pub mod ptr;
pub mod ptr_buf;
mod sealed;
pub mod static_uninit;
pub mod transmute;

use crate::needs_init::NeedsPinnedInit;
use crate::place::{Place, Slot};
use crate::private::BeginInit;
use crate::ptr::{OwnedUniquePtr, Pinned};
use crate::sealed::Sealed;
use crate::transmute::TransmuteInto;
use vstd::prelude::*;

verus! {

/// A type that is initialized where it lies, after it has been pinned.
///
/// The implementing type is the uninitialized representation.
pub trait PinnedInit: TransmuteInto<Self::Initialized> + BeginInit {
    /// The initialized representation.
    type Initialized;

    /// Everything that the initialized representation promises of its
    /// values.
    spec fn is_valid(initialized: &Self::Initialized) -> bool;

    /// The value as the initialization routine leaves it.
    spec fn after_init(&self) -> Self;

    /// The routine does its work: what it leaves may change representation,
    /// and the result keeps the promises of the initialized representation.
    proof fn lemma_after_init_is_valid(&self)
        ensures
            self.after_init().transmutable(),
            Self::is_valid(&self.after_init().transmuted()),
    ;

    /// The initialization routine. It sets every field that is set late and
    /// initializes nested fields in the order of their declaration.
    fn init_raw(this: NeedsPinnedInit<'_, Self>)
        ensures
            *final(this.target()) == this.target().after_init(),
    ;
}

/// What initialization makes of the content of a place: of an uninitialized
/// value, what the routine of `T` and the change of representation make of
/// it; of anything else, nothing.
pub open spec fn initialized<T: PinnedInit>(slot: Slot<T, T::Initialized>) -> Slot<
    T,
    T::Initialized,
> {
    match slot {
        Slot::Uninit(value) => Slot::Init(value.after_init().transmuted()),
        other => other,
    }
}

/// A value is initialized once. Whatever a place holds, initialization never
/// leaves an uninitialized value there, so that initializing again does
/// nothing; and what it leaves in place of an uninitialized value keeps every
/// promise of the initialized representation.
pub proof fn lemma_initialized_once<T: PinnedInit>(slot: Slot<T, T::Initialized>)
    ensures
        !(initialized(slot) is Uninit),
        initialized(initialized(slot)) == initialized(slot),
        slot is Uninit ==> initialized(slot) is Init && T::is_valid(&initialized(slot)->Init_0),
        slot.stage().rank() <= initialized(slot).stage().rank(),
{
    if slot is Uninit {
        slot->Uninit_0.lemma_after_init_is_valid();
    }
}

/// Initializes the value in `place`, where it lies: obtains the handoff
/// token for it, runs the initialization routine of `T` on it and changes
/// its representation. This is done exactly if the place holds an
/// uninitialized value; a place that holds anything else is left as it is.
pub fn init_place<T: PinnedInit>(place: &mut Place<T, T::Initialized>) -> (done: bool)
    ensures
        done == (old(place)@ is Uninit),
        final(place)@ == initialized(old(place)@),
        done ==> T::is_valid(&final(place)@->Init_0),
{
    match place.uninit_mut() {
        None => {
            return false;
        },
        Some(value) => {
            let this = NeedsPinnedInit::new_unchecked(value);
            T::init_raw(this);
        },
    }
    proof {
        old(place)@->Uninit_0.lemma_after_init_is_valid();
    }
    T::transmute_ptr(place)
}

/// Initialization of a pinned value through the pointer that owns it.
///
/// This is implemented for [`Pinned<P>`] where `P` is an
/// [`OwnedUniquePtr<T>`] and `T` a [`PinnedInit`], and it cannot be
/// implemented for anything else.
pub trait SafePinnedInit<T: PinnedInit>: Sealed<T> + Sized {
    /// What comes of initializing `self`.
    type Initialized;

    /// Whether `outcome` is what initializing `self` comes to.
    spec fn initialized_as(self, outcome: Self::Initialized) -> bool;

    /// Initializes the content of `self`.
    fn init(self) -> (outcome: Self::Initialized)
        ensures
            self.initialized_as(outcome),
    ;
}

impl<T: PinnedInit, P: OwnedUniquePtr<T>> SafePinnedInit<T> for Pinned<P> {
    /// The pointer retargeted to the initialized value, or the pointer as it
    /// was where nothing was done.
    type Initialized = Result<Pinned<P::Ptr>, Pinned<P>>;

    /// Success means that the place held an uninitialized value and now
    /// holds what the routine of `T` and the change of representation make
    /// of it, which keeps every promise of the initialized representation.
    /// Failure hands the pointer back with its place as it was. Success is
    /// owed to a pointer that is exclusive by construction and owns an
    /// uninitialized value; a pointer that does not own one always fails.
    open spec fn initialized_as(self, outcome: Result<Pinned<P::Ptr>, Pinned<P>>) -> bool {
        &&& match outcome {
            Ok(done) => {
                &&& self.pointer().slot() is Uninit
                &&& P::ptr_slot(&done.pointer()) == initialized(self.pointer().slot())
                &&& T::is_valid(&P::ptr_slot(&done.pointer())->Init_0)
            },
            Err(back) => back.pointer().slot() == self.pointer().slot(),
        }
        &&& P::exclusive_by_construction() && self.pointer().slot() is Uninit ==> outcome.is_ok()
    }

    /// Asks the pointer for exclusive access to its place, initializes the
    /// value there with [`init_place`] and retargets the pointer. No step
    /// acquires storage, and the value is not seen from outside before all
    /// of them are done.
    fn init(self) -> (outcome: Self::Initialized) {
        let mut pointer = self.into_pointer();
        let done = match pointer.place_mut() {
            Some(place) => init_place(place),
            None => false,
        };
        if done {
            match pointer.retarget() {
                Ok(ptr) => Ok(Pinned::new(ptr)),
                Err(back) => Err(Pinned::new(back)),
            }
        } else {
            Err(Pinned::new(pointer))
        }
    }
}

} // verus!
