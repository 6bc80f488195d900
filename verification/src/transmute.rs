//! Changing a value from one representation into another.
//!
//! A type that is initialized where it lies has two representations: one for
//! the time before initialization and one for the time after. The change
//! from the first to the second is the one step of the protocol that turns
//! "all the parts are there" into "this is a valid value", so it is opted
//! into explicitly, with [`TransmuteInto`], and it carries a condition: the
//! source must already satisfy everything that the target claims.
//!
//! The change is a move of validated fields, never a reinterpretation of
//! bytes. [`TransmuteInto::transmute_ptr`] makes it inside a [`Place`]: the
//! value leaves the cell, changes representation and returns to the very same
//! cell, so the storage is neither released nor acquired anew.
//!
//! Since nothing is reinterpreted, nothing here rests on the two
//! representations having one layout. Where they are meant to have one,
//! [`layouts_match`] compares them.

use crate::handoff::{lemma_whole_handoff, Step};
use crate::place::{Place, Slot};
use crate::ptr::Pinned;
use vstd::prelude::*;

verus! {

/// Whether `A` and `B` agree in size and in alignment.
pub open spec fn same_layout<A, B>() -> bool {
    &&& vstd::layout::size_of::<A>() == vstd::layout::size_of::<B>()
    &&& vstd::layout::align_of::<A>() == vstd::layout::align_of::<B>()
}

/// Compares size and alignment of `A` and `B`, as the compiler has laid the
/// two types out.
pub fn layouts_match<A, B>() -> (same: bool)
    ensures
        same == same_layout::<A, B>(),
{
    core::mem::size_of::<A>() == core::mem::size_of::<B>() && core::mem::align_of::<A>()
        == core::mem::align_of::<B>()
}

/// A representation that can be changed into the representation `T`.
pub trait TransmuteInto<T>: Sized {
    /// Whether `self` satisfies every invariant that `T` claims, so that it
    /// may be changed into a `T`.
    spec fn transmutable(&self) -> bool;

    /// The `T` that `self` stands for.
    spec fn transmuted(&self) -> T;

    /// Decides whether `self` may be changed into a `T`.
    fn can_transmute(&self) -> (yes: bool)
        ensures
            yes == self.transmutable(),
    ;

    /// Changes `self` into its other representation.
    fn transmute(self) -> (target: T)
        requires
            self.transmutable(),
        ensures
            target == self.transmuted(),
    ;

    /// Changes the representation of the value that `this` holds, in place:
    /// the value that was there in the source representation is there in the
    /// target representation afterwards. A place that holds no source value
    /// is left as it is.
    fn transmute_ptr(this: &mut Place<Self, T>) -> (changed: bool)
        requires
            old(this)@ is Uninit ==> old(this)@->Uninit_0.transmutable(),
        ensures
            changed == (old(this)@ is Uninit),
            changed ==> final(this)@ == Slot::<Self, T>::Init(old(this)@->Uninit_0.transmuted()),
            changed ==> old(this)@.stage().run(seq![Step::Begin, Step::Complete]) == Some(
                final(this)@.stage(),
            ),
            !changed ==> final(this)@ == old(this)@,
    {
        proof {
            lemma_whole_handoff(old(this)@.stage());
        }
        match this.take() {
            Some(source) => {
                match this.put(source.transmute()) {
                    Ok(()) => true,
                    Err(_) => false,
                }
            },
            None => false,
        }
    }
}

/// The pin marker is transparent: what it wraps changes representation
/// under it, on the condition that holds without it.
impl<T: TransmuteInto<U>, U> TransmuteInto<Pinned<U>> for Pinned<T> {
    open spec fn transmutable(&self) -> bool {
        self.pointer().transmutable()
    }

    open spec fn transmuted(&self) -> Pinned<U> {
        Pinned::of(self.pointer().transmuted())
    }

    fn can_transmute(&self) -> (yes: bool) {
        self.as_ref().can_transmute()
    }

    fn transmute(self) -> (target: Pinned<U>) {
        Pinned::new(self.into_pointer().transmute())
    }
}

} // verus!
