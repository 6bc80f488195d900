//! The pointers that can own a pinned place.
//!
//! An ownership pointer owns the storage of one value and lets nobody else
//! read or write it. Two kinds come with the library, behind the one
//! interface [`OwnedUniquePtr`]:
//!
//! - [`UniqueOwner`] owns its place alone, by construction.
//! - [`CountedOwner`] owns its place through a reference count. It is made
//!   as the only reference and the library never makes a second one before
//!   the value is initialized; whether it is the only one is asked of the
//!   count at the moment the place is written, and a pointer that is not is
//!   refused rather than trusted.
//!
//! For both kinds the following holds.
//!
//! - *Retargeting.* A pointer is the same type before and after
//!   initialization, up to the marker `DONE`, which says in the type that
//!   the place holds the initialized representation.
//!   [`OwnedUniquePtr::retarget`] sets the marker and does nothing else: the
//!   pointer that comes out owns the cell that went in.
//! - *Pinning.* [`Pinned`] around a pointer says that the place is the
//!   value's home for good. The library neither takes a pinned pointer out
//!   of its wrapper nor a value out of its place.
//! - *Cost.* Pinning is free. The storage is acquired when the pointer is
//!   made, by `try_new` or `try_new_with`, and that is the one step that can
//!   fail for want of memory.

use crate::handoff::Stage;
use crate::place::{AllocError, Place, Slot};
use crate::PinnedInit;
use std::sync::Arc;
use vstd::prelude::*;

verus! {

/// A pointer that has been pinned, or a value that stands for one.
///
/// There is no way to take the pointer out again, and none to move what it
/// points to.
#[derive(Debug)]
pub struct Pinned<P> {
    pointer: P,
}

impl<P> Pinned<P> {
    /// The pointer that has been pinned.
    pub closed spec fn pointer(&self) -> P {
        self.pointer
    }

    /// `pointer`, pinned.
    pub closed spec fn of(pointer: P) -> Self {
        Pinned { pointer }
    }

    /// A pinned pointer is the pointer it was made of, and nothing else.
    pub proof fn lemma_of_pointer(pointer: P)
        ensures
            Self::of(pointer).pointer() == pointer,
            forall|pinned: Self| pinned.pointer() == pointer ==> pinned == Self::of(pointer),
    {
    }

    /// Pins `pointer`.
    pub fn new(pointer: P) -> (pinned: Self)
        ensures
            pinned == Self::of(pointer),
            pinned.pointer() == pointer,
    {
        Pinned { pointer }
    }

    pub(crate) fn into_pointer(self) -> (pointer: P)
        ensures
            pointer == self.pointer(),
    {
        self.pointer
    }

    /// Read access to the pointer.
    pub fn as_ref(&self) -> (pointer: &P)
        ensures
            *pointer == self.pointer(),
    {
        &self.pointer
    }
}

/// A pointer that owns the place of a `T` exclusively, and that can be
/// pinned and retargeted.
pub trait OwnedUniquePtr<T: PinnedInit>: Sized {
    /// The same kind of pointer, typed as owning the initialized
    /// representation.
    type Ptr;

    /// What the place of this pointer holds.
    spec fn slot(&self) -> Slot<T, T::Initialized>;

    /// What the place of a retargeted pointer holds.
    spec fn ptr_slot(ptr: &Self::Ptr) -> Slot<T, T::Initialized>;

    /// Whether a pointer of this kind is the only one to its place by the
    /// way it is made, so that access to the place is never refused.
    spec fn exclusive_by_construction() -> bool;

    /// Pins the pointer: from here on the place is the value's home.
    fn pin(self) -> (pinned: Pinned<Self>)
        ensures
            pinned.pointer() == self,
    {
        Pinned::new(self)
    }

    /// Exclusive access to the place, or `None` where this pointer cannot
    /// vouch to be the only one; then nothing has changed.
    fn place_mut(&mut self) -> (access: Option<&mut Place<T, T::Initialized>>)
        ensures
            match access {
                Some(place) => place@ == old(self).slot() && final(self).slot() == final(place)@,
                None => *final(self) == *old(self),
            },
            Self::exclusive_by_construction() ==> access.is_some(),
    ;

    /// Retargets the pointer to the initialized representation, which it
    /// can be exactly when that is what its place holds. The place is not
    /// touched. A pointer whose place holds anything else comes back as it
    /// is.
    fn retarget(self) -> (retargeted: Result<Self::Ptr, Self>)
        ensures
            retargeted.is_ok() == (self.slot() is Init),
            match retargeted {
                Ok(ptr) => Self::ptr_slot(&ptr) == self.slot(),
                Err(back) => back == self,
            },
    ;
}

/// The access that it is given, handed on. A field of a type with an
/// invariant can be borrowed mutably only for a call, and this is the call.
fn reborrow<V>(access: &mut V) -> (same: &mut V)
    ensures
        *same == *old(access),
        *final(access) == *final(same),
    no_unwind
{
    access
}

/// A pointer that alone owns a place on the heap.
///
/// Nothing but the pointer can reach the place, so access to it is never
/// refused.
#[derive(Debug)]
pub struct UniqueOwner<T: PinnedInit, const DONE: bool> {
    place: Place<T, T::Initialized>,
}

impl<T: PinnedInit, const DONE: bool> View for UniqueOwner<T, DONE> {
    type V = Slot<T, T::Initialized>;

    closed spec fn view(&self) -> Slot<T, T::Initialized> {
        self.place@
    }
}

impl<T: PinnedInit, const DONE: bool> UniqueOwner<T, DONE> {
    #[verifier::type_invariant]
    spec fn holds_what_it_claims(&self) -> bool {
        DONE ==> self.place@ is Init
    }

    /// The content of the place, where it lies.
    pub fn slot(&self) -> (slot: &Slot<T, T::Initialized>)
        ensures
            *slot == self@,
    {
        self.place.slot()
    }

    /// The stage that the place is at.
    pub fn stage(&self) -> (stage: Stage)
        ensures
            stage == self@.stage(),
    {
        self.place.stage()
    }
}

impl<T: PinnedInit> UniqueOwner<T, false> {
    /// Acquires a place for `value` and moves it there. Fails, and drops
    /// `value`, where the storage cannot be had.
    pub fn try_new(value: T) -> (made: Result<Self, AllocError>)
        ensures
            made matches Ok(owner) ==> owner@ == Slot::<T, T::Initialized>::Uninit(value),
    {
        Self::owning(Place::try_new(value))
    }

    /// Acquires a place first and only then calls `make` for the value to
    /// put there.
    pub fn try_new_with<F: FnOnce() -> T>(make: F) -> (made: Result<Self, AllocError>)
        requires
            make.requires(()),
        ensures
            made matches Ok(owner) ==> owner@ is Uninit && make.ensures((), owner@->Uninit_0),
    {
        Self::owning(Place::try_new_with(make))
    }

    /// What comes of an attempt to acquire a place: the owner of the place
    /// where there is one, with the place as it is, and the error of the
    /// attempt where there is none.
    fn owning(attempt: Result<Place<T, T::Initialized>, AllocError>) -> (made: Result<
        Self,
        AllocError,
    >)
        ensures
            match attempt {
                Ok(place) => made.is_ok() && made.unwrap()@ == place@,
                Err(error) => made == Err::<Self, AllocError>(error),
            },
    {
        match attempt {
            Ok(place) => Ok(UniqueOwner { place }),
            Err(error) => Err(error),
        }
    }
}

impl<T: PinnedInit> UniqueOwner<T, true> {
    /// The initialized value.
    pub fn get(&self) -> (value: &T::Initialized)
        ensures
            self@ == Slot::<T, T::Initialized>::Init(*value),
    {
        proof {
            use_type_invariant(self);
        }
        match self.place.slot() {
            Slot::Init(value) => value,
            _ => vstd::pervasive::unreached(),
        }
    }

    /// Access to the initialized value where it lies.
    pub fn get_mut(&mut self) -> (value: &mut T::Initialized)
        ensures
            old(self)@ == Slot::<T, T::Initialized>::Init(*value),
            final(self)@ == Slot::<T, T::Initialized>::Init(*final(value)),
    {
        proof {
            use_type_invariant(&*self);
        }
        match self.place.init_mut() {
            Some(value) => value,
            None => vstd::pervasive::unreached(),
        }
    }
}

impl<T: PinnedInit> Pinned<UniqueOwner<T, true>> {
    /// The initialized value.
    pub fn get(&self) -> (value: &T::Initialized)
        ensures
            self.pointer()@ == Slot::<T, T::Initialized>::Init(*value),
    {
        self.pointer.get()
    }

    /// Access to the initialized value where it lies.
    pub fn get_mut(&mut self) -> (value: &mut T::Initialized)
        ensures
            old(self).pointer()@ == Slot::<T, T::Initialized>::Init(*value),
            final(self).pointer()@ == Slot::<T, T::Initialized>::Init(*final(value)),
    {
        self.pointer.get_mut()
    }
}

impl<T: PinnedInit> OwnedUniquePtr<T> for UniqueOwner<T, false> {
    type Ptr = UniqueOwner<T, true>;

    open spec fn slot(&self) -> Slot<T, T::Initialized> {
        self@
    }

    open spec fn ptr_slot(ptr: &Self::Ptr) -> Slot<T, T::Initialized> {
        ptr@
    }

    open spec fn exclusive_by_construction() -> bool {
        true
    }

    fn place_mut(&mut self) -> (access: Option<&mut Place<T, T::Initialized>>) {
        Some(reborrow(&mut self.place))
    }

    fn retarget(self) -> (retargeted: Result<Self::Ptr, Self>) {
        match self.place.stage() {
            Stage::Initialized => Ok(UniqueOwner { place: self.place }),
            _ => Err(self),
        }
    }
}

/// `Arc::get_mut` of the standard library. It gives access to the content
/// if no other `Arc` or `Weak` points to the same allocation, and `None`
/// otherwise. The contract says that the access, where it is given, is to
/// the content, that what is written through it is what the `Arc` holds
/// afterwards, and that a refusal changes nothing. It says nothing of when
/// access is given. The function does not panic.
#[verifier::external_body]
fn arc_get_mut<V>(arc: &mut Arc<V>) -> (access: Option<&mut V>)
    ensures
        match access {
            Some(content) => *content == **old(arc) && **final(arc) == *final(content),
            None => *final(arc) == *old(arc),
        },
    no_unwind
{
    Arc::get_mut(arc)
}

/// `Arc::clone` of the standard library. It makes another pointer to the
/// same allocation and raises the count; the contract says that the new
/// pointer has the content of the old one.
#[verifier::external_body]
fn arc_clone<V>(arc: &Arc<V>) -> (other: Arc<V>)
    ensures
        *other == **arc,
{
    Arc::clone(arc)
}

/// Access to the initialized value in a shared place, where it is given.
fn shared_init_mut<U, I>(shared: &mut Arc<Place<U, I>>) -> (access: Option<&mut I>)
    requires
        (**old(shared))@ is Init,
    ensures
        match access {
            Some(value) => (**old(shared))@ == Slot::<U, I>::Init(*value) && (**final(shared))@
                == Slot::<U, I>::Init(*final(value)),
            None => *final(shared) == *old(shared),
        },
    no_unwind
{
    init_in(arc_get_mut(shared))
}

/// What comes of a request for access to a place that holds an initialized
/// value: access to that value where access to the place was given, and
/// nothing where it was refused.
fn init_in<'a, U, I>(granted: Option<&'a mut Place<U, I>>) -> (access: Option<&'a mut I>)
    requires
        granted matches Some(place) ==> place@ is Init,
    ensures
        access.is_some() == granted.is_some(),
        granted matches Some(place) ==> place@ == Slot::<U, I>::Init(*access.unwrap())
            && final(place)@ == Slot::<U, I>::Init(*final(access.unwrap())),
    no_unwind
{
    match granted {
        Some(place) => place.init_mut(),
        None => None,
    }
}

/// A pointer that owns a place on the heap through a reference count.
///
/// Before initialization it cannot be cloned, so it is the only reference.
/// After initialization it can be shared with [`share`](CountedOwner::share);
/// from then on the place is written only by a pointer that has become the
/// only one again.
#[derive(Debug)]
pub struct CountedOwner<T: PinnedInit, const DONE: bool> {
    shared: Arc<Place<T, T::Initialized>>,
}

impl<T: PinnedInit, const DONE: bool> View for CountedOwner<T, DONE> {
    type V = Slot<T, T::Initialized>;

    closed spec fn view(&self) -> Slot<T, T::Initialized> {
        (*self.shared)@
    }
}

impl<T: PinnedInit, const DONE: bool> CountedOwner<T, DONE> {
    #[verifier::type_invariant]
    spec fn holds_what_it_claims(&self) -> bool {
        DONE ==> (*self.shared)@ is Init
    }

    /// The content of the place, where it lies.
    pub fn slot(&self) -> (slot: &Slot<T, T::Initialized>)
        ensures
            *slot == self@,
    {
        self.shared.slot()
    }

    /// The stage that the place is at.
    pub fn stage(&self) -> (stage: Stage)
        ensures
            stage == self@.stage(),
    {
        self.shared.stage()
    }
}

impl<T: PinnedInit> CountedOwner<T, false> {
    /// Acquires a place for `value` and moves it there. Fails, and drops
    /// `value`, where the storage cannot be had.
    pub fn try_new(value: T) -> (made: Result<Self, AllocError>)
        ensures
            made matches Ok(owner) ==> owner@ == Slot::<T, T::Initialized>::Uninit(value),
    {
        Self::owning(Place::try_new(value))
    }

    /// Acquires a place first and only then calls `make` for the value to
    /// put there.
    pub fn try_new_with<F: FnOnce() -> T>(make: F) -> (made: Result<Self, AllocError>)
        requires
            make.requires(()),
        ensures
            made matches Ok(owner) ==> owner@ is Uninit && make.ensures((), owner@->Uninit_0),
    {
        Self::owning(Place::try_new_with(make))
    }

    /// What comes of an attempt to acquire a place: the first reference to
    /// the place where there is one, with the place as it is, and the error
    /// of the attempt where there is none.
    fn owning(attempt: Result<Place<T, T::Initialized>, AllocError>) -> (made: Result<
        Self,
        AllocError,
    >)
        ensures
            match attempt {
                Ok(place) => made.is_ok() && made.unwrap()@ == place@,
                Err(error) => made == Err::<Self, AllocError>(error),
            },
    {
        match attempt {
            Ok(place) => Ok(CountedOwner { shared: Arc::new(place) }),
            Err(error) => Err(error),
        }
    }
}

impl<T: PinnedInit> CountedOwner<T, true> {
    /// The initialized value.
    pub fn get(&self) -> (value: &T::Initialized)
        ensures
            self@ == Slot::<T, T::Initialized>::Init(*value),
    {
        proof {
            use_type_invariant(self);
        }
        match self.shared.slot() {
            Slot::Init(value) => value,
            _ => vstd::pervasive::unreached(),
        }
    }

    /// Access to the initialized value where it lies, as long as this is the
    /// only pointer to it.
    pub fn get_mut(&mut self) -> (access: Option<&mut T::Initialized>)
        ensures
            match access {
                Some(value) => old(self)@ == Slot::<T, T::Initialized>::Init(*value)
                    && final(self)@ == Slot::<T, T::Initialized>::Init(*final(value)),
                None => *final(self) == *old(self),
            },
    {
        proof {
            use_type_invariant(&*self);
        }
        shared_init_mut(&mut self.shared)
    }

    /// Another pointer to the same place.
    pub fn share(&self) -> (other: Self)
        ensures
            other@ == self@,
    {
        proof {
            use_type_invariant(self);
        }
        CountedOwner { shared: arc_clone(&self.shared) }
    }
}

impl<T: PinnedInit> Pinned<CountedOwner<T, true>> {
    /// The initialized value.
    pub fn get(&self) -> (value: &T::Initialized)
        ensures
            self.pointer()@ == Slot::<T, T::Initialized>::Init(*value),
    {
        self.pointer.get()
    }

    /// Access to the initialized value where it lies, as long as this is the
    /// only pointer to it.
    pub fn get_mut(&mut self) -> (access: Option<&mut T::Initialized>)
        ensures
            match access {
                Some(value) => old(self).pointer()@ == Slot::<T, T::Initialized>::Init(*value)
                    && final(self).pointer()@ == Slot::<T, T::Initialized>::Init(*final(value)),
                None => *final(self) == *old(self),
            },
    {
        self.pointer.get_mut()
    }

    /// Another pinned pointer to the same place.
    pub fn share(&self) -> (other: Self)
        ensures
            other.pointer()@ == self.pointer()@,
    {
        Pinned::new(self.pointer.share())
    }
}

impl<T: PinnedInit> OwnedUniquePtr<T> for CountedOwner<T, false> {
    type Ptr = CountedOwner<T, true>;

    open spec fn slot(&self) -> Slot<T, T::Initialized> {
        self@
    }

    open spec fn ptr_slot(ptr: &Self::Ptr) -> Slot<T, T::Initialized> {
        ptr@
    }

    open spec fn exclusive_by_construction() -> bool {
        false
    }

    fn place_mut(&mut self) -> (access: Option<&mut Place<T, T::Initialized>>) {
        arc_get_mut(&mut self.shared)
    }

    fn retarget(self) -> (retargeted: Result<Self::Ptr, Self>) {
        match self.shared.stage() {
            Stage::Initialized => Ok(CountedOwner { shared: self.shared }),
            _ => Err(self),
        }
    }
}

} // verus!
