use pinned_init::place::{AllocError, Place};
use pinned_init::ptr::{CountedOwner, OwnedUniquePtr, UniqueOwner};
use pinned_init::ptr_buf::{PtrBuf, PtrBufUninit};

const TOO_BIG: usize = 1024 * 1024 * 1024 * 1024;

fn zeroed<const N: usize>() -> [u8; N] {
    [0; N]
}

#[test]
fn too_big_pinned() {
    // should be too big with current hardware.
    assert!(matches!(
        UniqueOwner::try_new_with(|| PtrBufUninit::new(zeroed::<TOO_BIG>())).map(|owner| owner.pin()),
        Err(AllocError)
    ));
    // should be too big with current hardware.
    assert!(matches!(
        CountedOwner::try_new_with(|| PtrBufUninit::new(zeroed::<TOO_BIG>())).map(|owner| owner.pin()),
        Err(AllocError)
    ));
}

#[test]
fn too_big_in_place() {
    // should be too big with current hardware.
    assert!(matches!(
        Place::<PtrBufUninit<u8, TOO_BIG>, PtrBuf<u8, TOO_BIG>>::try_new_with(|| {
            PtrBufUninit::new(zeroed::<TOO_BIG>())
        }),
        Err(AllocError)
    ));
    // should be too big with current hardware.
    assert!(matches!(
        Place::<[u8; TOO_BIG], [u8; TOO_BIG]>::try_new_with(zeroed::<TOO_BIG>),
        Err(AllocError)
    ));
}

#[test]
fn small_places_can_be_had() {
    assert!(UniqueOwner::try_new(PtrBufUninit::new([1u8, 2, 3])).is_ok());
    assert!(CountedOwner::try_new(PtrBufUninit::new([1u8, 2, 3])).is_ok());
    assert!(Place::<u8, u8>::try_new(7).is_ok());
}
