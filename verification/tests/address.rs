use pinned_init::ptr::{CountedOwner, OwnedUniquePtr, UniqueOwner};
use pinned_init::ptr_buf::PtrBufUninit;
use pinned_init::SafePinnedInit;

#[test]
fn address_of_a_unique_place_is_the_same_before_and_after() {
    let owner = UniqueOwner::try_new(PtrBufUninit::new([1u64, 2, 3, 4])).expect("a small place can be had");
    let made = format!("{:p}", owner.slot());
    let pinned = owner.pin();
    let before = format!("{:p}", pinned.as_ref().slot());
    let done = pinned.init().expect("a unique owner of an uninitialized value is initialized");
    let after = format!("{:p}", done.as_ref().slot());
    assert_eq!(made, before);
    assert_eq!(before, after);
}

#[test]
fn address_of_a_counted_place_is_the_same_before_and_after() {
    let owner = CountedOwner::try_new(PtrBufUninit::new([1u64, 2, 3, 4])).expect("a small place can be had");
    let made = format!("{:p}", owner.slot());
    let pinned = owner.pin();
    let before = format!("{:p}", pinned.as_ref().slot());
    let done = pinned.init().expect("the only reference to an uninitialized value is initialized");
    let after = format!("{:p}", done.as_ref().slot());
    let shared = format!("{:p}", done.share().as_ref().slot());
    assert_eq!(made, before);
    assert_eq!(before, after);
    assert_eq!(after, shared);
}

#[test]
fn address_does_not_follow_the_handle() {
    let owner = UniqueOwner::try_new(PtrBufUninit::new([9u8; 16])).expect("a small place can be had");
    let pinned = owner.pin();
    let before = format!("{:p}", pinned.as_ref().slot());
    let moved = vec![pinned];
    let after = format!("{:p}", moved[0].as_ref().slot());
    assert_eq!(before, after);
}

#[test]
fn address_of_the_value_is_the_same_before_and_after() {
    let owner = UniqueOwner::try_new(PtrBufUninit::new([1u64, 2, 3, 4])).expect("a small place can be had");
    let pinned = owner.pin();
    let before = match pinned.as_ref().slot() {
        pinned_init::place::Slot::Uninit(value) => format!("{:p}", value),
        _ => panic!("the place holds the uninitialized representation"),
    };
    let done = pinned.init().expect("a unique owner of an uninitialized value is initialized");
    let after = format!("{:p}", done.get());
    assert_eq!(before, after);
}
