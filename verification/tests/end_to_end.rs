use pinned_init::handoff::Stage;
use pinned_init::needs_init::NeedsPinnedInit;
use pinned_init::place::Slot;
use pinned_init::ptr::{CountedOwner, OwnedUniquePtr, Pinned, UniqueOwner};
use pinned_init::ptr_buf::{PtrBuf, PtrBufUninit};
use pinned_init::transmute::TransmuteInto;
use pinned_init::{init_place, PinnedInit, SafePinnedInit};

fn unique<const N: usize>(items: [i32; N]) -> Pinned<UniqueOwner<PtrBufUninit<i32, N>, true>> {
    UniqueOwner::try_new(PtrBufUninit::new(items))
        .expect("a small place can be had")
        .pin()
        .init()
        .expect("a unique owner of an uninitialized value is initialized")
}

fn counted<const N: usize>(items: [i32; N]) -> Pinned<CountedOwner<PtrBufUninit<i32, N>, true>> {
    CountedOwner::try_new(PtrBufUninit::new(items))
        .expect("a small place can be had")
        .pin()
        .init()
        .expect("the only reference to an uninitialized value is initialized")
}

#[test]
fn initialized_buffer_yields_its_elements_in_order() {
    let owner =
        UniqueOwner::try_new(PtrBufUninit::new([10, 20, 30, 40])).expect("a small place can be had");
    assert_eq!(owner.stage(), Stage::Uninitialized);
    let mut buffer =
        owner.pin().init().expect("a unique owner of an uninitialized value is initialized");
    assert_eq!(buffer.as_ref().stage(), Stage::Initialized);
    assert_eq!(buffer.get().remaining(), 4);
    assert_eq!(buffer.get_mut().next(), Some(&10));
    assert_eq!(buffer.get().remaining(), 3);
    assert_eq!(buffer.get_mut().next(), Some(&20));
    assert_eq!(buffer.get_mut().next(), Some(&30));
    assert_eq!(buffer.get_mut().next(), Some(&40));
    assert_eq!(buffer.get().remaining(), 0);
    assert_eq!(buffer.get_mut().next(), None);
    assert_eq!(buffer.get_mut().next(), None);
    assert_eq!(buffer.get().remaining(), 0);
}

#[test]
fn cursor_starts_at_the_first_element() {
    let mut buffer = unique([7, 8, 9]);
    assert_eq!(buffer.get().remaining(), 3);
    assert_eq!(buffer.get_mut().next(), Some(&7));
}

#[test]
fn sixty_four_elements_come_out_once_each() {
    let mut items = [0i32; 64];
    for (index, item) in items.iter_mut().enumerate() {
        *item = 1000 + index as i32;
    }
    let mut buffer = unique(items);
    let mut seen = Vec::new();
    while let Some(item) = buffer.get_mut().next() {
        seen.push(*item);
    }
    assert_eq!(seen.len(), 64);
    assert_eq!(seen, items.to_vec());
    assert_eq!(buffer.get_mut().next(), None);
}

#[test]
fn next_is_empty_after_exactly_as_many_calls_as_elements() {
    let mut buffer = unique([1, 2, 3, 4, 5]);
    let mut calls = 0;
    while buffer.get_mut().next().is_some() {
        calls += 1;
    }
    assert_eq!(calls, 5);
}

#[test]
fn empty_buffer_is_exhausted_at_once() {
    let mut buffer = unique([]);
    assert_eq!(buffer.get().remaining(), 0);
    assert_eq!(buffer.get_mut().next(), None);
}

#[test]
fn one_element_buffer() {
    let mut buffer = unique([42]);
    assert_eq!(buffer.get_mut().next(), Some(&42));
    assert_eq!(buffer.get_mut().next(), None);
}

#[test]
fn elements_that_own_storage_come_out_in_order() {
    let owner = UniqueOwner::try_new(PtrBufUninit::new([
        String::from("one"),
        String::from("two"),
        String::from("three"),
    ]))
    .expect("a small place can be had");
    let mut buffer =
        owner.pin().init().expect("a unique owner of an uninitialized value is initialized");
    assert_eq!(buffer.get_mut().next().map(String::as_str), Some("one"));
    assert_eq!(buffer.get_mut().next().map(String::as_str), Some("two"));
    assert_eq!(buffer.get_mut().next().map(String::as_str), Some("three"));
    assert_eq!(buffer.get_mut().next(), None);
}

#[test]
fn counted_owner_is_initialized_where_it_is_the_only_reference() {
    let owner =
        CountedOwner::try_new(PtrBufUninit::new([5, 6])).expect("a small place can be had");
    assert_eq!(owner.stage(), Stage::Uninitialized);
    let mut buffer =
        owner.pin().init().expect("the only reference to an uninitialized value is initialized");
    assert_eq!(buffer.as_ref().stage(), Stage::Initialized);
    assert_eq!(buffer.get().remaining(), 2);
    let value = buffer.get_mut().expect("the only reference gives access");
    assert_eq!(value.next(), Some(&5));
    assert_eq!(buffer.get().remaining(), 1);
}

#[test]
fn shared_pointers_see_one_value_and_refuse_to_write() {
    let mut first = counted([5, 6]);
    assert_eq!(first.get_mut().expect("the only reference gives access").next(), Some(&5));
    let mut second = first.share();
    assert_eq!(second.get().remaining(), 1);
    assert!(std::ptr::eq(first.get(), second.get()));
    assert!(first.get_mut().is_none());
    assert!(second.get_mut().is_none());
    assert_eq!(first.get().remaining(), 1);
    drop(first);
    assert_eq!(second.get_mut().expect("the last reference gives access").next(), Some(&6));
    assert_eq!(second.get().remaining(), 0);
}

#[test]
fn the_slot_shows_the_representation() {
    let owner = UniqueOwner::try_new(PtrBufUninit::new([1, 2])).expect("a small place can be had");
    assert!(matches!(owner.slot(), Slot::Uninit(_)));
    let pinned = owner.pin();
    assert!(matches!(pinned.as_ref().slot(), Slot::Uninit(_)));
    let done = pinned.init().expect("a unique owner of an uninitialized value is initialized");
    match done.as_ref().slot() {
        Slot::Init(buffer) => assert_eq!(buffer.remaining(), 2),
        _ => panic!("the place holds the initialized representation"),
    }
}

#[test]
fn a_buffer_is_not_transmutable_before_its_routine_has_run() {
    let mut value = PtrBufUninit::new([1u8, 2]);
    assert!(!value.can_transmute());
    PtrBufUninit::init_raw(NeedsPinnedInit::new_unchecked(&mut value));
    assert!(value.can_transmute());
    let mut buffer: PtrBuf<u8, 2> = value.transmute();
    assert_eq!(buffer.next(), Some(&1));
}

#[test]
fn a_place_is_initialized_once() {
    let mut owner =
        UniqueOwner::try_new(PtrBufUninit::new([1, 2])).expect("a small place can be had");
    let place = owner.place_mut().expect("a unique owner gives access");
    assert_eq!(place.stage(), Stage::Uninitialized);
    assert!(init_place(place));
    assert_eq!(place.stage(), Stage::Initialized);
    place.init_mut().expect("the place holds the initialized representation").next();
    assert!(!init_place(place));
    assert_eq!(place.stage(), Stage::Initialized);
    match place.slot() {
        Slot::Init(buffer) => assert_eq!(buffer.remaining(), 1),
        _ => panic!("the place holds the initialized representation"),
    }
}

#[test]
fn init_refuses_a_place_that_is_not_uninitialized() {
    let mut owner =
        UniqueOwner::try_new(PtrBufUninit::new([1, 2])).expect("a small place can be had");
    assert!(init_place(owner.place_mut().expect("a unique owner gives access")));
    let back = match owner.pin().init() {
        Ok(_) => panic!("there is nothing left to initialize"),
        Err(back) => back,
    };
    assert_eq!(back.as_ref().stage(), Stage::Initialized);
    match back.as_ref().slot() {
        Slot::Init(buffer) => assert_eq!(buffer.remaining(), 2),
        _ => panic!("the place holds the initialized representation"),
    }
}

#[test]
fn retarget_follows_the_place() {
    let mut owner =
        UniqueOwner::try_new(PtrBufUninit::new([3, 4])).expect("a small place can be had");
    assert!(init_place(owner.place_mut().expect("a unique owner gives access")));
    let mut retargeted = owner.retarget().expect("the place holds the initialized value");
    assert_eq!(retargeted.get().remaining(), 2);
    assert_eq!(retargeted.get_mut().next(), Some(&3));
    let mut owner =
        CountedOwner::try_new(PtrBufUninit::new([3, 4])).expect("a small place can be had");
    assert!(init_place(owner.place_mut().expect("the only reference gives access")));
    let mut retargeted = owner.retarget().expect("the place holds the initialized value");
    assert_eq!(retargeted.get().remaining(), 2);
    assert_eq!(
        retargeted.get_mut().expect("the only reference gives access").next(),
        Some(&3)
    );
}

#[test]
fn retarget_refuses_a_place_that_is_not_initialized() {
    let owner = UniqueOwner::try_new(PtrBufUninit::new([1, 2])).expect("a small place can be had");
    let back = match owner.retarget() {
        Ok(_) => panic!("the value has not been initialized"),
        Err(back) => back,
    };
    assert_eq!(back.stage(), Stage::Uninitialized);
    let owner =
        CountedOwner::try_new(PtrBufUninit::new([1, 2])).expect("a small place can be had");
    let back = match owner.retarget() {
        Ok(_) => panic!("the value has not been initialized"),
        Err(back) => back,
    };
    assert_eq!(back.stage(), Stage::Uninitialized);
}
