use gccjit::{is_loaded, load, load_step, with_lib, Error, Library, LibrarySlot, LoadStep, Version};

fn access(slot: &mut LibrarySlot, handle: usize, opens: &mut usize) -> bool {
    match load_step(slot) {
        LoadStep::Open => {
            *opens += 1;
            load(slot, Library::open(handle, None))
        }
        LoadStep::Settled(held) => held,
    }
}

#[test]
fn is_loaded_goes_from_false_to_true() {
    let mut slot = LibrarySlot::new();
    assert!(!is_loaded(&slot));
    assert_eq!(load_step(&slot), LoadStep::Open);
    assert!(load(&mut slot, Library::open(0x5000, None)));
    assert!(is_loaded(&slot));
    assert_eq!(load_step(&slot), LoadStep::Settled(true));
    for _ in 0..3 {
        assert!(is_loaded(&slot));
    }
}

#[test]
fn many_accessors_open_once_and_see_one_handle() {
    let mut slot = LibrarySlot::new();
    let mut opens: usize = 0;
    let mut results = Vec::new();
    for i in 0..16usize {
        results.push(access(&mut slot, 0x9000 + i, &mut opens));
    }
    assert_eq!(opens, 1);
    assert!(results.iter().all(|r| *r));
    assert_eq!(with_lib(&slot, |lib| lib.raw()), Ok(0x9000));
}

#[test]
fn two_accessors_on_unset_slot() {
    let mut slot = LibrarySlot::new();
    let mut opens: usize = 0;
    let first = access(&mut slot, 0x42, &mut opens);
    let second = access(&mut slot, 0x43, &mut opens);
    assert!(first && second);
    assert_eq!(opens, 1);
    assert_eq!(with_lib(&slot, |lib| lib.raw()), Ok(0x42));
}

#[test]
fn failed_load_settles_the_slot() {
    let mut slot = LibrarySlot::new();
    let mut opens: usize = 0;
    assert!(!access(&mut slot, 0, &mut opens));
    assert!(!access(&mut slot, 0x77, &mut opens));
    assert_eq!(opens, 1);
    assert!(!is_loaded(&slot));
    assert_eq!(load_step(&slot), LoadStep::Settled(false));
    assert_eq!(with_lib(&slot, |lib| lib.raw()), Err(Error::UsedBeforeLoaded));
}

#[test]
fn with_lib_before_load_is_used_before_loaded() {
    let slot = LibrarySlot::new();
    assert_eq!(with_lib(&slot, |lib| lib.raw()), Err(Error::UsedBeforeLoaded));
}

#[test]
fn version_through_loaded_library() {
    let mut slot = LibrarySlot::new();
    let read = |lib: &Library| Version { major: 14, minor: 2, patch: lib.raw() as i32 };
    assert_eq!(Version::get(&slot, read), Err(Error::UsedBeforeLoaded));
    assert!(load(&mut slot, Library::open(3, None)));
    assert_eq!(Version::get(&slot, read), Ok(Version { major: 14, minor: 2, patch: 3 }));
}

#[test]
fn load_on_settled_slot_keeps_first_outcome() {
    let mut slot = LibrarySlot::new();
    assert!(load(&mut slot, Library::open(0x10, None)));
    assert!(load(&mut slot, Library::open(0, None)));
    assert!(load(&mut slot, Library::open(0x20, None)));
    assert_eq!(with_lib(&slot, |lib| lib.raw()), Ok(0x10));

    let mut failed = LibrarySlot::new();
    assert!(!load(&mut failed, Library::open(0, None)));
    assert!(!load(&mut failed, Library::open(0x30, None)));
    assert!(!is_loaded(&failed));
}
