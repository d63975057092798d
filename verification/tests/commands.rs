use byte_arena::delete::delete;
use byte_arena::dump::dump;
use byte_arena::error::ArenaError;
use byte_arena::ident::narrow;
use byte_arena::insert::insert;
use byte_arena::memory_manager::MemoryManager;
use byte_arena::read::read;
use byte_arena::update::update;

#[test]
fn narrow_keeps_sixteen_bit_numbers() {
    assert_eq!(narrow(0), Some(0));
    assert_eq!(narrow(1), Some(1));
    assert_eq!(narrow(65535), Some(65535));
}

#[test]
fn narrow_rejects_wider_numbers() {
    assert_eq!(narrow(65536), None);
    assert_eq!(narrow(65537), None);
    assert_eq!(narrow(usize::MAX), None);
}

#[test]
fn commands_drive_the_arena() {
    let mut manager = MemoryManager::<65535>::new();
    assert_eq!(insert(&mut manager, 1, vec![72, 101, 108, 108, 111]), Ok(()));
    assert_eq!(insert(&mut manager, 2, vec![82, 117, 115, 116]), Ok(()));
    assert_eq!(insert(&mut manager, 2, vec![0]), Err(ArenaError::DuplicateId));
    assert_eq!(read(&manager, 1), Ok(vec![72, 101, 108, 108, 111]));
    assert_eq!(
        update(&mut manager, 2, vec![80, 121, 116, 104, 111, 110]),
        Err(ArenaError::SizeExceeded)
    );
    assert_eq!(read(&manager, 2), Ok(vec![82, 117, 115, 116]));
    assert_eq!(update(&mut manager, 2, vec![80, 121]), Ok(()));
    assert_eq!(read(&manager, 2), Ok(vec![80, 121, 0, 0]));
    assert_eq!(delete(&mut manager, 1), Ok(()));
    assert_eq!(read(&manager, 1), Err(ArenaError::NotFound));

    let entries = dump(&manager);
    assert_eq!(entries.len(), 1);
    assert_eq!(entries[0].id, 2);
    assert_eq!(entries[0].start, 5);
    assert_eq!(entries[0].size, 4);
    assert_eq!(entries[0].data, vec![80, 121, 0, 0]);
    assert_eq!(entries[0].text, "Py\0\0");
}

#[test]
fn commands_do_not_alias_wide_numbers() {
    let mut manager = MemoryManager::<64>::new();
    assert_eq!(insert(&mut manager, 1, vec![1, 2, 3]), Ok(()));
    // 65537 would be 1 if it were cut down to sixteen bits.
    assert_eq!(read(&manager, 65537), Err(ArenaError::NotFound));
    assert_eq!(update(&mut manager, 65537, vec![9]), Err(ArenaError::NotFound));
    assert_eq!(delete(&mut manager, 65537), Err(ArenaError::NotFound));
    assert_eq!(read(&manager, 1), Ok(vec![1, 2, 3]));
    assert_eq!(manager.free_cursor(), 3);
}

#[test]
fn commands_report_unknown_ids() {
    let mut manager = MemoryManager::<64>::new();
    assert_eq!(read(&manager, 3), Err(ArenaError::NotFound));
    assert_eq!(update(&mut manager, 3, vec![1]), Err(ArenaError::NotFound));
    assert_eq!(delete(&mut manager, 3), Err(ArenaError::NotFound));
    assert!(dump(&manager).is_empty());
}
