use byte_arena::error::ArenaError;
use byte_arena::memory_manager::MemoryManager;

/// Inserting a payload and reading it back yields the same bytes.
#[test]
fn test_insert_and_read() {
    let mut manager = MemoryManager::<65535>::new();
    let id: u16 = 1;
    let data: Vec<u8> = vec![72, 101, 108, 108, 111]; // "Hello"

    assert_eq!(manager.insert(id, data.clone()), Ok(()));
    let read_data = manager.read(id).unwrap();

    assert_eq!(data, read_data);
}

/// A second insert under an identifier that is already taken is refused.
#[test]
fn test_insert_duplicate_fails() {
    let mut manager = MemoryManager::<65535>::new();
    let id: u16 = 1;
    let data: Vec<u8> = vec![72, 101, 108, 108, 111]; // "Hello"

    assert_eq!(manager.insert(id, data.clone()), Ok(()));
    assert_eq!(manager.insert(id, data), Err(ArenaError::DuplicateId));
}

/// A payload one byte longer than the whole arena is refused.
#[test]
fn test_insert_out_of_space() {
    let mut manager = MemoryManager::<65535>::new();
    let data: Vec<u8> = vec![0; 65536];

    assert_eq!(manager.insert(1, data), Err(ArenaError::OutOfSpace));
}

/// An update that carries more bytes than the region holds is refused, and
/// the region still reads as before.
#[test]
fn test_update() {
    let mut manager = MemoryManager::<65535>::new();
    let id: u16 = 1;
    let data: Vec<u8> = vec![72, 101, 108, 108, 111]; // "Hello"

    assert_eq!(manager.insert(id, data.clone()), Ok(()));
    let updated_data: Vec<u8> = vec![80, 121, 116, 104, 111, 110]; // "Python"
    assert_eq!(manager.update(id, updated_data.clone()), Err(ArenaError::SizeExceeded));

    let read_data = manager.read(id).unwrap();
    assert_eq!(data, read_data);
    assert_ne!(updated_data, read_data);
}

/// A deleted identifier is no longer found.
#[test]
fn test_delete() {
    let mut manager = MemoryManager::<65535>::new();
    let id: u16 = 1;
    let data: Vec<u8> = vec![72, 101, 108, 108, 111]; // "Hello"

    assert_eq!(manager.insert(id, data.clone()), Ok(()));
    assert_eq!(manager.delete(id), Ok(()));

    assert_eq!(manager.read(id), Err(ArenaError::NotFound));
}
