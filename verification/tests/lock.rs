use lazy_pregen::lock::{decode_lock, encode_lock, prepare, LockFile, LockStatus, LockWrites};
use lazy_pregen::state::PregenState;

#[test]
fn lock_holds_two_little_endian_numbers() {
    let bytes = encode_lock(PregenState::new(0x01020304, 0xa0b0c0d0));
    assert_eq!(bytes, vec![4, 3, 2, 1, 0xd0, 0xc0, 0xb0, 0xa0]);
}

#[test]
fn lock_is_what_bincode_makes_of_two_numbers() {
    let state = PregenState::new(77, 5);
    assert_eq!(encode_lock(state), bincode::serialize(&(77u32, 5u32)).unwrap());
}

#[test]
fn reading_gives_back_what_was_written() {
    for state in [
        PregenState::new(0, 0),
        PregenState::new(1, 11),
        PregenState::new(256, 65536),
        PregenState::new(u32::MAX, u32::MAX),
    ] {
        assert_eq!(decode_lock(&encode_lock(state)), Some(state));
    }
}

#[test]
fn bytes_after_the_state_are_ignored() {
    let mut bytes = encode_lock(PregenState::new(3, 9));
    bytes.extend([1, 2, 3]);
    assert_eq!(decode_lock(&bytes), Some(PregenState::new(3, 9)));
}

#[test]
fn short_lock_holds_no_state() {
    assert_eq!(decode_lock(&[]), None);
    assert_eq!(decode_lock(&[1, 0, 0, 0, 0, 0, 0]), None);
}

#[test]
fn states_have_different_locks() {
    assert_ne!(encode_lock(PregenState::new(1, 2)), encode_lock(PregenState::new(2, 1)));
}

#[test]
fn missing_lock_starts_afresh() {
    let p = prepare(100, LockFile::Missing);
    assert_eq!(p.lock, LockStatus::Missing);
    assert!(p.overwrite_lock);
    assert_eq!(p.controller.unwrap().radius(), 112);
}

#[test]
fn unreadable_lock_is_left_alone() {
    let p = prepare(100, LockFile::Unreadable);
    assert_eq!(p.lock, LockStatus::Unreadable);
    assert!(!p.overwrite_lock);
    assert!(p.controller.is_some());
}

#[test]
fn undecodable_lock_is_left_alone() {
    let p = prepare(100, LockFile::Contents(vec![1, 2, 3]));
    assert_eq!(p.lock, LockStatus::Undecodable);
    assert!(!p.overwrite_lock);
    assert!(p.controller.is_some());
}

#[test]
fn corrupt_lock_is_not_taken_into_account() {
    let p = prepare(100, LockFile::Contents(encode_lock(PregenState::new(0, 4))));
    assert_eq!(p.lock, LockStatus::Corrupt);
    assert!(p.overwrite_lock);
    assert!(p.controller.is_some());
    let p = prepare(0, LockFile::Contents(encode_lock(PregenState::new(0, 4))));
    assert_eq!(p.lock, LockStatus::Corrupt);
    assert!(p.overwrite_lock);
    assert!(p.controller.is_none());
}

#[test]
fn valid_lock_is_taken_into_account() {
    let p = prepare(32, LockFile::Contents(encode_lock(PregenState::new(1, 11))));
    assert_eq!(p.lock, LockStatus::Valid);
    assert!(p.overwrite_lock);
    assert!(p.controller.is_some());
    let p = prepare(32, LockFile::Contents(encode_lock(PregenState::new(2, 0))));
    assert_eq!(p.lock, LockStatus::Valid);
    assert!(p.controller.is_none());
}

#[test]
fn failures_in_a_row_are_told_once() {
    let mut writes = LockWrites::new();
    let told: Vec<bool> = [true, false, false, true, false]
        .into_iter()
        .map(|written| writes.record(written))
        .collect();
    assert_eq!(told, vec![false, true, false, false, true]);
    assert!(LockWrites::new().record(false));
}
