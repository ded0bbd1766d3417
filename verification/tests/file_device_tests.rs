use eldenring::dltx::{DLAllocatorRef, DLString};
use eldenring::file_device::{AdapterFileOperator, DLFileOperatorBase, DLFileOperatorIOState, DLIOResult};

#[test]
fn io_state_flags() {
    let s = DLFileOperatorIOState(0b101);
    assert!(s.is_open());
    assert!(!s.unk1());
    assert!(s.unk2());
    assert_eq!(s.to_string(), "DLFileOperatorIOState { is_open: true, unk1: false, unk2: true }");
    assert_eq!(DLFileOperatorIOState::default().0, 0);
}

fn operator(buffer: Vec<u8>) -> AdapterFileOperator {
    let alloc = DLAllocatorRef { address: 0x10 };
    let path: DLString = DLString::from_str(&alloc, "data0:/map.msb").unwrap();
    AdapterFileOperator::new(&alloc, &path, 0x20, 0x30, buffer)
}

#[test]
fn adapter_copies_path_and_starts_closed() {
    let op = operator(vec![1, 2, 3]);
    assert_eq!(op.base.path.to_str().unwrap(), "data0:/map.msb");
    assert_eq!(op.base.io_state.0, 0);
    assert_eq!(op.base.allocator, 0x10);
    assert_eq!(op.base.owning_operator_container, 0x20);
    assert_eq!(op.base.owning_file_device, 0x30);
    assert_eq!(op.base.result, DLIOResult::Success);
    assert_eq!(op.base.vftable, 0);
}

#[test]
fn operator_base_keeps_its_table() {
    let alloc = DLAllocatorRef { address: 0x10 };
    let path: DLString = DLString::from_str(&alloc, "a").unwrap();
    let base = DLFileOperatorBase::new(0x1400, &alloc, &path, 0x20, 0x30);
    assert_eq!(base.vftable, 0x1400);
    assert_eq!(base.result, DLIOResult::Success);
    assert_eq!(base.path.to_str().unwrap(), "a");
}

#[test]
fn set_path_and_state_set_flag_bits() {
    let mut op = operator(vec![]);
    op.base.io_state = DLFileOperatorIOState(0xFFFF_FFFF);
    let alloc = DLAllocatorRef { address: 0 };
    let path: DLString = DLString::from_str(&alloc, "x").unwrap();
    assert!(op.set_path(&path, false, true));
    assert_eq!(op.base.path.to_str().unwrap(), "x");
    assert_eq!(op.base.io_state.0, 0xFFFF_FFFD);
    assert!(op.base.io_state.is_open());
    assert!(!op.base.io_state.unk1());
    assert!(op.base.io_state.unk2());
    assert!(op.set_state(true, false));
    assert_eq!(op.base.io_state.0, 0xFFFF_FFFB);
    assert!(op.base.io_state.unk1());
    assert!(!op.base.io_state.unk2());
}

#[test]
fn read_and_size() {
    let mut op = operator(vec![10, 11, 12, 13, 14]);
    assert_eq!(op.file_size(), 5);
    let mut out = [0u8; 4];
    assert_eq!(op.read(&mut out, 3), 3);
    assert_eq!(out, [10, 11, 12, 0]);
    assert_eq!(op.position, 3);
    assert_eq!(op.file_size(), 5);
    assert_eq!(op.position, 3);
    assert_eq!(op.read(&mut out, 2), 2);
    assert_eq!(out, [13, 14, 12, 0]);
    assert!(op.is_open());
    assert!(op.close());
}

#[test]
fn short_read_returns_what_is_left() {
    let mut op = operator(vec![1, 2, 3]);
    let mut out = [9u8; 5];
    assert_eq!(op.read(&mut out, 2), 2);
    op.base.result = DLIOResult::Code(-1);
    assert_eq!(op.read(&mut out, 5), 1);
    assert_eq!(out, [3, 2, 9, 9, 9]);
    assert_eq!(op.position, 3);
    assert_eq!(op.base.result, DLIOResult::Success);
    assert_eq!(op.read(&mut out, 4), 0);
    assert_eq!(op.position, 3);
}
