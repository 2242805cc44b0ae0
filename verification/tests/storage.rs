//! Checked storage access: null and alignment faults, reads and writes.

use linuxcnc_hal::error::StorageError;
use linuxcnc_hal::hal::{Hal, HalCell};
use linuxcnc_hal::scalar::{Float64, ScalarValue};
use linuxcnc_hal::storage::{check_allocation, StorageHandle};

#[test]
fn null_address_is_rejected() {
    assert_eq!(check_allocation(0, 8), Err(StorageError::Null));
    assert_eq!(check_allocation(0, 1), Err(StorageError::Null));
}

#[test]
fn misaligned_address_is_rejected() {
    assert_eq!(check_allocation(9, 8), Err(StorageError::Alignment));
    assert_eq!(check_allocation(12, 8), Err(StorageError::Alignment));
    assert_eq!(check_allocation(14, 4), Err(StorageError::Alignment));
}

#[test]
fn aligned_address_is_accepted() {
    assert_eq!(check_allocation(16, 8), Ok(()));
    assert_eq!(check_allocation(12, 4), Ok(()));
    assert_eq!(check_allocation(7, 1), Ok(()));
}

#[test]
fn unbound_handle_reads_null_fault() {
    let mut hal = Hal::new(4, 1);
    // allocated but never registered: the inner pointer is observed null
    let handle = StorageHandle::<Float64>::allocate(&mut hal).unwrap();
    assert_eq!(handle.read(&hal), Err(StorageError::Null));
    assert_eq!(
        handle.write(&mut hal, Float64 { bits: 1 }),
        Err(StorageError::Null)
    );
}

#[test]
fn exhausted_arena_fails_allocation_with_null() {
    let mut hal = Hal::new(0, 1);
    let handle = StorageHandle::<i32>::allocate(&mut hal);
    assert!(matches!(handle, Err(StorageError::Null)));
}

#[test]
fn registered_storage_reads_back_what_was_written() {
    let mut hal = Hal::new(8, 1);
    let id = hal.init("c");
    assert!(id > 0);

    let handle = StorageHandle::<i32>::allocate(&mut hal).unwrap();
    let ret = hal.register_pin("c.p", linuxcnc_hal::ScalarKind::S32, 16, handle.addr(), id);
    assert_eq!(ret, 0);

    assert_eq!(handle.read(&hal), Ok(0));
    assert_eq!(handle.write(&mut hal, -7), Ok(()));
    assert_eq!(handle.read(&hal), Ok(-7));
}

#[test]
fn store_value_keeps_the_slot_kind() {
    let mut hal = Hal::new(8, 1);
    let id = hal.init("c");
    let handle = StorageHandle::<bool>::allocate(&mut hal).unwrap();
    assert_eq!(
        hal.register_pin("c.b", linuxcnc_hal::ScalarKind::Bit, 16, handle.addr(), id),
        0
    );

    // the value cell sits right after the pointer slot
    let target = match hal.peek(handle.addr()) {
        Some(HalCell::Ptr(p)) => p,
        other => panic!("expected a bound pointer slot, got {:?}", other),
    };
    // a write of the wrong kind is refused and changes nothing
    assert!(!hal.store_value(target, ScalarValue::S32(3)));
    assert!(hal.store_value(target, ScalarValue::Bit(true)));
    assert_eq!(handle.read(&hal), Ok(true));
}
