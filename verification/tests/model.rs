//! The runtime model's boundary contract: status codes, table limits,
//! arena allocation.

use linuxcnc_hal::hal::{Hal, HalCell, EINVAL, ENOMEM, EPERM, HAL_IN, HAL_IO, HAL_OUT, HAL_RW};
use linuxcnc_hal::scalar::{ScalarKind, ScalarValue};

#[test]
fn init_rejects_an_over_long_name() {
    let mut hal = Hal::new(4, 4);
    let name = "a-name-longer-than-the-maximum-the-hal-can-take-";
    assert!(name.len() > 47);
    assert_eq!(hal.init(name), -EINVAL);
    // nothing was consumed
    assert_eq!(hal.init("ok"), 1);
}

#[test]
fn init_hands_out_consecutive_positive_ids() {
    let mut hal = Hal::new(4, 4);
    assert_eq!(hal.init("one"), 1);
    assert_eq!(hal.init("two"), 2);
    assert_eq!(hal.init("three"), 3);
}

#[test]
fn init_reports_a_full_component_table() {
    let mut hal = Hal::new(4, 2);
    assert!(hal.init("one") > 0);
    assert!(hal.init("two") > 0);
    assert_eq!(hal.init("three"), -ENOMEM);
}

#[test]
fn exit_releases_an_id_and_rejects_unknown_ids() {
    let mut hal = Hal::new(4, 2);
    let id = hal.init("one");
    assert_eq!(hal.exit(id), 0);
    assert_eq!(hal.exit(id), -EINVAL);
    // the freed row makes room again
    assert!(hal.init("two") > 0);
}

#[test]
fn malloc_returns_aligned_addresses_until_exhaustion() {
    let mut hal = Hal::new(2, 1);
    let a = hal.malloc(8);
    let b = hal.malloc(4);
    assert!(a != 0 && a % 8 == 0);
    assert!(b != 0 && b % 8 == 0);
    assert_ne!(a, b);
    assert_eq!(hal.malloc(8), 0);
}

#[test]
fn register_pin_checks_its_arguments() {
    let mut hal = Hal::new(8, 2);
    let id = hal.init("c");
    let storage = hal.malloc(8);

    // unknown component
    assert_eq!(hal.register_pin("c.p", ScalarKind::U32, HAL_IN, storage, id + 7), -EINVAL);
    // a direction code outside the pin set
    assert_eq!(hal.register_pin("c.p", ScalarKind::U32, HAL_RW, storage, id), -EINVAL);
    // an address that is not an allocated pointer slot
    assert_eq!(hal.register_pin("c.p", ScalarKind::U32, HAL_IN, 0, id), -EINVAL);
    assert_eq!(hal.register_pin("c.p", ScalarKind::U32, HAL_IN, storage + 4, id), -EINVAL);
    // a well-formed registration passes
    assert_eq!(hal.register_pin("c.p", ScalarKind::U32, HAL_IN, storage, id), 0);
    // the slot is bound now, so it cannot be registered twice
    assert_eq!(hal.register_pin("c.q", ScalarKind::U32, HAL_OUT, storage, id), -EINVAL);
}

#[test]
fn register_pin_is_refused_once_ready() {
    let mut hal = Hal::new(8, 2);
    let id = hal.init("c");
    let storage = hal.malloc(8);
    assert_eq!(hal.ready(id), 0);
    assert_eq!(hal.register_pin("c.p", ScalarKind::S32, HAL_IO, storage, id), -EPERM);
}

#[test]
fn register_param_accepts_the_parameter_codes_only() {
    let mut hal = Hal::new(8, 2);
    let id = hal.init("c");
    let storage = hal.malloc(8);
    assert_eq!(hal.register_param("c.p", ScalarKind::Float, HAL_IN, storage, id), -EINVAL);
    assert_eq!(hal.register_param("c.p", ScalarKind::Float, HAL_RW, storage, id), 0);
}

#[test]
fn register_reports_arena_exhaustion() {
    let mut hal = Hal::new(1, 2);
    let id = hal.init("c");
    let storage = hal.malloc(8);
    assert_ne!(storage, 0);
    // no room left for the value cell
    assert_eq!(hal.register_pin("c.p", ScalarKind::Bit, HAL_IN, storage, id), -ENOMEM);
}

#[test]
fn registration_zeroes_the_value_cell() {
    let mut hal = Hal::new(8, 2);
    let id = hal.init("c");
    let storage = hal.malloc(8);
    assert_eq!(hal.register_pin("c.p", ScalarKind::Float, HAL_IN, storage, id), 0);
    let target = match hal.peek(storage) {
        Some(HalCell::Ptr(p)) => p,
        other => panic!("expected a bound pointer slot, got {:?}", other),
    };
    assert_eq!(hal.peek(target), Some(HalCell::Val(ScalarValue::Float(0))));
}
