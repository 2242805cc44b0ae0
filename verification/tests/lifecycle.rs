//! Component lifecycle: creation, registration, readiness, teardown.

use linuxcnc_hal::error::{ComponentInitError, PinRegisterError, ResourcesError, StorageError};
use linuxcnc_hal::hal::{Hal, EINVAL};
use linuxcnc_hal::hal_pin::{InputPin, OutputPin};
use linuxcnc_hal::hal_resource::HalResource;
use linuxcnc_hal::scalar::Float64;
use linuxcnc_hal::{HalComponent, HalComponentBuilder, RegisterResources, Resources};

#[derive(Debug)]
struct EmptyResources {}

impl Resources for EmptyResources {
    fn register_resources(_comp: &RegisterResources, _hal: &mut Hal) -> Result<Self, ResourcesError> {
        Ok(Self {})
    }
}

#[test]
fn name_too_long() -> Result<(), ComponentInitError> {
    let mut hal = Hal::new(16, 4);
    let comp = HalComponent::<EmptyResources>::new(
        "name-thats-way-too-long-for-linuxcnc-to-handle-wow-this-is-ridiculous",
        &mut hal,
    );

    println!("{:?}", comp);

    match comp {
        Err(ComponentInitError::NameLength) => Ok(()),
        Err(e) => Err(e),
        Ok(_) => Err(ComponentInitError::Init),
    }
}

#[derive(Debug)]
struct Pins {
    input_1: InputPin<Float64>,
    output_1: OutputPin<Float64>,
}

impl Resources for Pins {
    fn register_resources(comp: &RegisterResources, hal: &mut Hal) -> Result<Self, ResourcesError> {
        Ok(Pins {
            input_1: comp.register_pin::<InputPin<Float64>>(hal, "input-1").map_err(ResourcesError::Pin)?,
            output_1: comp.register_pin::<OutputPin<Float64>>(hal, "output-1").map_err(ResourcesError::Pin)?,
        })
    }
}

#[test]
fn scenario_create_register_write_read() {
    let mut hal = Hal::new(16, 4);
    let comp: HalComponent<Pins> = HalComponent::new("pins", &mut hal).unwrap();

    assert!(comp.id() > 0);
    assert_eq!(comp.name(), "pins");

    let pins = comp.resources();
    assert_eq!(pins.input_1.name(), "pins.input-1");
    assert_eq!(pins.output_1.name(), "pins.output-1");

    // a fresh pin reads as zero
    let zero = pins.input_1.value(&hal).unwrap();
    assert_eq!(f64::from_bits(zero.bits), 0.0);

    // write 42.0 to the output and read it back
    pins.output_1
        .set_value(&mut hal, Float64 { bits: (42.0f64).to_bits() })
        .unwrap();
    let back = pins.output_1.storage().read(&hal).unwrap();
    assert_eq!(f64::from_bits(back.bits), 42.0);

    comp.close(&mut hal);
}

#[test]
fn scenario_component_name_one_over_the_limit() {
    // 48 bytes: one longer than the maximum of 47
    let name = "a-component-name-of-exactly-forty-eight-bytes-xx";
    assert_eq!(name.len(), 48);

    let mut hal = Hal::new(16, 4);
    let comp = HalComponent::<EmptyResources>::new(name, &mut hal);
    assert!(matches!(comp, Err(ComponentInitError::NameLength)));

    // no side effects: the next creation still gets the first id
    let b = HalComponentBuilder::<EmptyResources>::new("ok", &mut hal).unwrap();
    assert_eq!(b.id(), 1);
}

#[test]
fn scenario_register_after_ready_is_locked() {
    let mut hal = Hal::new(16, 4);
    let builder = HalComponentBuilder::<EmptyResources>::new("late", &mut hal).unwrap();
    let id = builder.id();
    let comp = builder.ready(EmptyResources {}, &mut hal).unwrap();

    let late = InputPin::<Float64>::new("late.pin".to_string(), &mut hal, id);
    assert!(matches!(late, Err(PinRegisterError::LockedHal)));

    comp.close(&mut hal);
}

#[test]
fn scenario_null_storage_allocation() {
    // an arena with no memory: allocation yields the null address
    let mut hal = Hal::new(0, 4);
    let builder = HalComponentBuilder::<EmptyResources>::new("dry", &mut hal).unwrap();
    let id = builder.id();

    let pin = InputPin::<Float64>::new("dry.pin".to_string(), &mut hal, id);
    assert!(matches!(
        pin,
        Err(PinRegisterError::Storage(StorageError::Null))
    ));
}

#[test]
fn ready_succeeds_at_most_once() {
    let mut hal = Hal::new(16, 4);
    let builder = HalComponentBuilder::<EmptyResources>::new("once", &mut hal).unwrap();
    let id = builder.id();

    assert_eq!(hal.ready(id), 0);
    // the second readiness call surfaces the foreign invalid status
    assert_eq!(hal.ready(id), -EINVAL);
    // and so does readiness for an unknown id
    assert_eq!(hal.ready(id + 1), -EINVAL);
}

#[test]
fn component_ids_are_positive_and_fresh() {
    let mut hal = Hal::new(16, 4);
    let a = HalComponentBuilder::<EmptyResources>::new("first", &mut hal).unwrap();
    let b = HalComponentBuilder::<EmptyResources>::new("second", &mut hal).unwrap();
    assert!(a.id() > 0);
    assert!(b.id() > 0);
    assert_ne!(a.id(), b.id());
    assert_eq!(a.name(), "first");
}

#[test]
fn teardown_releases_the_component_id() {
    let mut hal = Hal::new(16, 2);
    let comp: HalComponent<EmptyResources> = HalComponent::new("gone", &mut hal).unwrap();
    let id = comp.id();
    comp.close(&mut hal);

    // the table row is released: readiness for the id is now invalid
    assert_eq!(hal.ready(id), -EINVAL);
}

#[test]
fn registration_failure_aborts_creation() {
    // the arena has room for the pointer slot but not the value cell, so
    // the external registration call itself reports memory exhaustion
    let mut hal = Hal::new(1, 4);
    let comp = HalComponent::<Pins>::new("pins", &mut hal);
    assert!(matches!(
        comp,
        Err(ComponentInitError::ResourceRegistration(ResourcesError::Pin(
            PinRegisterError::Memory
        )))
    ));
}

#[test]
fn failed_creation_releases_the_component_id() {
    // the arena can hold the pointer slot but not the value cell, so
    // registration fails after the id was assigned
    let mut hal = Hal::new(1, 4);
    let comp = HalComponent::<Pins>::new("pins", &mut hal);
    assert!(comp.is_err());
    // the id was released again: its table row is gone
    assert_eq!(hal.ready(1), -EINVAL);
    // and a later creation still succeeds, under the next id
    let next: HalComponent<EmptyResources> = HalComponent::new("pins", &mut hal).unwrap();
    assert_eq!(next.id(), 2);
}

struct SelfExiting {}

impl Resources for SelfExiting {
    fn register_resources(_comp: &RegisterResources, hal: &mut Hal) -> Result<Self, ResourcesError> {
        // misbehaving registration logic that releases the component's id;
        // the readiness call then surfaces the foreign invalid status
        hal.exit(1);
        Ok(SelfExiting {})
    }
}

#[test]
fn readiness_failure_is_surfaced() {
    let mut hal = Hal::new(8, 4);
    let comp = HalComponent::<SelfExiting>::new("odd", &mut hal);
    assert!(matches!(comp, Err(ComponentInitError::Ready)));
}
