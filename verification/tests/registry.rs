//! The registration registry: name prefixing, name faults, parameters.

use linuxcnc_hal::error::{ParameterRegisterError, PinRegisterError, ResourcesError};
use linuxcnc_hal::hal::Hal;
use linuxcnc_hal::hal_parameter::{HalParameter, Parameter, ParameterPermissions, ReadonlyParameter, ReadWriteParameter};
use linuxcnc_hal::hal_pin::{BidirectionalPin, InputPin};
use linuxcnc_hal::hal_resource::{HalResource, ResourceRead, ResourceWrite};
use linuxcnc_hal::{HalComponent, RegisterResources, Resources};

#[derive(Debug)]
struct Mixed {
    pin: BidirectionalPin<u32>,
    param: Parameter<i32>,
    ro_param: ReadonlyParameter<bool>,
    rw_param: ReadWriteParameter<u32>,
}

impl Resources for Mixed {
    fn register_resources(comp: &RegisterResources, hal: &mut Hal) -> Result<Self, ResourcesError> {
        Ok(Mixed {
            pin: comp
                .register_pin::<BidirectionalPin<u32>>(hal, "both")
                .map_err(ResourcesError::Pin)?,
            param: comp
                .register_parameter::<Parameter<i32>>(hal, "gain")
                .map_err(ResourcesError::Parameter)?,
            ro_param: comp
                .register_readonly_parameter::<ReadonlyParameter<bool>>(hal, "seen")
                .map_err(ResourcesError::Parameter)?,
            rw_param: comp
                .register_parameter::<ReadWriteParameter<u32>>(hal, "limit")
                .map_err(ResourcesError::Parameter)?,
        })
    }
}

#[test]
fn resource_names_carry_the_component_prefix() {
    let mut hal = Hal::new(32, 2);
    let comp: HalComponent<Mixed> = HalComponent::new("mixer", &mut hal).unwrap();
    let r = comp.resources();
    assert_eq!(r.pin.name(), "mixer.both");
    assert_eq!(r.param.name(), "mixer.gain");
    assert_eq!(r.ro_param.name(), "mixer.seen");
    assert_eq!(r.rw_param.name(), "mixer.limit");
    comp.close(&mut hal);
}

#[test]
fn parameters_read_and_write() {
    let mut hal = Hal::new(32, 2);
    let comp: HalComponent<Mixed> = HalComponent::new("vals", &mut hal).unwrap();
    {
        let r = comp.resources();
        assert_eq!(r.param.value(&hal), Ok(0));
        assert_eq!(r.param.set_value(&mut hal, 250), Ok(()));
        assert_eq!(r.param.value(&hal), Ok(250));

        assert_eq!(r.ro_param.value(&hal), Ok(false));

        assert_eq!(r.rw_param.set_value(&mut hal, 9), Ok(()));
        assert_eq!(r.rw_param.value(&hal), Ok(9));

        assert_eq!(r.pin.set_value(&mut hal, 77), Ok(()));
        assert_eq!(r.pin.value(&hal), Ok(77));
    }
    comp.close(&mut hal);
}

struct LongPin {
    _pin: InputPin<i32>,
}

impl Resources for LongPin {
    fn register_resources(comp: &RegisterResources, hal: &mut Hal) -> Result<Self, ResourcesError> {
        // the prefixed name is over the limit even though the local name fits
        let pin = comp
            .register_pin::<InputPin<i32>>(hal, "a-local-name-that-pushes-the-prefixed-form-over")
            .map_err(ResourcesError::Pin)?;
        Ok(LongPin { _pin: pin })
    }
}

#[test]
fn prefixed_name_over_the_limit_is_rejected_before_any_call() {
    let mut hal = Hal::new(32, 2);
    let comp = HalComponent::<LongPin>::new("a-rather-long-component-name", &mut hal);
    assert!(matches!(
        comp,
        Err(linuxcnc_hal::error::ComponentInitError::ResourceRegistration(
            ResourcesError::Pin(PinRegisterError::NameLength)
        ))
    ));
}

struct NulPin {
    _pin: InputPin<i32>,
}

impl Resources for NulPin {
    fn register_resources(comp: &RegisterResources, hal: &mut Hal) -> Result<Self, ResourcesError> {
        let pin = comp
            .register_pin::<InputPin<i32>>(hal, "nul\0inside")
            .map_err(ResourcesError::Pin)?;
        Ok(NulPin { _pin: pin })
    }
}

#[test]
fn embedded_nul_byte_fails_name_conversion() {
    let mut hal = Hal::new(32, 2);
    let comp = HalComponent::<NulPin>::new("c", &mut hal);
    assert!(matches!(
        comp,
        Err(linuxcnc_hal::error::ComponentInitError::ResourceRegistration(
            ResourcesError::Pin(PinRegisterError::NameConversion)
        ))
    ));
}

#[test]
fn parameter_registration_after_ready_is_locked() {
    let mut hal = Hal::new(32, 2);
    let id = hal.init("late");
    assert!(id > 0);
    assert_eq!(hal.ready(id), 0);

    let p = Parameter::<i32>::register("late.p", &mut hal, id, ParameterPermissions::ReadWrite);
    assert!(matches!(p, Err(ParameterRegisterError::LockedHal)));
}
