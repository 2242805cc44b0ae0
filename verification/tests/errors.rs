//! The error taxonomy and the status-code mappings.

use linuxcnc_hal::error::{
    map_init_code, map_param_code, map_pin_code, map_ready_code, ComponentInitError,
    ParameterRegisterError, PinRegisterError, ResourcesError, StorageError,
};
use linuxcnc_hal::hal::{EINVAL, ENOMEM, EPERM};

#[test]
fn init_codes_map_onto_the_taxonomy() {
    assert!(matches!(map_init_code(-EINVAL), Err(ComponentInitError::Init)));
    assert!(matches!(map_init_code(-ENOMEM), Err(ComponentInitError::Memory)));
    assert!(matches!(map_init_code(7), Ok(7)));
}

#[test]
fn ready_codes_map_onto_the_taxonomy() {
    assert!(matches!(map_ready_code(0), Ok(())));
    assert!(matches!(map_ready_code(-EINVAL), Err(ComponentInitError::Ready)));
}

#[test]
fn pin_codes_map_onto_the_taxonomy() {
    assert_eq!(map_pin_code(0), Ok(()));
    assert_eq!(map_pin_code(-EINVAL), Err(PinRegisterError::Invalid));
    assert_eq!(map_pin_code(-EPERM), Err(PinRegisterError::LockedHal));
    assert_eq!(map_pin_code(-ENOMEM), Err(PinRegisterError::Memory));
}

#[test]
fn param_codes_map_onto_the_taxonomy() {
    assert_eq!(map_param_code(0), Ok(()));
    assert_eq!(map_param_code(-EINVAL), Err(ParameterRegisterError::Invalid));
    assert_eq!(map_param_code(-EPERM), Err(ParameterRegisterError::LockedHal));
    assert_eq!(map_param_code(-ENOMEM), Err(ParameterRegisterError::Memory));
}

#[test]
fn registration_faults_wrap_into_resource_faults() {
    let pin: ResourcesError = PinRegisterError::NameLength.into();
    assert_eq!(pin, ResourcesError::Pin(PinRegisterError::NameLength));

    let param: ResourcesError = ParameterRegisterError::Storage(StorageError::Alignment).into();
    assert_eq!(
        param,
        ResourcesError::Parameter(ParameterRegisterError::Storage(StorageError::Alignment))
    );
}
