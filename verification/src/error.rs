//! Error types.
//!
//! Every fault a component can hit is surfaced synchronously as one of these
//! typed values; none is retried internally, since none of the conditions is
//! transient.  The numeric status codes of the external calls are mapped onto
//! these variants at the call site; a code outside the documented space is a
//! defect, not an error value, and never reaches this taxonomy.

use vstd::prelude::*;

verus! {

/// A fault observed on a storage handle.
#[derive(Copy, Clone, Debug, PartialEq, Eq, Structural)]
pub enum StorageError {
    /// The storage pointer is null.
    Null,
    /// The storage pointer does not satisfy the natural alignment of the
    /// scalar it should hold.
    Alignment,
}

/// A fault while registering a pin.
#[derive(Copy, Clone, Debug, PartialEq, Eq, Structural)]
pub enum PinRegisterError {
    /// The pin's full name is longer than [`crate::hal::HAL_NAME_LEN`] bytes.
    NameLength,
    /// The pin's name cannot be handed to the HAL as a C string, because it
    /// holds an embedded null byte.
    NameConversion,
    /// Allocating the shared-memory storage backing the pin failed.
    Storage(StorageError),
    /// The HAL registration call returned its invalid-argument status.
    Invalid,
    /// The HAL is locked: the component was already marked ready, and the
    /// arena no longer accepts new resources.
    LockedHal,
    /// The arena has no memory left for the pin's value.
    Memory,
}

/// A fault while registering a parameter.
#[derive(Copy, Clone, Debug, PartialEq, Eq, Structural)]
pub enum ParameterRegisterError {
    /// The parameter's full name is longer than [`crate::hal::HAL_NAME_LEN`] bytes.
    NameLength,
    /// The parameter's name cannot be handed to the HAL as a C string,
    /// because it holds an embedded null byte.
    NameConversion,
    /// Allocating the shared-memory storage backing the parameter failed.
    Storage(StorageError),
    /// The HAL registration call returned its invalid-argument status.
    Invalid,
    /// The HAL is locked: the component was already marked ready, and the
    /// arena no longer accepts new resources.
    LockedHal,
    /// The arena has no memory left for the parameter's value.
    Memory,
}

/// A fault while initialising a component.
#[derive(Debug)]
pub enum ComponentInitError {
    /// The component name is longer than [`crate::hal::HAL_NAME_LEN`] bytes.
    NameLength,
    /// The component name cannot be handed to the HAL as a C string, because
    /// it holds an embedded null byte.
    InvalidName,
    /// The HAL has no memory left for the component.
    Memory,
    /// Registering the process termination-signal handlers failed.
    Signals(std::io::Error),
    /// Registering the component's resources failed.
    ResourceRegistration(ResourcesError),
    /// The HAL initialisation call returned its invalid-argument status.
    Init,
    /// The HAL readiness call returned its invalid-argument status.
    Ready,
}

/// A fault while registering a component's resources.
#[derive(Copy, Clone, Debug, PartialEq, Eq, Structural)]
pub enum ResourcesError {
    /// A pin registration failed.
    Pin(PinRegisterError),
    /// A parameter registration failed.
    Parameter(ParameterRegisterError),
}

impl From<PinRegisterError> for ResourcesError {
    fn from(e: PinRegisterError) -> (r: ResourcesError) {
        ResourcesError::Pin(e)
    }
}

impl vstd::std_specs::convert::FromSpecImpl<PinRegisterError> for ResourcesError {
    open spec fn obeys_from_spec() -> bool {
        true
    }

    open spec fn from_spec(e: PinRegisterError) -> ResourcesError {
        ResourcesError::Pin(e)
    }
}

impl From<ParameterRegisterError> for ResourcesError {
    fn from(e: ParameterRegisterError) -> (r: ResourcesError) {
        ResourcesError::Parameter(e)
    }
}

impl vstd::std_specs::convert::FromSpecImpl<ParameterRegisterError> for ResourcesError {
    open spec fn obeys_from_spec() -> bool {
        true
    }

    open spec fn from_spec(e: ParameterRegisterError) -> ResourcesError {
        ResourcesError::Parameter(e)
    }
}

/// Map the status an initialisation call returned onto the taxonomy.
///
/// The documented code space is the two distinguished negative codes and
/// the strictly positive ids; anything else is a defect of the boundary,
/// not an error value, and the caller must treat it as fatal rather than
/// hand it in.
pub open spec fn spec_map_init_code(code: i32) -> Result<i32, ComponentInitError> {
    if code == -crate::hal::EINVAL {
        Err(ComponentInitError::Init)
    } else if code == -crate::hal::ENOMEM {
        Err(ComponentInitError::Memory)
    } else {
        Ok(code)
    }
}

/// Map the status an initialisation call returned onto the taxonomy.
pub fn map_init_code(code: i32) -> (r: Result<i32, ComponentInitError>)
    requires
        code == -crate::hal::EINVAL || code == -crate::hal::ENOMEM || code > 0,
    ensures
        r == spec_map_init_code(code),
        r matches Ok(id) ==> id > 0,
{
    if code == -crate::hal::EINVAL {
        Err(ComponentInitError::Init)
    } else if code == -crate::hal::ENOMEM {
        Err(ComponentInitError::Memory)
    } else {
        Ok(code)
    }
}

/// Map the status a readiness call returned onto the taxonomy.  Zero is
/// success; the invalid code covers an unknown id and a repeated readiness
/// call; anything else is a defect of the boundary.
pub open spec fn spec_map_ready_code(code: i32) -> Result<(), ComponentInitError> {
    if code == 0 {
        Ok(())
    } else {
        Err(ComponentInitError::Ready)
    }
}

/// Map the status a readiness call returned onto the taxonomy.
pub fn map_ready_code(code: i32) -> (r: Result<(), ComponentInitError>)
    requires
        code == 0 || code == -crate::hal::EINVAL,
    ensures
        r == spec_map_ready_code(code),
{
    if code == 0 {
        Ok(())
    } else {
        Err(ComponentInitError::Ready)
    }
}

/// Map the status a pin registration call returned onto the taxonomy.
pub open spec fn spec_map_pin_code(code: i32) -> Result<(), PinRegisterError> {
    if code == 0 {
        Ok(())
    } else if code == -crate::hal::EPERM {
        Err(PinRegisterError::LockedHal)
    } else if code == -crate::hal::ENOMEM {
        Err(PinRegisterError::Memory)
    } else {
        Err(PinRegisterError::Invalid)
    }
}

/// Map the status a pin registration call returned onto the taxonomy.
pub fn map_pin_code(code: i32) -> (r: Result<(), PinRegisterError>)
    requires
        code == 0 || code == -crate::hal::EINVAL || code == -crate::hal::EPERM || code
            == -crate::hal::ENOMEM,
    ensures
        r == spec_map_pin_code(code),
{
    if code == 0 {
        Ok(())
    } else if code == -crate::hal::EPERM {
        Err(PinRegisterError::LockedHal)
    } else if code == -crate::hal::ENOMEM {
        Err(PinRegisterError::Memory)
    } else {
        Err(PinRegisterError::Invalid)
    }
}

/// Map the status a parameter registration call returned onto the taxonomy.
pub open spec fn spec_map_param_code(code: i32) -> Result<(), ParameterRegisterError> {
    if code == 0 {
        Ok(())
    } else if code == -crate::hal::EPERM {
        Err(ParameterRegisterError::LockedHal)
    } else if code == -crate::hal::ENOMEM {
        Err(ParameterRegisterError::Memory)
    } else {
        Err(ParameterRegisterError::Invalid)
    }
}

/// Map the status a parameter registration call returned onto the taxonomy.
pub fn map_param_code(code: i32) -> (r: Result<(), ParameterRegisterError>)
    requires
        code == 0 || code == -crate::hal::EINVAL || code == -crate::hal::EPERM || code
            == -crate::hal::ENOMEM,
    ensures
        r == spec_map_param_code(code),
{
    if code == 0 {
        Ok(())
    } else if code == -crate::hal::EPERM {
        Err(ParameterRegisterError::LockedHal)
    } else if code == -crate::hal::ENOMEM {
        Err(ParameterRegisterError::Memory)
    } else {
        Err(ParameterRegisterError::Invalid)
    }
}

/// `std::io::Error` as an opaque value, so that a signal-registration fault
/// can be carried inside [`ComponentInitError::Signals`].
#[verifier::external_type_specification]
#[verifier::external_body]
pub struct ExIoError(std::io::Error);

} // verus!
