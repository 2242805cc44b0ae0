//! A safe, verified interface to a machine-control HAL (hardware
//! abstraction layer) that exposes named, typed values through a
//! shared-memory arena owned by an external control runtime.
//!
//! The crate covers the resource lifecycle and handle-safety model: a
//! logical component is created under a name, registers typed pins and
//! parameters against externally owned shared memory, transitions to a
//! ready state after which the arena accepts no further registrations,
//! polls a shutdown watcher from its control loop, and tears down in an
//! explicit order.
//!
//! The external runtime's side of the boundary — its arena allocator,
//! component table and status codes — is held as an explicit [`hal::Hal`]
//! value with a precise contract, so that every decision this crate makes
//! (name rules, status-code mapping, the two-phase protocol, checked
//! storage access) is verified against it.  An unverified shell can drive
//! the same decision functions against the real runtime's C entry points.

use vstd::prelude::*;

pub mod builder;
pub mod component;
pub mod error;
pub mod hal;
pub mod hal_parameter;
pub mod hal_pin;
pub mod hal_resource;
pub mod logging;
pub mod names;
pub mod scalar;
pub mod shutdown;
pub mod storage;

pub use crate::builder::HalComponentBuilder;
pub use crate::component::HalComponent;
pub use crate::hal_parameter::Parameter;
pub use crate::scalar::{Float64, HalScalar, ScalarKind, ScalarValue};

use crate::error::{ParameterRegisterError, PinRegisterError, ResourcesError};
use crate::hal::Hal;
use crate::hal_parameter::{param_register_errs, HalParameter, ParameterPermissions};
use crate::hal_pin::{err_of, pin_register_errs, registered_handle, HalPin};
use crate::hal_resource::HalResource;
use crate::names::{join_names, prefixed_name};

verus! {

/// Resources for a component.
///
/// User code implements this trait; during component creation the
/// registration phase calls [`Resources::register_resources`] with the
/// registry bound to the new component, and a fault there aborts the whole
/// creation.
pub trait Resources: Sized {
    /// Register every resource of the component.
    fn register_resources(comp: &RegisterResources, hal: &mut Hal) -> (r: Result<
        Self,
        ResourcesError,
    >)
        requires
            old(hal).wf(),
        ensures
            final(hal).wf(),
    ;
}

/// Component metadata used when registering resources: the name every
/// resource name is prefixed with, and the component id the resources are
/// registered against.
///
/// The registry only exists during the registration phase: readiness
/// consumes it, so no resource can be registered against a ready
/// component through this interface.
pub struct RegisterResources {
    name: String,
    id: i32,
}

impl RegisterResources {
    /// The component name used as the prefix.
    pub closed spec fn spec_name(&self) -> Seq<char> {
        self.name@
    }

    /// The component id resources are registered against.
    pub closed spec fn spec_id(&self) -> i32 {
        self.id
    }

    /// Bind a registry to a component's name and id.
    pub(crate) fn bound_to(name: String, id: i32) -> (r: RegisterResources)
        ensures
            r.spec_name() == name@,
            r.spec_id() == id,
    {
        RegisterResources { name, id }
    }

    /// Register a pin with this component.
    ///
    /// The pin's name is the component name, a full stop, and `pin_name`.
    pub fn register_pin<P: HalPin>(&self, hal: &mut Hal, pin_name: &str) -> (r: Result<
        P,
        PinRegisterError,
    >)
        requires
            old(hal).wf(),
        ensures
            final(hal).wf(),
            pin_register_errs::<P::Storage>(
                *old(hal),
                *final(hal),
                err_of(r),
                prefixed_name(self.spec_name(), pin_name@),
                self.spec_id(),
            ),
            r matches Ok(pin) ==> pin.spec_name() == prefixed_name(self.spec_name(), pin_name@)
                && registered_handle::<P::Storage>(*old(hal), *final(hal), pin.spec_storage()),
    {
        let full_name = join_names(self.name.as_str(), pin_name);
        P::register(full_name.as_str(), hal, self.id)
    }

    /// Register a read/write parameter with this component.
    ///
    /// The parameter's name is the component name, a full stop, and
    /// `parameter_name`.  To register a parameter the external runtime
    /// cannot write, call
    /// [`RegisterResources::register_readonly_parameter`].
    pub fn register_parameter<P: HalParameter>(&self, hal: &mut Hal, parameter_name: &str) -> (r:
        Result<P, ParameterRegisterError>)
        requires
            old(hal).wf(),
        ensures
            final(hal).wf(),
            param_register_errs::<P::Storage>(
                *old(hal),
                *final(hal),
                err_of(r),
                prefixed_name(self.spec_name(), parameter_name@),
                self.spec_id(),
            ),
            r matches Ok(p) ==> p.spec_name() == prefixed_name(
                self.spec_name(),
                parameter_name@,
            ) && registered_handle::<P::Storage>(*old(hal), *final(hal), p.spec_storage()),
    {
        let full_name = join_names(self.name.as_str(), parameter_name);
        P::register(full_name.as_str(), hal, self.id, ParameterPermissions::ReadWrite)
    }

    /// Register a read-only parameter with this component.
    ///
    /// The parameter's name is the component name, a full stop, and
    /// `parameter_name`.
    pub fn register_readonly_parameter<P: HalParameter>(
        &self,
        hal: &mut Hal,
        parameter_name: &str,
    ) -> (r: Result<P, ParameterRegisterError>)
        requires
            old(hal).wf(),
        ensures
            final(hal).wf(),
            param_register_errs::<P::Storage>(
                *old(hal),
                *final(hal),
                err_of(r),
                prefixed_name(self.spec_name(), parameter_name@),
                self.spec_id(),
            ),
            r matches Ok(p) ==> p.spec_name() == prefixed_name(
                self.spec_name(),
                parameter_name@,
            ) && registered_handle::<P::Storage>(*old(hal), *final(hal), p.spec_storage()),
    {
        let full_name = join_names(self.name.as_str(), parameter_name);
        P::register(full_name.as_str(), hal, self.id, ParameterPermissions::ReadOnly)
    }
}

} // verus!
