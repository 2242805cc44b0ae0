//! HAL parameters: configuration values exchanged with the external
//! runtime, registered with read-only or read/write permissions.
//!
//! Registration follows the same path as a pin's: validate the full name,
//! allocate backing storage, invoke the external registration entry point,
//! and map its status onto the typed error taxonomy.

use vstd::prelude::*;

use crate::error::{ParameterRegisterError, StorageError};
use crate::hal::{tables_unchanged, Hal, HalCell, EINVAL, ENOMEM, EPERM, HAL_NAME_LEN};
use crate::hal_pin::err_of;
use crate::hal_resource::{HalResource, ResourceRead, ResourceWrite};
use crate::names::{has_nul_byte, str_contains_nul};
use crate::scalar::{HalScalar, ScalarValue};
use crate::storage::StorageHandle;
use vstd::string::StringSliceAdditionalSpecFns;
use vstd::utf8::encode_utf8;

verus! {

/// The write permissions of a parameter, from the external runtime's point
/// of view.
#[derive(Copy, Clone, Debug, PartialEq, Eq, Structural)]
pub enum ParameterPermissions {
    /// The parameter may only be read by the external runtime.
    ReadOnly,
    /// The parameter can be both read and written by the external runtime.
    ReadWrite,
}

impl ParameterPermissions {
    /// The raw permission code the external registration call takes.
    pub open spec fn spec_code(self) -> i32 {
        match self {
            ParameterPermissions::ReadOnly => crate::hal::HAL_RO,
            ParameterPermissions::ReadWrite => crate::hal::HAL_RW,
        }
    }

    /// Return the raw permission code the external registration call takes.
    pub fn code(self) -> (c: i32)
        ensures
            c == self.spec_code(),
            c == crate::hal::HAL_RO || c == crate::hal::HAL_RW,
    {
        match self {
            ParameterPermissions::ReadOnly => crate::hal::HAL_RO,
            ParameterPermissions::ReadWrite => crate::hal::HAL_RW,
        }
    }
}

/// Which fault, if any, parameter registration reports, and what each
/// outcome does to the runtime state.  The decision mirrors pin
/// registration exactly, over the parameter error taxonomy.
pub open spec fn param_register_errs<S: HalScalar>(
    h0: Hal,
    h1: Hal,
    r_err: Option<ParameterRegisterError>,
    full_name: Seq<char>,
    comp_id: i32,
) -> bool {
    let bytes = encode_utf8(full_name);
    let len_ok = bytes.len() as usize <= HAL_NAME_LEN;
    let nul_ok = !has_nul_byte(bytes);
    &&& tables_unchanged(h0, h1)
    &&& (!len_ok ==> r_err == Some(ParameterRegisterError::NameLength) && h1 == h0)
    &&& (len_ok && !nul_ok ==> r_err == Some(ParameterRegisterError::NameConversion) && h1 == h0)
    &&& (len_ok && nul_ok && h0.slots().len() >= h0.slot_limit() ==> r_err == Some(
        ParameterRegisterError::Storage(StorageError::Null),
    ) && h1 == h0)
    &&& (len_ok && nul_ok && h0.slots().len() < h0.slot_limit() ==> ({
        let alloc_only = h1.slots() =~= h0.slots().push(HalCell::Ptr(0));
        &&& (!h0.comp_table().dom().contains(comp_id) ==> r_err == Some(
            ParameterRegisterError::Invalid,
        ) && alloc_only)
        &&& (h0.comp_table().dom().contains(comp_id) && h0.comp_table()[comp_id] ==> r_err
            == Some(ParameterRegisterError::LockedHal) && alloc_only)
        &&& (h0.accepts_registrations(comp_id) && h0.slots().len() + 1 >= h0.slot_limit()
            ==> r_err == Some(ParameterRegisterError::Memory) && alloc_only)
        &&& (h0.accepts_registrations(comp_id) && h0.slots().len() + 1 < h0.slot_limit() ==> ({
            &&& r_err is None
            &&& h1.slots() =~= h0.slots().push(
                HalCell::Ptr(crate::hal::spec_value_addr(h0)),
            ).push(HalCell::Val(ScalarValue::zero_of(S::spec_kind())))
            &&& forall|a: usize| h0.cell_at(a) is Some ==> h1.cell_at(a) == h0.cell_at(a)
        }))
    }))
}

/// A HAL parameter.
pub trait HalParameter: HalResource {
    /// Register a parameter under its full name against a component, with
    /// the given permissions.
    fn register(
        full_param_name: &str,
        hal: &mut Hal,
        component_id: i32,
        permissions: ParameterPermissions,
    ) -> (r: Result<Self, ParameterRegisterError>)
        requires
            old(hal).wf(),
        ensures
            final(hal).wf(),
            param_register_errs::<Self::Storage>(
                *old(hal),
                *final(hal),
                err_of(r),
                full_param_name@,
                component_id,
            ),
            r matches Ok(p) ==> p.spec_name() == full_param_name@
                && crate::hal_pin::registered_handle::<Self::Storage>(
                *old(hal),
                *final(hal),
                p.spec_storage(),
            ),
    ;
}

/// The shared body of parameter registration.
fn register_param_raw<S: HalScalar>(
    full_name: &str,
    hal: &mut Hal,
    component_id: i32,
    permissions: ParameterPermissions,
) -> (r: Result<(String, StorageHandle<S>), ParameterRegisterError>)
    requires
        old(hal).wf(),
    ensures
        final(hal).wf(),
        param_register_errs::<S>(*old(hal), *final(hal), err_of(r), full_name@, component_id),
        r matches Ok(t) ==> t.0@ == full_name@ && crate::hal_pin::registered_handle::<S>(
            *old(hal),
            *final(hal),
            t.1,
        ),
{
    if full_name.len() > HAL_NAME_LEN {
        return Err(ParameterRegisterError::NameLength);
    }
    if str_contains_nul(full_name) {
        return Err(ParameterRegisterError::NameConversion);
    }
    let handle = match StorageHandle::<S>::allocate(hal) {
        Err(e) => {
            return Err(ParameterRegisterError::Storage(e));
        },
        Ok(h) => h,
    };
    let ret = hal.register_param(
        full_name,
        S::kind(),
        permissions.code(),
        handle.addr(),
        component_id,
    );
    if ret == -EINVAL {
        Err(ParameterRegisterError::Invalid)
    } else if ret == -EPERM {
        Err(ParameterRegisterError::LockedHal)
    } else if ret == -ENOMEM {
        Err(ParameterRegisterError::Memory)
    } else {
        proof {
            assert(ret == 0);
            S::lemma_decode(ScalarValue::zero_of(S::spec_kind()));
        }
        Ok((full_name.to_owned(), handle))
    }
}

/// A parameter registered with caller-chosen permissions, readable and
/// writable by the component.
#[derive(Debug)]
pub struct Parameter<S: HalScalar> {
    name: String,
    storage: StorageHandle<S>,
}

/// A parameter the external runtime may only read.
#[derive(Debug)]
pub struct ReadonlyParameter<S: HalScalar> {
    name: String,
    storage: StorageHandle<S>,
}

/// A parameter the external runtime may also write.
#[derive(Debug)]
pub struct ReadWriteParameter<S: HalScalar> {
    name: String,
    storage: StorageHandle<S>,
}

impl<S: HalScalar> HalResource for Parameter<S> {
    type Storage = S;

    closed spec fn spec_name(&self) -> Seq<char> {
        self.name@
    }

    closed spec fn spec_storage(&self) -> StorageHandle<S> {
        self.storage
    }

    fn name(&self) -> &str {
        self.name.as_str()
    }

    fn storage(&self) -> StorageHandle<S> {
        self.storage
    }
}

impl<S: HalScalar> HalParameter for Parameter<S> {
    fn register(
        full_param_name: &str,
        hal: &mut Hal,
        component_id: i32,
        permissions: ParameterPermissions,
    ) -> Result<Self, ParameterRegisterError> {
        match register_param_raw::<S>(full_param_name, hal, component_id, permissions) {
            Ok((name, storage)) => Ok(Parameter { name, storage }),
            Err(e) => Err(e),
        }
    }
}

impl<S: HalScalar> Parameter<S> {
    /// Read the parameter's current value.
    pub fn value(&self, hal: &Hal) -> (r: Result<S, StorageError>)
        ensures
            r == self.spec_storage().read_result(*hal),
    {
        self.storage.read(hal)
    }

    /// Overwrite the parameter's value.
    pub fn set_value(&self, hal: &mut Hal, value: S) -> (r: Result<(), StorageError>)
        requires
            old(hal).wf(),
        ensures
            final(hal).wf(),
            self.spec_storage().write_post(*old(hal), *final(hal), value, r),
    {
        self.storage.write(hal, value)
    }
}

impl<S: HalScalar> ResourceRead for Parameter<S> {
    fn value(&self, hal: &Hal) -> Result<S, StorageError> {
        self.storage.read(hal)
    }
}

impl<S: HalScalar> ResourceWrite for Parameter<S> {
    fn set_value(&self, hal: &mut Hal, value: S) -> Result<(), StorageError> {
        self.storage.write(hal, value)
    }
}

impl<S: HalScalar> HalResource for ReadonlyParameter<S> {
    type Storage = S;

    closed spec fn spec_name(&self) -> Seq<char> {
        self.name@
    }

    closed spec fn spec_storage(&self) -> StorageHandle<S> {
        self.storage
    }

    fn name(&self) -> &str {
        self.name.as_str()
    }

    fn storage(&self) -> StorageHandle<S> {
        self.storage
    }
}

impl<S: HalScalar> HalParameter for ReadonlyParameter<S> {
    fn register(
        full_param_name: &str,
        hal: &mut Hal,
        component_id: i32,
        permissions: ParameterPermissions,
    ) -> Result<Self, ParameterRegisterError> {
        match register_param_raw::<S>(full_param_name, hal, component_id, permissions) {
            Ok((name, storage)) => Ok(ReadonlyParameter { name, storage }),
            Err(e) => Err(e),
        }
    }
}

impl<S: HalScalar> ResourceRead for ReadonlyParameter<S> {
    fn value(&self, hal: &Hal) -> Result<S, StorageError> {
        self.storage.read(hal)
    }
}

impl<S: HalScalar> HalResource for ReadWriteParameter<S> {
    type Storage = S;

    closed spec fn spec_name(&self) -> Seq<char> {
        self.name@
    }

    closed spec fn spec_storage(&self) -> StorageHandle<S> {
        self.storage
    }

    fn name(&self) -> &str {
        self.name.as_str()
    }

    fn storage(&self) -> StorageHandle<S> {
        self.storage
    }
}

impl<S: HalScalar> HalParameter for ReadWriteParameter<S> {
    fn register(
        full_param_name: &str,
        hal: &mut Hal,
        component_id: i32,
        permissions: ParameterPermissions,
    ) -> Result<Self, ParameterRegisterError> {
        match register_param_raw::<S>(full_param_name, hal, component_id, permissions) {
            Ok((name, storage)) => Ok(ReadWriteParameter { name, storage }),
            Err(e) => Err(e),
        }
    }
}

impl<S: HalScalar> ResourceRead for ReadWriteParameter<S> {
    fn value(&self, hal: &Hal) -> Result<S, StorageError> {
        self.storage.read(hal)
    }
}

impl<S: HalScalar> ResourceWrite for ReadWriteParameter<S> {
    fn set_value(&self, hal: &mut Hal, value: S) -> Result<(), StorageError> {
        self.storage.write(hal, value)
    }
}

} // verus!
