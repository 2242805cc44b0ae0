//! HAL pins: input, output and bidirectional values exchanged with the
//! external runtime.
//!
//! Registration validates the full name, allocates backing storage from the
//! arena, invokes the external registration entry point, and maps its
//! status code onto the typed error taxonomy.  A registration fault aborts
//! with no pin value; there is no unregister operation, so a consumed arena
//! slot stays consumed for the life of the arena.

use vstd::prelude::*;

use crate::error::{PinRegisterError, StorageError};
use crate::hal::{
    spec_ptr_addr, spec_value_addr, tables_unchanged, Hal, HalCell, EINVAL, ENOMEM, EPERM,
    HAL_NAME_LEN,
};
use crate::hal_resource::{HalResource, ResourceRead, ResourceWrite};
use crate::names::{has_nul_byte, str_contains_nul};
use crate::scalar::{HalScalar, ScalarValue};
use crate::storage::StorageHandle;
use vstd::string::StringSliceAdditionalSpecFns;
use vstd::utf8::encode_utf8;

verus! {

/// The direction of a pin, from the component's point of view.
#[derive(Copy, Clone, Debug, PartialEq, Eq, Structural)]
pub enum PinDirection {
    /// The pin is an input to the component.
    In,
    /// The pin is an output from the component.
    Out,
    /// The pin can be both read and written by the component.
    Bidirectional,
}

impl PinDirection {
    /// The raw direction code the external registration call takes.
    pub open spec fn spec_code(self) -> i32 {
        match self {
            PinDirection::In => crate::hal::HAL_IN,
            PinDirection::Out => crate::hal::HAL_OUT,
            PinDirection::Bidirectional => crate::hal::HAL_IO,
        }
    }

    /// Return the raw direction code the external registration call takes.
    pub fn code(self) -> (c: i32)
        ensures
            c == self.spec_code(),
            c == crate::hal::HAL_IN || c == crate::hal::HAL_OUT || c == crate::hal::HAL_IO,
    {
        match self {
            PinDirection::In => crate::hal::HAL_IN,
            PinDirection::Out => crate::hal::HAL_OUT,
            PinDirection::Bidirectional => crate::hal::HAL_IO,
        }
    }
}

/// Which fault, if any, pin registration reports, and what each outcome
/// does to the runtime state.
///
/// The checks happen in this order: full-name length, C-string
/// representability, storage allocation, then the external registration
/// call with its invalid / locked / out-of-memory statuses.  Failures up to
/// and including allocation leave the arena untouched; a failure of the
/// external call itself still consumes the allocated pointer slot, since
/// arena memory is never freed.  On success a fresh pointer slot and a
/// fresh zeroed value cell of the pin's kind are appended, and every
/// previously allocated cell is untouched.
pub open spec fn pin_register_errs<S: HalScalar>(
    h0: Hal,
    h1: Hal,
    r_err: Option<PinRegisterError>,
    full_name: Seq<char>,
    comp_id: i32,
) -> bool {
    let bytes = encode_utf8(full_name);
    let len_ok = bytes.len() as usize <= HAL_NAME_LEN;
    let nul_ok = !has_nul_byte(bytes);
    &&& tables_unchanged(h0, h1)
    &&& (!len_ok ==> r_err == Some(PinRegisterError::NameLength) && h1 == h0)
    &&& (len_ok && !nul_ok ==> r_err == Some(PinRegisterError::NameConversion) && h1 == h0)
    &&& (len_ok && nul_ok && h0.slots().len() >= h0.slot_limit() ==> r_err == Some(
        PinRegisterError::Storage(StorageError::Null),
    ) && h1 == h0)
    &&& (len_ok && nul_ok && h0.slots().len() < h0.slot_limit() ==> ({
        let alloc_only = h1.slots() =~= h0.slots().push(HalCell::Ptr(0));
        &&& (!h0.comp_table().dom().contains(comp_id) ==> r_err == Some(
            PinRegisterError::Invalid,
        ) && alloc_only)
        &&& (h0.comp_table().dom().contains(comp_id) && h0.comp_table()[comp_id] ==> r_err
            == Some(PinRegisterError::LockedHal) && alloc_only)
        &&& (h0.accepts_registrations(comp_id) && h0.slots().len() + 1 >= h0.slot_limit()
            ==> r_err == Some(PinRegisterError::Memory) && alloc_only)
        &&& (h0.accepts_registrations(comp_id) && h0.slots().len() + 1 < h0.slot_limit() ==> ({
            &&& r_err is None
            &&& h1.slots() =~= h0.slots().push(HalCell::Ptr(spec_value_addr(h0))).push(
                HalCell::Val(ScalarValue::zero_of(S::spec_kind())),
            )
            &&& forall|a: usize| h0.cell_at(a) is Some ==> h1.cell_at(a) == h0.cell_at(a)
        }))
    }))
}

/// The storage handle a successful registration hands back: it points at
/// the freshly allocated pointer slot, which is bound to the fresh value
/// cell, and reading through it yields the zero value of the scalar type.
pub open spec fn registered_handle<S: HalScalar>(
    h0: Hal,
    h1: Hal,
    handle: StorageHandle<S>,
) -> bool {
    &&& handle.spec_addr() == spec_ptr_addr(h0)
    &&& handle.target(h1) == Some(spec_value_addr(h0))
    &&& handle.bound_in(h1)
    &&& handle.read_result(h1) == Ok::<S, StorageError>(
        S::spec_decode(ScalarValue::zero_of(S::spec_kind())).unwrap(),
    )
}

/// The error projection of a registration result.
pub open spec fn err_of<T, E>(r: Result<T, E>) -> Option<E> {
    match r {
        Ok(_) => None,
        Err(e) => Some(e),
    }
}

/// A HAL pin of some direction.
pub trait HalPin: HalResource {
    /// The direction pins of this type are registered with.
    spec fn spec_direction() -> PinDirection;

    /// Return the direction pins of this type are registered with.
    fn direction() -> (d: PinDirection)
        ensures
            d == Self::spec_direction(),
    ;

    /// Register a pin under its full name against a component.
    fn register(full_pin_name: &str, hal: &mut Hal, component_id: i32) -> (r: Result<
        Self,
        PinRegisterError,
    >)
        requires
            old(hal).wf(),
        ensures
            final(hal).wf(),
            pin_register_errs::<Self::Storage>(
                *old(hal),
                *final(hal),
                err_of(r),
                full_pin_name@,
                component_id,
            ),
            r matches Ok(pin) ==> pin.spec_name() == full_pin_name@ && registered_handle::<
                Self::Storage,
            >(*old(hal), *final(hal), pin.spec_storage()),
    ;
}

/// The shared body of pin registration: validate the name, allocate
/// storage, invoke the external registration entry point, and map its
/// status.
fn register_pin_raw<S: HalScalar>(
    full_name: &str,
    hal: &mut Hal,
    component_id: i32,
    dir: PinDirection,
) -> (r: Result<(String, StorageHandle<S>), PinRegisterError>)
    requires
        old(hal).wf(),
    ensures
        final(hal).wf(),
        pin_register_errs::<S>(*old(hal), *final(hal), err_of(r), full_name@, component_id),
        r matches Ok(t) ==> t.0@ == full_name@ && registered_handle::<S>(
            *old(hal),
            *final(hal),
            t.1,
        ),
{
    if full_name.len() > HAL_NAME_LEN {
        return Err(PinRegisterError::NameLength);
    }
    if str_contains_nul(full_name) {
        return Err(PinRegisterError::NameConversion);
    }
    let handle = match StorageHandle::<S>::allocate(hal) {
        Err(e) => {
            return Err(PinRegisterError::Storage(e));
        },
        Ok(h) => h,
    };
    let ret = hal.register_pin(full_name, S::kind(), dir.code(), handle.addr(), component_id);
    if ret == -EINVAL {
        Err(PinRegisterError::Invalid)
    } else if ret == -EPERM {
        Err(PinRegisterError::LockedHal)
    } else if ret == -ENOMEM {
        Err(PinRegisterError::Memory)
    } else {
        proof {
            assert(ret == 0);
            S::lemma_decode(ScalarValue::zero_of(S::spec_kind()));
        }
        Ok((full_name.to_owned(), handle))
    }
}

/// An input pin: a value the component reads from the external runtime.
#[derive(Debug)]
pub struct InputPin<S: HalScalar> {
    name: String,
    storage: StorageHandle<S>,
}

/// An output pin: a value the component writes for the external runtime.
#[derive(Debug)]
pub struct OutputPin<S: HalScalar> {
    name: String,
    storage: StorageHandle<S>,
}

/// A bidirectional pin: a value the component both reads and writes.
#[derive(Debug)]
pub struct BidirectionalPin<S: HalScalar> {
    name: String,
    storage: StorageHandle<S>,
}

impl<S: HalScalar> HalResource for InputPin<S> {
    type Storage = S;

    closed spec fn spec_name(&self) -> Seq<char> {
        self.name@
    }

    closed spec fn spec_storage(&self) -> StorageHandle<S> {
        self.storage
    }

    fn name(&self) -> &str {
        self.name.as_str()
    }

    fn storage(&self) -> StorageHandle<S> {
        self.storage
    }
}

impl<S: HalScalar> HalPin for InputPin<S> {
    closed spec fn spec_direction() -> PinDirection {
        PinDirection::In
    }

    fn direction() -> PinDirection {
        PinDirection::In
    }

    fn register(full_pin_name: &str, hal: &mut Hal, component_id: i32) -> Result<
        Self,
        PinRegisterError,
    > {
        match register_pin_raw::<S>(full_pin_name, hal, component_id, PinDirection::In) {
            Ok((name, storage)) => Ok(InputPin { name, storage }),
            Err(e) => Err(e),
        }
    }
}

impl<S: HalScalar> ResourceRead for InputPin<S> {
    fn value(&self, hal: &Hal) -> Result<S, StorageError> {
        self.storage.read(hal)
    }
}

impl<S: HalScalar> InputPin<S> {
    /// Register an input pin under its full name against a component.
    pub fn new(name: String, hal: &mut Hal, component_id: i32) -> (r: Result<
        Self,
        PinRegisterError,
    >)
        requires
            old(hal).wf(),
        ensures
            final(hal).wf(),
            pin_register_errs::<S>(*old(hal), *final(hal), err_of(r), name@, component_id),
            r matches Ok(pin) ==> pin.spec_name() == name@ && registered_handle::<S>(
                *old(hal),
                *final(hal),
                pin.spec_storage(),
            ),
    {
        Self::register(name.as_str(), hal, component_id)
    }

    /// Read the pin's current value.
    pub fn value(&self, hal: &Hal) -> (r: Result<S, StorageError>)
        ensures
            r == self.spec_storage().read_result(*hal),
    {
        self.storage.read(hal)
    }
}

impl<S: HalScalar> HalResource for OutputPin<S> {
    type Storage = S;

    closed spec fn spec_name(&self) -> Seq<char> {
        self.name@
    }

    closed spec fn spec_storage(&self) -> StorageHandle<S> {
        self.storage
    }

    fn name(&self) -> &str {
        self.name.as_str()
    }

    fn storage(&self) -> StorageHandle<S> {
        self.storage
    }
}

impl<S: HalScalar> HalPin for OutputPin<S> {
    closed spec fn spec_direction() -> PinDirection {
        PinDirection::Out
    }

    fn direction() -> PinDirection {
        PinDirection::Out
    }

    fn register(full_pin_name: &str, hal: &mut Hal, component_id: i32) -> Result<
        Self,
        PinRegisterError,
    > {
        match register_pin_raw::<S>(full_pin_name, hal, component_id, PinDirection::Out) {
            Ok((name, storage)) => Ok(OutputPin { name, storage }),
            Err(e) => Err(e),
        }
    }
}

impl<S: HalScalar> ResourceWrite for OutputPin<S> {
    fn set_value(&self, hal: &mut Hal, value: S) -> Result<(), StorageError> {
        self.storage.write(hal, value)
    }
}

impl<S: HalScalar> OutputPin<S> {
    /// Register an output pin under its full name against a component.
    pub fn new(name: String, hal: &mut Hal, component_id: i32) -> (r: Result<
        Self,
        PinRegisterError,
    >)
        requires
            old(hal).wf(),
        ensures
            final(hal).wf(),
            pin_register_errs::<S>(*old(hal), *final(hal), err_of(r), name@, component_id),
            r matches Ok(pin) ==> pin.spec_name() == name@ && registered_handle::<S>(
                *old(hal),
                *final(hal),
                pin.spec_storage(),
            ),
    {
        Self::register(name.as_str(), hal, component_id)
    }

    /// Overwrite the pin's value.
    pub fn set_value(&self, hal: &mut Hal, value: S) -> (r: Result<(), StorageError>)
        requires
            old(hal).wf(),
        ensures
            final(hal).wf(),
            self.spec_storage().write_post(*old(hal), *final(hal), value, r),
    {
        self.storage.write(hal, value)
    }
}

impl<S: HalScalar> HalResource for BidirectionalPin<S> {
    type Storage = S;

    closed spec fn spec_name(&self) -> Seq<char> {
        self.name@
    }

    closed spec fn spec_storage(&self) -> StorageHandle<S> {
        self.storage
    }

    fn name(&self) -> &str {
        self.name.as_str()
    }

    fn storage(&self) -> StorageHandle<S> {
        self.storage
    }
}

impl<S: HalScalar> HalPin for BidirectionalPin<S> {
    closed spec fn spec_direction() -> PinDirection {
        PinDirection::Bidirectional
    }

    fn direction() -> PinDirection {
        PinDirection::Bidirectional
    }

    fn register(full_pin_name: &str, hal: &mut Hal, component_id: i32) -> Result<
        Self,
        PinRegisterError,
    > {
        match register_pin_raw::<S>(full_pin_name, hal, component_id, PinDirection::Bidirectional) {
            Ok((name, storage)) => Ok(BidirectionalPin { name, storage }),
            Err(e) => Err(e),
        }
    }
}

impl<S: HalScalar> ResourceRead for BidirectionalPin<S> {
    fn value(&self, hal: &Hal) -> Result<S, StorageError> {
        self.storage.read(hal)
    }
}

impl<S: HalScalar> ResourceWrite for BidirectionalPin<S> {
    fn set_value(&self, hal: &mut Hal, value: S) -> Result<(), StorageError> {
        self.storage.write(hal, value)
    }
}

/// A pin the component may read.
pub trait PinRead: ResourceRead {

}

/// A pin the component may write.
pub trait PinWrite: ResourceWrite {

}

impl<S: HalScalar> PinRead for InputPin<S> {

}

impl<S: HalScalar> PinWrite for OutputPin<S> {

}

impl<S: HalScalar> PinRead for BidirectionalPin<S> {

}

impl<S: HalScalar> PinWrite for BidirectionalPin<S> {

}

} // verus!
