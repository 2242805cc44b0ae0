//! The common face of every registered resource: a name, a typed storage
//! handle, and — direction permitting — checked read and write access.

use vstd::prelude::*;

use crate::error::StorageError;
use crate::hal::Hal;
use crate::scalar::HalScalar;
use crate::storage::StorageHandle;

verus! {

/// A registered HAL resource: a pin or a parameter.
///
/// Every resource carries the full (prefixed) name it was registered under
/// and the checked handle to its slot of arena memory.
pub trait HalResource: Sized {
    /// The scalar type backing the resource.
    type Storage: HalScalar;

    /// The resource's full name.
    spec fn spec_name(&self) -> Seq<char>;

    /// The resource's storage handle.
    spec fn spec_storage(&self) -> StorageHandle<Self::Storage>;

    /// Return the resource's full name.
    fn name(&self) -> (n: &str)
        ensures
            n@ == self.spec_name(),
    ;

    /// Return the resource's storage handle.
    fn storage(&self) -> (h: StorageHandle<Self::Storage>)
        ensures
            h == self.spec_storage(),
    ;
}

/// A resource the component may read.
pub trait ResourceRead: HalResource {
    /// Read the resource's current value from arena memory.
    fn value(&self, hal: &Hal) -> (r: Result<Self::Storage, StorageError>)
        ensures
            r == self.spec_storage().read_result(*hal),
    ;
}

/// A resource the component may write.
pub trait ResourceWrite: HalResource {
    /// Overwrite the resource's value in arena memory.
    fn set_value(&self, hal: &mut Hal, value: Self::Storage) -> (r: Result<(), StorageError>)
        requires
            old(hal).wf(),
        ensures
            final(hal).wf(),
            self.spec_storage().write_post(*old(hal), *final(hal), value, r),
    ;
}

} // verus!
