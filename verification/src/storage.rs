//! Checked, typed access to one scalar slot of arena memory.
//!
//! The arena allocator hands out the address of a pointer slot; the slot in
//! turn is pointed at the resource's value cell when the resource is
//! registered.  A [`StorageHandle`] carries that outer address and checks,
//! on every access, that the inner pointer is non-null and that the cell it
//! names really holds a scalar of the handle's type — a violation yields a
//! local [`StorageError`] instead of an invalid access.

use vstd::prelude::*;

use crate::error::StorageError;
use crate::hal::{slot_addr, slot_index, Hal, HalCell, SLOT_BYTES};
use crate::scalar::{HalScalar, ScalarKind};
use core::marker::PhantomData;

verus! {

/// The natural alignment of a scalar kind, in bytes.
pub open spec fn spec_kind_align(k: ScalarKind) -> usize {
    match k {
        ScalarKind::Float => 8,
        ScalarKind::S32 => 4,
        ScalarKind::U32 => 4,
        ScalarKind::Bit => 1,
    }
}

/// Return the natural alignment of a scalar kind, in bytes.
pub fn kind_align(k: ScalarKind) -> (a: usize)
    ensures
        a == spec_kind_align(k),
        1 <= a <= 8,
{
    match k {
        ScalarKind::Float => 8,
        ScalarKind::S32 => 4,
        ScalarKind::U32 => 4,
        ScalarKind::Bit => 1,
    }
}

/// The verdict on an address the allocator returned: null is rejected, and
/// so is an address that misses the natural alignment of the scalar the
/// storage is for — a defensive check against an allocator that does not
/// guarantee alignment.
pub open spec fn spec_check_allocation(addr: usize, align: usize) -> Result<(), StorageError>
    recommends
        align >= 1,
{
    if addr == 0 {
        Err(StorageError::Null)
    } else if addr % align != 0 {
        Err(StorageError::Alignment)
    } else {
        Ok(())
    }
}

/// Judge an address the allocator returned, against the natural alignment
/// of the scalar the storage is for.
pub fn check_allocation(addr: usize, align: usize) -> (r: Result<(), StorageError>)
    requires
        align >= 1,
    ensures
        r == spec_check_allocation(addr, align),
{
    if addr == 0 {
        Err(StorageError::Null)
    } else if addr % align != 0 {
        Err(StorageError::Alignment)
    } else {
        Ok(())
    }
}

/// A checked pointer to the storage of one scalar of type `S` in arena
/// memory.
///
/// The handle owns nothing: the bytes it points at belong to the arena,
/// which outlives every component and never frees them individually.
#[derive(Debug)]
pub struct StorageHandle<S: HalScalar> {
    addr: usize,
    _storage: PhantomData<S>,
}

impl<S: HalScalar> Clone for StorageHandle<S> {
    fn clone(&self) -> (r: Self)
        ensures
            r == *self,
    {
        StorageHandle { addr: self.addr, _storage: PhantomData }
    }
}

impl<S: HalScalar> Copy for StorageHandle<S> {}

impl<S: HalScalar> StorageHandle<S> {
    /// The address of the handle's pointer slot.
    pub closed spec fn spec_addr(self) -> usize {
        self.addr
    }

    /// Return the address of the handle's pointer slot.
    pub fn addr(&self) -> (a: usize)
        ensures
            a == self.spec_addr(),
    {
        self.addr
    }

    /// The inner pointer: what the handle's pointer slot holds, if the slot
    /// is allocated and is a pointer cell.
    pub open spec fn target(self, hal: Hal) -> Option<usize> {
        match hal.cell_at(self.spec_addr()) {
            Some(HalCell::Ptr(p)) => Some(p),
            _ => None,
        }
    }

    /// True when the handle is bound: its inner pointer is non-null and
    /// names a value cell of the handle's own kind.  Successful resource
    /// registration leaves the handle in this state.
    pub open spec fn bound_in(self, hal: Hal) -> bool {
        match self.target(hal) {
            Some(p) => p != 0 && match hal.cell_at(p) {
                Some(HalCell::Val(v)) => v.kind_of() == S::spec_kind(),
                _ => false,
            },
            None => false,
        }
    }

    /// What reading through the handle yields: the typed value behind the
    /// two-step dereference, or the null-storage fault whenever any link of
    /// the chain — allocation, inner pointer, cell shape, scalar kind — is
    /// broken.
    pub open spec fn read_result(self, hal: Hal) -> Result<S, StorageError> {
        match self.target(hal) {
            Some(p) => if p == 0 {
                Err(StorageError::Null)
            } else {
                match hal.cell_at(p) {
                    Some(HalCell::Val(v)) => match S::spec_decode(v) {
                        Some(s) => Ok(s),
                        None => Err(StorageError::Null),
                    },
                    _ => Err(StorageError::Null),
                }
            },
            None => Err(StorageError::Null),
        }
    }

    /// What writing `value` through the handle does: on a bound handle the
    /// target cell now holds `value`, nothing else moves, and a read gives
    /// `value` back; on any other handle nothing moves and the null-storage
    /// fault is returned.
    pub open spec fn write_post(self, h0: Hal, h1: Hal, value: S, r: Result<(), StorageError>) -> bool {
        &&& (self.bound_in(h0) ==> ({
            let p = self.target(h0).unwrap();
            &&& r == Ok::<(), StorageError>(())
            &&& h1.slots() =~= h0.slots().update(slot_index(p), HalCell::Val(value.spec_encode()))
            &&& forall|a: usize| a != p ==> h1.cell_at(a) == h0.cell_at(a)
            &&& self.bound_in(h1)
            &&& self.read_result(h1) == Ok::<S, StorageError>(value)
        }))
        &&& (!self.bound_in(h0) ==> r == Err::<(), StorageError>(StorageError::Null) && h1 == h0)
        &&& h1.comp_table() == h0.comp_table()
        &&& h1.comp_count() == h0.comp_count()
        &&& h1.comp_limit() == h0.comp_limit()
        &&& h1.slot_limit() == h0.slot_limit()
        &&& h1.next_comp_id() == h0.next_comp_id()
    }

    /// Request storage for one scalar of type `S` from the arena allocator.
    ///
    /// Fails with [`StorageError::Null`] if the allocator returns the null
    /// address (the arena is exhausted), and with
    /// [`StorageError::Alignment`] if the returned address misses the
    /// scalar's natural alignment.  On success the handle's pointer slot is
    /// allocated, zeroed and not yet bound, so a read through the fresh
    /// handle reports the null-storage fault until registration binds it.
    pub fn allocate(hal: &mut Hal) -> (r: Result<StorageHandle<S>, StorageError>)
        requires
            old(hal).wf(),
        ensures
            final(hal).wf(),
            final(hal).comp_table() == old(hal).comp_table(),
            final(hal).comp_count() == old(hal).comp_count(),
            final(hal).comp_limit() == old(hal).comp_limit(),
            final(hal).slot_limit() == old(hal).slot_limit(),
            final(hal).next_comp_id() == old(hal).next_comp_id(),
            old(hal).slots().len() >= old(hal).slot_limit() ==> r == Err::<StorageHandle<S>, StorageError>(
                StorageError::Null,
            ) && *final(hal) == *old(hal),
            old(hal).slots().len() < old(hal).slot_limit() ==> ({
                &&& final(hal).slots() =~= old(hal).slots().push(HalCell::Ptr(0))
                &&& r matches Ok(h) && h.spec_addr() == slot_addr(old(hal).slots().len() as int)
                    && final(hal).cell_at(h.spec_addr()) == Some(HalCell::Ptr(0)) && h.read_result(
                    *final(hal),
                ) == Err::<S, StorageError>(StorageError::Null) && !h.bound_in(*final(hal))
            }),
    {
        let addr = hal.malloc(SLOT_BYTES);
        let align = kind_align(S::kind());
        proof {
            if addr != 0 {
                lemma_slot_aligned(addr, spec_kind_align(S::spec_kind()));
            }
        }
        match check_allocation(addr, align) {
            Err(e) => Err(e),
            Ok(()) => Ok(StorageHandle { addr, _storage: PhantomData }),
        }
    }

    /// Read the scalar the handle points at.
    ///
    /// Fails with [`StorageError::Null`] if the handle's inner pointer is
    /// observed null — or if any other link of the dereference chain is
    /// broken, which a correctly registered resource never exhibits.
    pub fn read(&self, hal: &Hal) -> (r: Result<S, StorageError>)
        ensures
            r == self.read_result(*hal),
    {
        match hal.peek(self.addr) {
            Some(HalCell::Ptr(p)) => {
                if p == 0 {
                    Err(StorageError::Null)
                } else {
                    match hal.peek(p) {
                        Some(HalCell::Val(v)) => match S::decode(v) {
                            Some(s) => Ok(s),
                            None => Err(StorageError::Null),
                        },
                        _ => Err(StorageError::Null),
                    }
                }
            },
            _ => Err(StorageError::Null),
        }
    }

    /// Overwrite the scalar the handle points at.
    ///
    /// Same failure mode as [`StorageHandle::read`]: a broken dereference
    /// chain yields [`StorageError::Null`] and changes nothing.
    pub fn write(&self, hal: &mut Hal, value: S) -> (r: Result<(), StorageError>)
        requires
            old(hal).wf(),
        ensures
            final(hal).wf(),
            self.write_post(*old(hal), *final(hal), value, r),
    {
        match hal.peek(self.addr) {
            Some(HalCell::Ptr(p)) => {
                if p == 0 {
                    Err(StorageError::Null)
                } else {
                    proof {
                        value.lemma_roundtrip();
                        S::lemma_decode(value.spec_encode());
                    }
                    let ok = hal.store_value(p, value.encode());
                    if ok {
                        Ok(())
                    } else {
                        Err(StorageError::Null)
                    }
                }
            },
            _ => Err(StorageError::Null),
        }
    }
}

/// A slot address satisfies every scalar alignment, since slots are 8-byte
/// aligned and scalar alignments divide 8.
proof fn lemma_slot_aligned(addr: usize, align: usize)
    requires
        addr % 8 == 0,
        align == 1 || align == 4 || align == 8,
    ensures
        addr % align == 0,
{
    assert(addr % 8 == 0 ==> addr % 4 == 0 && addr % 1 == 0) by (bit_vector);
}

} // verus!
