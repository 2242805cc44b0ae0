//! An explicit model of the external control runtime's side of the HAL
//! boundary: the shared-memory arena and the component table.
//!
//! The external runtime owns a single, process-lifetime arena from which all
//! resource storage is allocated and never individually freed, plus a table
//! of live components.  Its C entry points promise, for every call, either a
//! zero status, a distinguished negative `errno` code, or (for
//! initialisation) a positive component id.  [`Hal`] holds that state as an
//! explicit value and keeps exactly those promises as verified contracts, so
//! the registration and lifecycle logic of this crate is proved against the
//! documented behaviour of the boundary.
//!
//! Memory is modelled as a sequence of 8-byte slots.  A slot is either a
//! pointer cell (holding the address of another slot, with `0` as the null
//! address) or a value cell holding one scalar.  The address of slot `i` is
//! `8 * (i + 1)`, so every address is 8-aligned and nonzero, as the real
//! allocator guarantees; address `0` is reserved as null.

use vstd::prelude::*;

use crate::scalar::{ScalarKind, ScalarValue};
use vstd::string::StringSliceAdditionalSpecFns;

verus! {

/// Longest resource or component name the HAL accepts, in bytes.
pub const HAL_NAME_LEN: usize = 47;

/// The `errno` value the HAL negates to report an invalid argument.
pub const EINVAL: i32 = 22;

/// The `errno` value the HAL negates to report a permission fault: the arena
/// is locked because the component was already marked ready.
pub const EPERM: i32 = 1;

/// The `errno` value the HAL negates to report memory exhaustion.
pub const ENOMEM: i32 = 12;

/// The direction code of a pin read by the component.
pub const HAL_IN: i32 = 16;

/// The direction code of a pin written by the component.
pub const HAL_OUT: i32 = 32;

/// The direction code of a pin both read and written by the component.
pub const HAL_IO: i32 = 48;

/// The permission code of a parameter the external runtime may only read.
pub const HAL_RO: i32 = 64;

/// The permission code of a parameter the external runtime may also write.
pub const HAL_RW: i32 = 192;

/// Each arena slot is this many bytes wide.
pub const SLOT_BYTES: usize = 8;

/// The largest slot count an arena value may be built with, so that slot
/// addresses never overflow a `usize`.
pub const MAX_SLOTS: usize = 0x0fff_ffff;

/// One 8-byte slot of arena memory.
#[derive(Copy, Clone, Debug, PartialEq, Eq, Structural)]
pub enum HalCell {
    /// A pointer cell: the address of another slot, or `0` for null.
    Ptr(usize),
    /// A value cell holding one scalar.
    Val(ScalarValue),
}

/// One row of the component table.
#[derive(Copy, Clone, Debug, PartialEq, Eq, Structural)]
struct CompEntry {
    id: i32,
    ready: bool,
}

/// The external runtime's arena and component table, as an explicit value.
#[derive(Debug)]
pub struct Hal {
    cells: Vec<HalCell>,
    mem_limit: usize,
    comps: Vec<CompEntry>,
    comp_limit: usize,
    next_id: i32,
}

/// True when an address has the shape of a slot address: 8-aligned and not
/// in the reserved first 8 bytes (so never null).
pub open spec fn is_slot_addr(addr: usize) -> bool {
    addr % 8 == 0 && addr >= 8
}

/// The slot index an address refers to.
pub open spec fn slot_index(addr: usize) -> int {
    addr as int / 8 - 1
}

/// The address of the slot with the given index.
pub open spec fn slot_addr(i: int) -> int {
    8 * (i + 1)
}

/// The byte length of a name, as the C side of the boundary measures it.
pub open spec fn name_byte_len(s: &str) -> usize {
    s.spec_bytes().len() as usize
}

/// No two rows of a component table share an id.
spec fn distinct_ids(s: Seq<CompEntry>) -> bool {
    forall|i: int, j: int| 0 <= i < j < s.len() ==> s[i].id != s[j].id
}

/// The component table as a map from id to its readiness flag.
spec fn comps_map(s: Seq<CompEntry>) -> Map<i32, bool>
    decreases s.len(),
{
    if s.len() == 0 {
        Map::empty()
    } else {
        comps_map(s.drop_last()).insert(s.last().id, s.last().ready)
    }
}

proof fn lemma_comps_map_membership(s: Seq<CompEntry>, id: i32)
    ensures
        comps_map(s).dom().contains(id) <==> exists|i: int| 0 <= i < s.len() && s[i].id == id,
    decreases s.len(),
{
    if s.len() > 0 {
        lemma_comps_map_membership(s.drop_last(), id);
        if s.last().id == id {
            assert(s[s.len() - 1].id == id);
        } else if comps_map(s).dom().contains(id) {
            let i = choose|i: int| 0 <= i < s.drop_last().len() && s.drop_last()[i].id == id;
            assert(s[i].id == id);
        } else if exists|i: int| 0 <= i < s.len() && s[i].id == id {
            let i = choose|i: int| 0 <= i < s.len() && s[i].id == id;
            assert(i < s.len() - 1);
            assert(s.drop_last()[i].id == id);
        }
    }
}

proof fn lemma_comps_map_index(s: Seq<CompEntry>, i: int)
    requires
        distinct_ids(s),
        0 <= i < s.len(),
    ensures
        comps_map(s).dom().contains(s[i].id),
        comps_map(s)[s[i].id] == s[i].ready,
    decreases s.len(),
{
    if i == s.len() - 1 {
        assert(s.last() == s[i]);
    } else {
        assert(distinct_ids(s.drop_last())) by {
            assert(forall|a: int, b: int|
                0 <= a < b < s.drop_last().len() ==> s.drop_last()[a] == s[a] && s.drop_last()[b]
                    == s[b]);
        }
        assert(s.drop_last()[i] == s[i]);
        lemma_comps_map_index(s.drop_last(), i);
        assert(s.last().id != s[i].id);
    }
}

proof fn lemma_comps_map_update(s: Seq<CompEntry>, i: int, e: CompEntry)
    requires
        distinct_ids(s),
        0 <= i < s.len(),
        e.id == s[i].id,
    ensures
        comps_map(s.update(i, e)) == comps_map(s).insert(e.id, e.ready),
    decreases s.len(),
{
    let t = s.update(i, e);
    if i == s.len() - 1 {
        assert(t.drop_last() =~= s.drop_last());
        assert(t.last() == e);
        assert(comps_map(t) == comps_map(s.drop_last()).insert(e.id, e.ready));
        assert(comps_map(s).insert(e.id, e.ready) =~= comps_map(s.drop_last()).insert(
            e.id,
            e.ready,
        ));
    } else {
        assert(distinct_ids(s.drop_last())) by {
            assert(forall|a: int, b: int|
                0 <= a < b < s.drop_last().len() ==> s.drop_last()[a] == s[a] && s.drop_last()[b]
                    == s[b]);
        }
        assert(s.drop_last()[i] == s[i]);
        lemma_comps_map_update(s.drop_last(), i, e);
        assert(t.drop_last() =~= s.drop_last().update(i, e));
        assert(t.last() == s.last());
        assert(s.last().id != e.id);
        assert(comps_map(t) == comps_map(s.drop_last()).insert(e.id, e.ready).insert(
            s.last().id,
            s.last().ready,
        ));
        assert(comps_map(s.drop_last()).insert(e.id, e.ready).insert(s.last().id, s.last().ready)
            =~= comps_map(s.drop_last()).insert(s.last().id, s.last().ready).insert(
            e.id,
            e.ready,
        ));
    }
}

proof fn lemma_comps_map_push(s: Seq<CompEntry>, e: CompEntry)
    ensures
        comps_map(s.push(e)) == comps_map(s).insert(e.id, e.ready),
{
    assert(s.push(e).drop_last() =~= s);
    assert(s.push(e).last() == e);
}

proof fn lemma_comps_map_remove(s: Seq<CompEntry>, i: int)
    requires
        distinct_ids(s),
        0 <= i < s.len(),
    ensures
        comps_map(s.remove(i)) == comps_map(s).remove(s[i].id),
    decreases s.len(),
{
    let t = s.remove(i);
    lemma_comps_map_membership(s.drop_last(), s[i].id);
    if i == s.len() - 1 {
        assert(t =~= s.drop_last());
        assert(!comps_map(s.drop_last()).dom().contains(s[i].id));
        assert(comps_map(s.drop_last()).insert(s.last().id, s.last().ready).remove(s[i].id)
            =~= comps_map(s.drop_last()));
    } else {
        assert(distinct_ids(s.drop_last())) by {
            assert(forall|a: int, b: int|
                0 <= a < b < s.drop_last().len() ==> s.drop_last()[a] == s[a] && s.drop_last()[b]
                    == s[b]);
        }
        assert(s.drop_last()[i] == s[i]);
        lemma_comps_map_remove(s.drop_last(), i);
        assert(t.drop_last() =~= s.drop_last().remove(i));
        assert(t.last() == s.last());
        assert(s.last().id != s[i].id);
        assert(comps_map(t) == comps_map(s.drop_last()).remove(s[i].id).insert(
            s.last().id,
            s.last().ready,
        ));
        assert(comps_map(s.drop_last()).remove(s[i].id).insert(s.last().id, s.last().ready)
            =~= comps_map(s.drop_last()).insert(s.last().id, s.last().ready).remove(s[i].id));
    }
}

impl Hal {
    /// The arena memory, slot by slot.
    pub closed spec fn slots(self) -> Seq<HalCell> {
        self.cells@
    }

    /// How many slots the arena can hold in all.
    pub closed spec fn slot_limit(self) -> nat {
        self.mem_limit as nat
    }

    /// The component table: each live component's id, mapped to whether it
    /// has been marked ready.
    pub closed spec fn comp_table(self) -> Map<i32, bool> {
        comps_map(self.comps@)
    }

    /// How many components are live.
    pub closed spec fn comp_count(self) -> nat {
        self.comps@.len()
    }

    /// How many components the table can hold at once.
    pub closed spec fn comp_limit(self) -> nat {
        self.comp_limit as nat
    }

    /// The id the next successful initialisation will return.
    pub closed spec fn next_comp_id(self) -> int {
        self.next_id as int
    }

    /// Internal consistency of the value.
    pub closed spec fn wf(self) -> bool {
        &&& distinct_ids(self.comps@)
        &&& forall|i: int| 0 <= i < self.comps@.len() ==> 0 < #[trigger] self.comps@[i].id < self.next_id
        &&& self.next_id >= 1
        &&& self.mem_limit <= MAX_SLOTS
        &&& self.cells@.len() <= self.mem_limit
    }

    /// The slot an address refers to, if the address has slot shape and the
    /// slot has been allocated.
    pub open spec fn cell_at(self, addr: usize) -> Option<HalCell> {
        if is_slot_addr(addr) && slot_index(addr) < self.slots().len() {
            Some(self.slots()[slot_index(addr)])
        } else {
            None
        }
    }

    /// True when the component is live and not yet ready, so the arena still
    /// accepts registrations against it.
    pub open spec fn accepts_registrations(self, comp_id: i32) -> bool {
        self.comp_table().dom().contains(comp_id) && !self.comp_table()[comp_id]
    }

    /// Build a fresh runtime state with room for `mem_slots` slots of arena
    /// memory and `comp_slots` components.
    pub fn new(mem_slots: usize, comp_slots: usize) -> (h: Hal)
        requires
            mem_slots <= MAX_SLOTS,
        ensures
            h.wf(),
            h.slots() =~= Seq::<HalCell>::empty(),
            h.slot_limit() == mem_slots,
            h.comp_table() =~= Map::<i32, bool>::empty(),
            h.comp_count() == 0,
            h.comp_limit() == comp_slots,
            h.next_comp_id() == 1,
    {
        Hal {
            cells: Vec::new(),
            mem_limit: mem_slots,
            comps: Vec::new(),
            comp_limit: comp_slots,
            next_id: 1,
        }
    }

    /// Find the table row of a component id.
    fn find_comp(&self, comp_id: i32) -> (r: Option<usize>)
        ensures
            match r {
                Some(i) => i < self.comps@.len() && self.comps@[i as int].id == comp_id,
                None => !self.comp_table().dom().contains(comp_id),
            },
    {
        let n = self.comps.len();
        let mut i: usize = 0;
        while i < n
            invariant
                n == self.comps@.len(),
                i <= n,
                forall|j: int| 0 <= j < i ==> self.comps@[j].id != comp_id,
            decreases n - i,
        {
            if self.comps[i].id == comp_id {
                return Some(i);
            }
            i = i + 1;
        }
        proof {
            lemma_comps_map_membership(self.comps@, comp_id);
        }
        None
    }

    /// Look at the slot an address refers to, as the external runtime's own
    /// logic would.
    pub fn peek(&self, addr: usize) -> (r: Option<HalCell>)
        ensures
            r == self.cell_at(addr),
    {
        if addr % 8 == 0 && addr >= 8 {
            let i = addr / 8 - 1;
            proof {
                assert(i as int == slot_index(addr));
            }
            if i < self.cells.len() {
                Some(self.cells[i])
            } else {
                None
            }
        } else {
            None
        }
    }

    /// Allocate `size` bytes of zeroed arena memory: the `malloc` entry
    /// point of the boundary.  Returns the address of a fresh slot, or `0`
    /// when the arena is exhausted.  Arena memory is never freed.
    pub fn malloc(&mut self, size: usize) -> (addr: usize)
        requires
            old(self).wf(),
            1 <= size <= 8,
        ensures
            final(self).wf(),
            final(self).slot_limit() == old(self).slot_limit(),
            final(self).comp_table() == old(self).comp_table(),
            final(self).comp_count() == old(self).comp_count(),
            final(self).comp_limit() == old(self).comp_limit(),
            final(self).next_comp_id() == old(self).next_comp_id(),
            old(self).slots().len() < old(self).slot_limit() ==> ({
                &&& addr == slot_addr(old(self).slots().len() as int)
                &&& addr != 0
                &&& is_slot_addr(addr)
                &&& final(self).slots() =~= old(self).slots().push(HalCell::Ptr(0))
                &&& final(self).cell_at(addr) == Some(HalCell::Ptr(0))
            }),
            old(self).slots().len() >= old(self).slot_limit() ==> addr == 0 && *final(self) == *old(self),
    {
        if self.cells.len() < self.mem_limit {
            let n = self.cells.len();
            self.cells.push(HalCell::Ptr(0));
            let addr = 8 * (n + 1);
            proof {
                lemma_slot_addr_has_slot_shape(n as int);
            }
            addr
        } else {
            0
        }
    }

    /// Initialise a new component under the given name: the `init` entry
    /// point of the boundary.  Returns a strictly positive component id, or
    /// a distinguished negative code.
    pub fn init(&mut self, name: &str) -> (ret: i32)
        requires
            old(self).wf(),
        ensures
            final(self).wf(),
            final(self).slots() == old(self).slots(),
            final(self).slot_limit() == old(self).slot_limit(),
            final(self).comp_limit() == old(self).comp_limit(),
            name_byte_len(name) > HAL_NAME_LEN ==> ret == -EINVAL && *final(self) == *old(self),
            name_byte_len(name) <= HAL_NAME_LEN && (old(self).comp_count() >= old(self).comp_limit()
                || old(self).next_comp_id() == i32::MAX) ==> ret == -ENOMEM && *final(self) == *old(self),
            name_byte_len(name) <= HAL_NAME_LEN && old(self).comp_count() < old(self).comp_limit()
                && old(self).next_comp_id() < i32::MAX ==> ret > 0,
            ret == -EINVAL || ret == -ENOMEM || ret > 0,
            ret > 0 ==> ({
                &&& ret == old(self).next_comp_id()
                &&& final(self).comp_table() == old(self).comp_table().insert(ret, false)
                &&& final(self).accepts_registrations(ret)
                &&& final(self).comp_count() == old(self).comp_count() + 1
                &&& final(self).next_comp_id() == old(self).next_comp_id() + 1
            }),
    {
        if name.len() > HAL_NAME_LEN {
            return -EINVAL;
        }
        if self.comps.len() >= self.comp_limit || self.next_id == i32::MAX {
            return -ENOMEM;
        }
        let id = self.next_id;
        let entry = CompEntry { id, ready: false };
        proof {
            lemma_comps_map_push(self.comps@, entry);
            lemma_comps_map_membership(self.comps@.push(entry), id);
        }
        self.comps.push(entry);
        self.next_id = id + 1;
        id
    }

    /// Mark a component ready: the `ready` entry point of the boundary.
    /// Succeeds exactly once per live component; a second call, or a call
    /// for an unknown id, returns the invalid-argument code.
    pub fn ready(&mut self, comp_id: i32) -> (ret: i32)
        requires
            old(self).wf(),
        ensures
            final(self).wf(),
            final(self).slots() == old(self).slots(),
            final(self).slot_limit() == old(self).slot_limit(),
            final(self).comp_limit() == old(self).comp_limit(),
            final(self).comp_count() == old(self).comp_count(),
            final(self).next_comp_id() == old(self).next_comp_id(),
            if old(self).accepts_registrations(comp_id) {
                ret == 0 && final(self).comp_table() == old(self).comp_table().insert(comp_id, true)
            } else {
                ret == -EINVAL && *final(self) == *old(self)
            },
    {
        match self.find_comp(comp_id) {
            None => {
                proof {
                    lemma_comps_map_membership(self.comps@, comp_id);
                }
                -EINVAL
            },
            Some(i) => {
                proof {
                    lemma_comps_map_index(self.comps@, i as int);
                }
                if self.comps[i].ready {
                    -EINVAL
                } else {
                    let entry = CompEntry { id: comp_id, ready: true };
                    proof {
                        lemma_comps_map_update(self.comps@, i as int, entry);
                    }
                    self.comps[i] = entry;
                    0
                }
            },
        }
    }

    /// Release a component's id from the table: the `exit` entry point of
    /// the boundary.  The arena memory itself stays allocated.
    pub fn exit(&mut self, comp_id: i32) -> (ret: i32)
        requires
            old(self).wf(),
        ensures
            final(self).wf(),
            final(self).slots() == old(self).slots(),
            final(self).slot_limit() == old(self).slot_limit(),
            final(self).comp_limit() == old(self).comp_limit(),
            final(self).next_comp_id() == old(self).next_comp_id(),
            if old(self).comp_table().dom().contains(comp_id) {
                &&& ret == 0
                &&& final(self).comp_table() == old(self).comp_table().remove(comp_id)
                &&& final(self).comp_count() == old(self).comp_count() - 1
            } else {
                &&& ret == -EINVAL
                &&& *final(self) == *old(self)
            },
    {
        match self.find_comp(comp_id) {
            None => {
                proof {
                    lemma_comps_map_membership(self.comps@, comp_id);
                }
                -EINVAL
            },
            Some(i) => {
                proof {
                    lemma_comps_map_index(self.comps@, i as int);
                    lemma_comps_map_remove(self.comps@, i as int);
                }
                self.comps.remove(i);
                0
            },
        }
    }

    /// The status code registration returns, given the state of the runtime
    /// and the arguments: zero for success, or the first failing check's
    /// negative code.
    pub open spec fn spec_register_status(
        self,
        name_len: usize,
        dir_ok: bool,
        storage_addr: usize,
        comp_id: i32,
    ) -> i32 {
        if name_len > HAL_NAME_LEN {
            (-EINVAL) as i32
        } else if !self.comp_table().dom().contains(comp_id) {
            (-EINVAL) as i32
        } else if self.comp_table()[comp_id] {
            (-EPERM) as i32
        } else if !dir_ok {
            (-EINVAL) as i32
        } else if self.cell_at(storage_addr) != Some(HalCell::Ptr(0)) {
            (-EINVAL) as i32
        } else if self.slots().len() >= self.slot_limit() {
            (-ENOMEM) as i32
        } else {
            0
        }
    }

    /// What successful registration does to the arena: a fresh zeroed value
    /// cell of the resource's kind is allocated, and the caller's pointer
    /// slot is pointed at it.  Everything else is untouched.
    pub open spec fn spec_register_post(
        old_h: Hal,
        new_h: Hal,
        ret: i32,
        kind: ScalarKind,
        storage_addr: usize,
    ) -> bool {
        &&& (ret == 0 ==> ({
            let vaddr = slot_addr(old_h.slots().len() as int) as usize;
            &&& new_h.slots() =~= old_h.slots().update(
                slot_index(storage_addr),
                HalCell::Ptr(vaddr),
            ).push(HalCell::Val(ScalarValue::zero_of(kind)))
            &&& new_h.cell_at(storage_addr) == Some(HalCell::Ptr(vaddr))
            &&& new_h.cell_at(vaddr) == Some(HalCell::Val(ScalarValue::zero_of(kind)))
            &&& vaddr != storage_addr
            &&& forall|a: usize|
                a != storage_addr && old_h.cell_at(a) is Some ==> new_h.cell_at(a) == old_h.cell_at(
                    a,
                )
        }))
        &&& (ret != 0 ==> new_h == old_h)
        &&& new_h.comp_table() == old_h.comp_table()
        &&& new_h.comp_count() == old_h.comp_count()
        &&& new_h.comp_limit() == old_h.comp_limit()
        &&& new_h.slot_limit() == old_h.slot_limit()
        &&& new_h.next_comp_id() == old_h.next_comp_id()
    }

    /// The id counter of a well-formed runtime always fits the id type.
    /// The bound is not visible through the closed [`Hal::wf`], so this
    /// lemma exports it; callers need it to complete case splits over the
    /// creation contract.
    pub proof fn lemma_id_bound(self)
        requires
            self.wf(),
        ensures
            1 <= self.next_comp_id() <= i32::MAX,
    {
    }

    /// Readiness is one-way: once a component is marked ready, no
    /// registration against it can succeed.  An otherwise well-formed
    /// request is answered with the locked (permission) status, and the
    /// success status is never returned.
    pub proof fn lemma_ready_locks_registration(
        self,
        name_len: usize,
        dir_ok: bool,
        storage_addr: usize,
        comp_id: i32,
    )
        requires
            self.comp_table().dom().contains(comp_id),
            self.comp_table()[comp_id],
        ensures
            self.spec_register_status(name_len, dir_ok, storage_addr, comp_id) != 0,
            name_len <= HAL_NAME_LEN ==> self.spec_register_status(
                name_len,
                dir_ok,
                storage_addr,
                comp_id,
            ) == (-EPERM) as i32,
    {
    }

    /// Register a pin: the `register_pin` family of boundary entry points.
    /// `dir` is the raw direction code; the valid codes are [`HAL_IN`],
    /// [`HAL_OUT`] and [`HAL_IO`].
    pub fn register_pin(
        &mut self,
        name: &str,
        kind: ScalarKind,
        dir: i32,
        storage_addr: usize,
        comp_id: i32,
    ) -> (ret: i32)
        requires
            old(self).wf(),
        ensures
            final(self).wf(),
            ret == old(self).spec_register_status(
                name_byte_len(name),
                dir == HAL_IN || dir == HAL_OUT || dir == HAL_IO,
                storage_addr,
                comp_id,
            ),
            Hal::spec_register_post(*old(self), *final(self), ret, kind, storage_addr),
    {
        let dir_ok = dir == HAL_IN || dir == HAL_OUT || dir == HAL_IO;
        self.register_resource(name, kind, dir_ok, storage_addr, comp_id)
    }

    /// Register a parameter: the `register_parameter` family of boundary
    /// entry points.  `dir` is the raw permission code; the valid codes are
    /// [`HAL_RO`] and [`HAL_RW`].
    pub fn register_param(
        &mut self,
        name: &str,
        kind: ScalarKind,
        dir: i32,
        storage_addr: usize,
        comp_id: i32,
    ) -> (ret: i32)
        requires
            old(self).wf(),
        ensures
            final(self).wf(),
            ret == old(self).spec_register_status(
                name_byte_len(name),
                dir == HAL_RO || dir == HAL_RW,
                storage_addr,
                comp_id,
            ),
            Hal::spec_register_post(*old(self), *final(self), ret, kind, storage_addr),
    {
        let dir_ok = dir == HAL_RO || dir == HAL_RW;
        self.register_resource(name, kind, dir_ok, storage_addr, comp_id)
    }

    /// The shared core of pin and parameter registration.
    fn register_resource(
        &mut self,
        name: &str,
        kind: ScalarKind,
        dir_ok: bool,
        storage_addr: usize,
        comp_id: i32,
    ) -> (ret: i32)
        requires
            old(self).wf(),
        ensures
            final(self).wf(),
            ret == old(self).spec_register_status(
                name_byte_len(name),
                dir_ok,
                storage_addr,
                comp_id,
            ),
            Hal::spec_register_post(*old(self), *final(self), ret, kind, storage_addr),
    {
        if name.len() > HAL_NAME_LEN {
            return -EINVAL;
        }
        let row = match self.find_comp(comp_id) {
            None => {
                proof {
                    lemma_comps_map_membership(self.comps@, comp_id);
                }
                return -EINVAL;
            },
            Some(i) => i,
        };
        proof {
            lemma_comps_map_index(self.comps@, row as int);
        }
        if self.comps[row].ready {
            return -EPERM;
        }
        if !dir_ok {
            return -EINVAL;
        }
        let cell = self.peek(storage_addr);
        let cell_ok = match cell {
            Some(HalCell::Ptr(p)) => p == 0,
            _ => false,
        };
        if !cell_ok {
            proof {
                assert(self.cell_at(storage_addr) != Some(HalCell::Ptr(0)));
            }
            return -EINVAL;
        }
        if self.cells.len() >= self.mem_limit {
            return -ENOMEM;
        }
        let n = self.cells.len();
        self.cells.push(HalCell::Val(ScalarValue::zero(kind)));
        let vaddr = 8 * (n + 1);
        let slot = storage_addr / 8 - 1;
        proof {
            lemma_slot_addr_has_slot_shape(n as int);
            assert(slot as int == slot_index(storage_addr));
            assert(self.cells@ =~= old(self).cells@.push(
                HalCell::Val(ScalarValue::zero_of(kind)),
            ));
        }
        self.cells[slot] = HalCell::Ptr(vaddr);
        proof {
            assert(self.cells@ =~= old(self).cells@.update(
                slot_index(storage_addr),
                HalCell::Ptr(vaddr),
            ).push(HalCell::Val(ScalarValue::zero_of(kind))));
            lemma_register_frame(*old(self), *self, storage_addr, vaddr, kind);
        }
        0
    }

    /// Overwrite the scalar in a value cell, keeping its kind: what a store
    /// through a checked handle, or the external runtime's own logic, does
    /// to arena memory.  Returns false, changing nothing, unless the address
    /// names a value cell of the same kind.
    pub fn store_value(&mut self, addr: usize, v: ScalarValue) -> (ok: bool)
        requires
            old(self).wf(),
        ensures
            final(self).wf(),
            final(self).comp_table() == old(self).comp_table(),
            final(self).comp_count() == old(self).comp_count(),
            final(self).comp_limit() == old(self).comp_limit(),
            final(self).slot_limit() == old(self).slot_limit(),
            final(self).next_comp_id() == old(self).next_comp_id(),
            if old(self).cell_at(addr) matches Some(HalCell::Val(w)) && w.kind_of() == v.kind_of() {
                &&& ok
                &&& final(self).slots() =~= old(self).slots().update(
                    slot_index(addr),
                    HalCell::Val(v),
                )
                &&& final(self).cell_at(addr) == Some(HalCell::Val(v))
                &&& forall|a: usize|
                    a != addr ==> final(self).cell_at(a) == old(self).cell_at(a)
            } else {
                !ok && *final(self) == *old(self)
            },
    {
        match self.peek(addr) {
            Some(HalCell::Val(w)) => {
                if w.kind() == v.kind() {
                    let i = addr / 8 - 1;
                    proof {
                        assert(i as int == slot_index(addr));
                    }
                    self.cells[i] = HalCell::Val(v);
                    proof {
                        assert forall|a: usize| a != addr implies self.cell_at(a) == old(
                            self,
                        ).cell_at(a) by {
                            if is_slot_addr(a) && is_slot_addr(addr) {
                                lemma_slot_index_injective(a, addr);
                            }
                        }
                    }
                    true
                } else {
                    false
                }
            },
            _ => false,
        }
    }
}

/// True when two runtime states agree on everything but arena memory: the
/// component table, its limits, and the id counter.
pub open spec fn tables_unchanged(h0: Hal, h1: Hal) -> bool {
    &&& h1.comp_table() == h0.comp_table()
    &&& h1.comp_count() == h0.comp_count()
    &&& h1.comp_limit() == h0.comp_limit()
    &&& h1.slot_limit() == h0.slot_limit()
    &&& h1.next_comp_id() == h0.next_comp_id()
}

/// The address the allocator hands out for a resource's pointer slot, given
/// the state of the arena before registration begins.
pub open spec fn spec_ptr_addr(h0: Hal) -> usize {
    slot_addr(h0.slots().len() as int) as usize
}

/// The address of the value cell a successful registration allocates, given
/// the state of the arena before registration begins.
pub open spec fn spec_value_addr(h0: Hal) -> usize {
    slot_addr(h0.slots().len() as int + 1) as usize
}

/// The address of slot `i` is a well-shaped slot address referring back to
/// slot `i`.
proof fn lemma_slot_addr_has_slot_shape(i: int)
    requires
        0 <= i,
        8 * (i + 1) <= usize::MAX,
    ensures
        is_slot_addr((8 * (i + 1)) as usize),
        slot_index((8 * (i + 1)) as usize) == i,
        slot_addr(i) == 8 * (i + 1),
{
    let addr = 8 * (i + 1);
    assert(addr % 8 == 0 && addr / 8 == i + 1) by (nonlinear_arith)
        requires
            0 <= i && addr == 8 * (i + 1),
    ;
}

/// Distinct well-shaped addresses refer to distinct slots.
proof fn lemma_slot_index_injective(a: usize, b: usize)
    requires
        is_slot_addr(a),
        is_slot_addr(b),
        a != b,
    ensures
        slot_index(a) != slot_index(b),
{
    assert(a as int / 8 != b as int / 8) by (nonlinear_arith)
        requires
            a as int % 8 == 0 && b as int % 8 == 0 && a != b,
    ;
}

/// Registration touches only the caller's pointer slot and the fresh value
/// cell.
proof fn lemma_register_frame(
    old_h: Hal,
    new_h: Hal,
    storage_addr: usize,
    vaddr: usize,
    kind: ScalarKind,
)
    requires
        is_slot_addr(storage_addr),
        0 <= slot_index(storage_addr) < old_h.slots().len(),
        vaddr as int == slot_addr(old_h.slots().len() as int),
        8 * (old_h.slots().len() as int + 1) <= usize::MAX,
        new_h.slots() =~= old_h.slots().update(
            slot_index(storage_addr),
            HalCell::Ptr(vaddr),
        ).push(HalCell::Val(ScalarValue::zero_of(kind))),
    ensures
        new_h.cell_at(storage_addr) == Some(HalCell::Ptr(vaddr)),
        new_h.cell_at(vaddr) == Some(HalCell::Val(ScalarValue::zero_of(kind))),
        vaddr != storage_addr,
        forall|a: usize|
            a != storage_addr && old_h.cell_at(a) is Some ==> new_h.cell_at(a) == old_h.cell_at(a),
{
    lemma_slot_addr_has_slot_shape(old_h.slots().len() as int);
    assert forall|a: usize|
        a != storage_addr && old_h.cell_at(a) is Some implies new_h.cell_at(a) == old_h.cell_at(
        a,
    ) by {
        lemma_slot_index_injective(a, storage_addr);
    }
}

} // verus!
