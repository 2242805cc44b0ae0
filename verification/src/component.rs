//! The component lifecycle.
//!
//! A component is created under a unique name, obtaining a strictly
//! positive id from the external runtime; user code then registers its
//! resources against that id; readiness locks the arena against further
//! registration and arms the shutdown watcher; the running phase polls the
//! watcher; teardown releases resources, deregisters the watcher and only
//! then returns the id to the runtime's table.

use vstd::prelude::*;

use crate::error::{map_init_code, map_ready_code, ComponentInitError};
use crate::hal::{Hal, HAL_NAME_LEN};
use crate::names::{has_nul_byte, str_contains_nul};
use crate::shutdown::ShutdownWatcher;
use crate::{RegisterResources, Resources};
use vstd::string::StringSliceAdditionalSpecFns;
use vstd::utf8::encode_utf8;

verus! {

/// Which fault, if any, component creation reports, and what each outcome
/// does to the runtime state.
///
/// The name is validated — length, then C-string representability — before
/// any external call is made, so a name fault leaves the runtime untouched.
/// Otherwise the external initialisation call either exhausts its table or
/// hands out the next strictly positive id.
pub open spec fn component_create_post(
    h0: Hal,
    h1: Hal,
    r: Result<i32, ComponentInitError>,
    name: Seq<char>,
) -> bool {
    let bytes = encode_utf8(name);
    let len_ok = bytes.len() as usize <= HAL_NAME_LEN;
    let nul_ok = !has_nul_byte(bytes);
    &&& h1.slots() == h0.slots()
    &&& h1.slot_limit() == h0.slot_limit()
    &&& h1.comp_limit() == h0.comp_limit()
    &&& (!len_ok ==> (r matches Err(ComponentInitError::NameLength)) && h1 == h0)
    &&& (len_ok && !nul_ok ==> (r matches Err(ComponentInitError::InvalidName)) && h1 == h0)
    &&& (len_ok && nul_ok && (h0.comp_count() >= h0.comp_limit() || h0.next_comp_id()
        == i32::MAX) ==> (r matches Err(ComponentInitError::Memory)) && h1 == h0)
    &&& (len_ok && nul_ok && h0.comp_count() < h0.comp_limit() && h0.next_comp_id() < i32::MAX
        ==> r is Ok)
    &&& (r matches Ok(id) ==> ({
        &&& id == h0.next_comp_id()
        &&& id > 0
        &&& h1.comp_table() == h0.comp_table().insert(id, false)
        &&& h1.accepts_registrations(id)
        &&& h1.comp_count() == h0.comp_count() + 1
        &&& h1.next_comp_id() == h0.next_comp_id() + 1
    }))
    &&& ((r matches Err(ComponentInitError::NameLength)) ==> !len_ok)
    &&& ((r matches Err(ComponentInitError::InvalidName)) ==> len_ok && !nul_ok)
    &&& ((r matches Err(ComponentInitError::Memory)) ==> len_ok && nul_ok && (h0.comp_count()
        >= h0.comp_limit() || h0.next_comp_id() == i32::MAX))
    &&& (r is Err ==> ((r matches Err(ComponentInitError::NameLength)) || (r matches Err(
        ComponentInitError::InvalidName,
    )) || (r matches Err(ComponentInitError::Memory))))
}

/// Create a component: validate the name, invoke the external
/// initialisation entry point, and map its status.
///
/// The length check comes first, so an over-long name provably never
/// reaches the external call.
pub(crate) fn create_component(name: &str, hal: &mut Hal) -> (r: Result<i32, ComponentInitError>)
    requires
        old(hal).wf(),
    ensures
        final(hal).wf(),
        component_create_post(*old(hal), *final(hal), r, name@),
{
    proof {
        hal.lemma_id_bound();
    }
    if name.len() > HAL_NAME_LEN {
        return Err(ComponentInitError::NameLength);
    }
    if str_contains_nul(name) {
        return Err(ComponentInitError::InvalidName);
    }
    let code = hal.init(name);
    map_init_code(code)
}

/// A live HAL component: its name, its runtime-assigned id, its armed
/// shutdown watcher, and the resources its registration phase produced.
#[derive(Debug)]
pub struct HalComponent<R> {
    name: String,
    id: i32,
    watcher: ShutdownWatcher,
    resources: Option<R>,
}

impl<R> HalComponent<R> {
    /// The component's name.
    pub closed spec fn spec_name(&self) -> Seq<char> {
        self.name@
    }

    /// The id the external runtime assigned at creation.
    pub closed spec fn spec_id(&self) -> i32 {
        self.id
    }

    /// The resource bundle, if the component still holds it.
    pub closed spec fn spec_resources(&self) -> Option<R> {
        self.resources
    }

    /// A live component has a strictly positive id and still holds its
    /// resources.
    pub open spec fn wf(&self) -> bool {
        self.spec_id() > 0 && self.spec_resources() is Some
    }

    /// Return the id the external runtime assigned to this component.
    pub fn id(&self) -> (id: i32)
        ensures
            id == self.spec_id(),
    {
        self.id
    }

    /// Return the component's name.
    pub fn name(&self) -> (n: &str)
        ensures
            n@ == self.spec_name(),
    {
        self.name.as_str()
    }

    /// Return a reference to the component's resources.
    pub fn resources(&self) -> (r: &R)
        requires
            self.wf(),
        ensures
            Some(*r) == self.spec_resources(),
    {
        self.resources.as_ref().unwrap()
    }

    /// Poll whether the component was signalled to shut down, draining the
    /// pending termination signals.  Non-blocking; the judgement over the
    /// drained signal numbers is [`crate::shutdown::any_termination`].
    pub fn should_exit(&mut self) -> (b: bool)
        ensures
            final(self).spec_name() == old(self).spec_name(),
            final(self).spec_id() == old(self).spec_id(),
            final(self).spec_resources() == old(self).spec_resources(),
            final(self).wf() == old(self).wf(),
    {
        self.watcher.should_exit()
    }

    /// Tear the component down, in the order the arena requires: the
    /// resource handles are released first, then the signal watcher is
    /// deregistered, and only then is the component's id returned to the
    /// external runtime's table.  The id release runs whatever state the
    /// component is in, so a component id is never leaked.
    pub fn close(self, hal: &mut Hal)
        requires
            old(hal).wf(),
        ensures
            final(hal).wf(),
            final(hal).slots() == old(hal).slots(),
            final(hal).slot_limit() == old(hal).slot_limit(),
            final(hal).comp_limit() == old(hal).comp_limit(),
            final(hal).next_comp_id() == old(hal).next_comp_id(),
            final(hal).comp_table() == if old(hal).comp_table().dom().contains(self.spec_id()) {
                old(hal).comp_table().remove(self.spec_id())
            } else {
                old(hal).comp_table()
            },
    {
        let HalComponent { name: _, id, watcher, resources } = self;
        // resource handles are dropped strictly before the external exit
        let _ = resources;
        watcher.close();
        let _ = hal.exit(id);
    }
}

impl<R> HalComponent<R> {
    /// Assemble a component from its parts, once readiness has been
    /// granted and the watcher armed.
    pub(crate) fn assemble(name: String, id: i32, watcher: ShutdownWatcher, resources: R) -> (c:
        HalComponent<R>)
        ensures
            c.spec_name() == name@,
            c.spec_id() == id,
            c.spec_resources() == Some(resources),
    {
        HalComponent { name, id, watcher, resources: Some(resources) }
    }
}

impl<R: Resources> HalComponent<R> {
    /// Create a new HAL component: obtain an id under the given name, let
    /// the user's [`Resources`] implementation register pins and
    /// parameters against it, invoke the external readiness entry point,
    /// and arm the shutdown watcher.
    ///
    /// A fault in any step aborts the whole sequence: no partially
    /// registered component is ever returned, and a fault after creation
    /// releases the freshly assigned id from the runtime's table before
    /// the error is surfaced, so an id is never leaked.
    ///
    /// On success the held bundle is the value the registration call
    /// produced; the contract can only say that a bundle is held, since
    /// that call happens inside this body.  A caller that needs the
    /// bundle's identity in its own proofs registers through
    /// [`crate::builder::HalComponentBuilder::ready`], whose contract
    /// states it.
    pub fn new(name: &str, hal: &mut Hal) -> (r: Result<HalComponent<R>, ComponentInitError>)
        requires
            old(hal).wf(),
        ensures
            final(hal).wf(),
            (encode_utf8(name@).len() as usize > HAL_NAME_LEN ==> (r matches Err(
                ComponentInitError::NameLength,
            )) && *final(hal) == *old(hal)),
            (encode_utf8(name@).len() as usize <= HAL_NAME_LEN && has_nul_byte(encode_utf8(name@))
                ==> (r matches Err(ComponentInitError::InvalidName)) && *final(hal) == *old(hal)),
            (encode_utf8(name@).len() as usize <= HAL_NAME_LEN && !has_nul_byte(encode_utf8(name@))
                && (old(hal).comp_count() >= old(hal).comp_limit() || old(hal).next_comp_id()
                == i32::MAX) ==> (r matches Err(ComponentInitError::Memory)) && *final(hal)
                == *old(hal)),
            (encode_utf8(name@).len() as usize <= HAL_NAME_LEN && !has_nul_byte(
                encode_utf8(name@),
            ) && old(hal).comp_count() < old(hal).comp_limit() && old(hal).next_comp_id()
                < i32::MAX ==> (r is Ok || (r matches Err(
                ComponentInitError::ResourceRegistration(_),
            )) || (r matches Err(ComponentInitError::Ready)) || (r matches Err(
                ComponentInitError::Signals(_),
            )))),
            (r matches Err(ComponentInitError::NameLength) ==> encode_utf8(name@).len() as usize
                > HAL_NAME_LEN),
            (r matches Err(ComponentInitError::InvalidName) ==> encode_utf8(name@).len() as usize
                <= HAL_NAME_LEN && has_nul_byte(encode_utf8(name@))),
            (r matches Err(ComponentInitError::Memory) ==> encode_utf8(name@).len() as usize
                <= HAL_NAME_LEN && !has_nul_byte(encode_utf8(name@)) && (old(hal).comp_count()
                >= old(hal).comp_limit() || old(hal).next_comp_id() == i32::MAX)),
            !(r matches Err(ComponentInitError::Init)),
            ((r matches Err(ComponentInitError::ResourceRegistration(_)) || (r matches Err(
                ComponentInitError::Ready,
            )) || (r matches Err(ComponentInitError::Signals(_))))
                ==> !final(hal).comp_table().dom().contains(old(hal).next_comp_id() as i32)),
            r matches Ok(c) ==> ({
                &&& c.wf()
                &&& c.spec_id() > 0
                &&& c.spec_name() == name@
                &&& final(hal).comp_table().dom().contains(c.spec_id())
                &&& final(hal).comp_table()[c.spec_id()] == true
            }),
    {
        let id = match create_component(name, hal) {
            Err(e) => {
                return Err(e);
            },
            Ok(id) => id,
        };
        proof {
            assert(old(hal).next_comp_id() as i32 == id);
        }
        let registry = RegisterResources::bound_to(name.to_owned(), id);
        let resources = match R::register_resources(&registry, hal) {
            Err(e) => {
                // the id must always be released, even on a failure path
                let _ = hal.exit(id);
                return Err(ComponentInitError::ResourceRegistration(e));
            },
            Ok(res) => res,
        };
        let code = hal.ready(id);
        match map_ready_code(code) {
            Err(e) => {
                let _ = hal.exit(id);
                return Err(e);
            },
            Ok(()) => {},
        }
        let watcher = match ShutdownWatcher::arm() {
            Err(e) => {
                let _ = hal.exit(id);
                return Err(ComponentInitError::Signals(e));
            },
            Ok(w) => w,
        };
        Ok(HalComponent { name: name.to_owned(), id, watcher, resources: Some(resources) })
    }
}

} // verus!
