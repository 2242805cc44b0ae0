//! The two-phase component builder.
//!
//! A [`HalComponentBuilder`] is the registration-phase object: it carries
//! the component's name and freshly assigned id while resources are
//! registered against it.  Calling [`HalComponentBuilder::ready`] consumes
//! the builder in exchange for the running-phase [`HalComponent`], so no
//! registration interface outlives the readiness transition.

use vstd::prelude::*;

use crate::component::{component_create_post, create_component, HalComponent};
use crate::error::{map_ready_code, ComponentInitError};
use crate::hal::Hal;
use crate::shutdown::ShutdownWatcher;
use core::marker::PhantomData;

verus! {

/// The registration-phase face of a component: its name and id, before
/// readiness.
pub struct HalComponentBuilder<R> {
    name: String,
    id: i32,
    _resources: PhantomData<R>,
}

impl<R> HalComponentBuilder<R> {
    /// The component's name.
    pub closed spec fn spec_name(&self) -> Seq<char> {
        self.name@
    }

    /// The id the external runtime assigned at creation.
    pub closed spec fn spec_id(&self) -> i32 {
        self.id
    }

    /// A builder always carries a runtime-assigned, strictly positive id.
    pub open spec fn wf(&self) -> bool {
        self.spec_id() > 0
    }

    /// Create a new component and begin its registration phase.
    pub fn new(name: &str, hal: &mut Hal) -> (r: Result<
        HalComponentBuilder<R>,
        ComponentInitError,
    >)
        requires
            old(hal).wf(),
        ensures
            final(hal).wf(),
            component_create_post(
                *old(hal),
                *final(hal),
                if r is Ok {
                    Ok(r->Ok_0.spec_id())
                } else {
                    Err(r->Err_0)
                },
                name@,
            ),
            r matches Ok(b) ==> b.spec_name() == name@ && b.wf(),
    {
        let id = match create_component(name, hal) {
            Err(e) => {
                return Err(e);
            },
            Ok(id) => id,
        };
        Ok(HalComponentBuilder { name: name.to_owned(), id, _resources: PhantomData })
    }

    /// Return the id the external runtime assigned to this component.
    pub fn id(&self) -> (id: i32)
        ensures
            id == self.spec_id(),
    {
        self.id
    }

    /// Return the component's name.
    pub fn name(&self) -> (n: &str)
        ensures
            n@ == self.spec_name(),
    {
        self.name.as_str()
    }

    /// Consume the builder and signal that the component is ready.
    ///
    /// Readiness locks the arena for this component — registration after
    /// this point is refused with the locked status — and arms the
    /// shutdown watcher.  A repeated readiness call is impossible through
    /// this interface, because the builder is consumed; the external
    /// runtime would answer it with its invalid status, surfaced as the
    /// readiness fault.  If arming the watcher fails after readiness was
    /// granted, the component's id is released from the runtime's table
    /// before the fault is surfaced, so an id is never leaked.
    pub fn ready(self, resources: R, hal: &mut Hal) -> (r: Result<
        HalComponent<R>,
        ComponentInitError,
    >)
        requires
            old(hal).wf(),
            self.wf(),
        ensures
            final(hal).wf(),
            final(hal).slots() == old(hal).slots(),
            final(hal).slot_limit() == old(hal).slot_limit(),
            final(hal).comp_limit() == old(hal).comp_limit(),
            final(hal).next_comp_id() == old(hal).next_comp_id(),
            !old(hal).accepts_registrations(self.spec_id()) ==> (r matches Err(
                ComponentInitError::Ready,
            )) && *final(hal) == *old(hal),
            old(hal).accepts_registrations(self.spec_id()) ==> ({
                &&& (r matches Err(e) ==> e matches ComponentInitError::Signals(_))
                &&& (r matches Ok(c) ==> ({
                    &&& final(hal).comp_table() == old(hal).comp_table().insert(
                        self.spec_id(),
                        true,
                    )
                    &&& final(hal).comp_count() == old(hal).comp_count()
                    &&& c.wf()
                    &&& c.spec_id() == self.spec_id()
                    &&& c.spec_name() == self.spec_name()
                    &&& c.spec_resources() == Some(resources)
                }))
                &&& (r is Err ==> ({
                    &&& final(hal).comp_table() == old(hal).comp_table().remove(self.spec_id())
                    &&& !final(hal).comp_table().dom().contains(self.spec_id())
                    &&& final(hal).comp_count() == old(hal).comp_count() - 1
                }))
            }),
    {
        let code = hal.ready(self.id);
        match map_ready_code(code) {
            Err(e) => {
                return Err(e);
            },
            Ok(()) => {},
        }
        let watcher = match ShutdownWatcher::arm() {
            Err(e) => {
                // the id must always be released, even on a failure path
                let _ = hal.exit(self.id);
                proof {
                    assert(hal.comp_table() =~= old(hal).comp_table().remove(self.spec_id()));
                }
                return Err(ComponentInitError::Signals(e));
            },
            Ok(w) => w,
        };
        let HalComponentBuilder { name, id, _resources } = self;
        Ok(HalComponent::assemble(name, id, watcher, resources))
    }
}

} // verus!
