//! The window an event was raised in.

use crate::engine::{Engine, World};
use crate::event::Event;
use crate::event_target::{EventTarget, EventTargetMethods, EventTargetRustMethods};
use crate::exception_state::ExceptionState;
use crate::executing_context::ExecutingContext;
use crate::fault::Fault;
use crate::wire::{METHOD_TABLE_VERSION, OpaquePtr, RustValueStatus};
use vstd::prelude::*;

verus! {

/// The method table of windows: its own version, and embedded in it the table
/// of the event target each window is.
#[derive(Clone, Copy, PartialEq, Eq, Structural, Debug)]
pub struct WindowRustMethods {
    pub version: u64,
    pub event_target: EventTargetRustMethods,
}

impl WindowRustMethods {
    /// The table, and every table embedded in it, carries the version the
    /// bindings were written for.
    pub open spec fn wf(&self) -> bool {
        self.version == METHOD_TABLE_VERSION && self.event_target.wf()
    }

    pub fn new(version: u64, event_target: EventTargetRustMethods) -> (m: WindowRustMethods)
        ensures
            m.version == version,
            m.event_target == event_target,
    {
        WindowRustMethods { version, event_target }
    }

    /// The table at the version the bindings were written for.
    pub fn current() -> (m: WindowRustMethods)
        ensures
            m.wf(),
    {
        WindowRustMethods {
            version: METHOD_TABLE_VERSION,
            event_target: EventTargetRustMethods::current(),
        }
    }

    pub fn is_compatible(&self) -> (r: bool)
        ensures
            r == self.wf(),
    {
        self.version == METHOD_TABLE_VERSION && self.event_target.is_compatible()
    }
}

/// A window of the engine: an event target, and the table of what a window adds
/// to it.
#[derive(Debug)]
pub struct Window {
    pub event_target: EventTarget,
    pub method_pointer: WindowRustMethods,
}

impl Window {
    pub open spec fn spec_initialize(
        ptr: OpaquePtr,
        context: ExecutingContext,
        method_pointer: WindowRustMethods,
        status: RustValueStatus,
    ) -> Window {
        Window {
            event_target: EventTarget::spec_initialize(
                ptr,
                context,
                method_pointer.event_target,
                status,
            ),
            method_pointer,
        }
    }

    /// The event target inside is well-formed, the handle designates a window,
    /// and the table has the right version.
    pub open spec fn wf(&self, world: World) -> bool {
        &&& self.event_target.wf(world)
        &&& world.is_window(self.event_target.ptr)
        &&& self.method_pointer.wf()
    }

    /// What every operation asks for: a well-formed capability object whose
    /// object is not disposed.
    pub open spec fn usable(&self, world: World) -> bool {
        self.wf(world) && self.event_target.live(world)
    }

    /// The capability object stands for the object with the given identity;
    /// where there is none, its handle is null.
    pub open spec fn stands_for(&self, world: World, object: Option<nat>) -> bool {
        match object {
            None => self.event_target.ptr.is_null(),
            Some(id) => {
                &&& world.is_window(self.event_target.ptr)
                &&& world.identity(self.event_target.ptr) == id
                &&& world.reports_on(self.event_target.status, self.event_target.ptr)
                &&& self.method_pointer.wf()
            },
        }
    }

    /// Builds the event target inside from the table embedded in
    /// `method_pointer`, and keeps `method_pointer` for what a window adds.
    /// The table, and so the one embedded in it, must be of the version the
    /// bindings were written for.
    pub fn initialize(
        ptr: OpaquePtr,
        context: ExecutingContext,
        method_pointer: WindowRustMethods,
        status: RustValueStatus,
    ) -> (r: Window)
        requires
            method_pointer.wf(),
        ensures
            r == Window::spec_initialize(ptr, context, method_pointer, status),
    {
        Window {
            event_target: EventTarget::initialize(
                ptr,
                context,
                method_pointer.event_target,
                status,
            ),
            method_pointer,
        }
    }

    pub fn ptr(&self) -> (p: OpaquePtr)
        ensures
            p == self.event_target.ptr,
    {
        self.event_target.ptr()
    }

    pub fn context(&self) -> (c: &ExecutingContext)
        requires
            !self.event_target.context.is_null(),
        ensures
            *c == self.event_target.context,
    {
        self.event_target.context()
    }

    /// What is wrong with the capability object, if anything: what is wrong
    /// with the event target inside, or else that the table is of another
    /// version.
    pub open spec fn spec_fault(&self, world: World) -> Option<Fault> {
        match self.event_target.spec_fault(world) {
            Some(fault) => Some(fault),
            None => if self.method_pointer.wf() {
                None
            } else {
                Some(Fault::IncompatibleTable)
            },
        }
    }

    /// Finds at run time what is wrong with the capability object, given that
    /// its handle and flag are what the engine has vended for a window.
    /// Where the result is a fault, nothing else may be called on the object.
    pub fn fault<E: Engine>(&self, engine: &E) -> (r: Option<Fault>)
        requires
            engine.inv(),
            engine@.is_window(self.event_target.ptr),
            engine@.reports_on(self.event_target.status, self.event_target.ptr),
        ensures
            r == self.spec_fault(engine@),
            r is None <==> self.usable(engine@),
    {
        match self.event_target.fault(engine) {
            Some(fault) => Some(fault),
            None => if self.method_pointer.is_compatible() {
                None
            } else {
                Some(Fault::IncompatibleTable)
            },
        }
    }

    /// Tests at run time whether the capability object can be used, given
    /// that its handle and flag are what the engine has vended for
    /// a window: there is a context, the tables have the right version, and
    /// the object is not disposed.
    pub fn is_usable<E: Engine>(&self, engine: &E) -> (r: bool)
        requires
            engine.inv(),
            engine@.is_window(self.event_target.ptr),
            engine@.reports_on(self.event_target.status, self.event_target.ptr),
        ensures
            r == self.usable(engine@),
    {
        self.method_pointer.is_compatible() && self.event_target.is_usable(engine)
    }
}

impl EventTargetMethods for Window {
    open spec fn spec_event_target(&self) -> EventTarget {
        self.event_target
    }

    fn ptr(&self) -> (p: OpaquePtr) {
        self.event_target.ptr()
    }

    fn dispatch_event<E: Engine>(
        &self,
        engine: &mut E,
        event: &Event,
        exception_state: &ExceptionState,
    ) -> (r: bool) {
        self.event_target.dispatch_event(engine, event, exception_state)
    }
}

} // verus!
