//! Event targets: whatever an event can be dispatched to.

use crate::engine::{Call, Engine, World};
use crate::event::Event;
use crate::exception_state::ExceptionState;
use crate::executing_context::ExecutingContext;
use crate::fault::Fault;
use crate::wire::{METHOD_TABLE_VERSION, OpaquePtr, RustValueStatus};
use vstd::prelude::*;

verus! {

/// The method table of event targets. Its slots are the engine's; what the bindings
/// hold of it is the version it was built for.
#[derive(Clone, Copy, PartialEq, Eq, Structural, Debug)]
pub struct EventTargetRustMethods {
    pub version: u64,
}

impl EventTargetRustMethods {
    /// The table carries the version the bindings were written for.
    pub open spec fn wf(&self) -> bool {
        self.version == METHOD_TABLE_VERSION
    }

    pub fn new(version: u64) -> (m: EventTargetRustMethods)
        ensures
            m.version == version,
    {
        EventTargetRustMethods { version }
    }

    /// The table at the version the bindings were written for.
    pub fn current() -> (m: EventTargetRustMethods)
        ensures
            m.wf(),
    {
        EventTargetRustMethods { version: METHOD_TABLE_VERSION }
    }

    pub fn is_compatible(&self) -> (r: bool)
        ensures
            r == self.wf(),
    {
        self.version == METHOD_TABLE_VERSION
    }
}

/// Something events are dispatched to.
#[derive(Debug)]
pub struct EventTarget {
    pub ptr: OpaquePtr,
    pub context: ExecutingContext,
    pub method_pointer: EventTargetRustMethods,
    pub status: RustValueStatus,
}

impl EventTarget {
    pub open spec fn spec_initialize(
        ptr: OpaquePtr,
        context: ExecutingContext,
        method_pointer: EventTargetRustMethods,
        status: RustValueStatus,
    ) -> EventTarget {
        EventTarget { ptr, context, method_pointer, status }
    }

    /// The handle designates an event target of the engine, the status is that
    /// object's, the table has the right version, and there is a context.
    pub open spec fn wf(&self, world: World) -> bool {
        &&& world.is_event_target(self.ptr)
        &&& world.reports_on(self.status, self.ptr)
        &&& self.method_pointer.wf()
        &&& !self.context.is_null()
    }

    /// The object behind the handle is not disposed.
    pub open spec fn live(&self, world: World) -> bool {
        world.is_live(self.status)
    }

    /// What every operation asks for: a well-formed capability object whose
    /// object is not disposed.
    pub open spec fn usable(&self, world: World) -> bool {
        self.wf(world) && self.live(world)
    }

    /// The capability object stands for the object with the given identity;
    /// where there is none, its handle is null.
    pub open spec fn stands_for(&self, world: World, object: Option<nat>) -> bool {
        match object {
            None => self.ptr.is_null(),
            Some(id) => {
                &&& world.is_event_target(self.ptr)
                &&& world.identity(self.ptr) == id
                &&& world.reports_on(self.status, self.ptr)
                &&& self.method_pointer.wf()
            },
        }
    }

    /// Binds what the engine has vended. The table must be of the version the
    /// bindings were written for: to bind another is a fault that nothing can
    /// mend.
    pub fn initialize(
        ptr: OpaquePtr,
        context: ExecutingContext,
        method_pointer: EventTargetRustMethods,
        status: RustValueStatus,
    ) -> (r: EventTarget)
        requires
            method_pointer.wf(),
        ensures
            r == EventTarget::spec_initialize(ptr, context, method_pointer, status),
    {
        EventTarget { ptr, context, method_pointer, status }
    }

    pub fn ptr(&self) -> (p: OpaquePtr)
        ensures
            p == self.ptr,
    {
        self.ptr
    }

    pub fn context(&self) -> (c: &ExecutingContext)
        requires
            !self.context.is_null(),
        ensures
            *c == self.context,
    {
        &self.context
    }

    /// What is wrong with the capability object, if anything: the first of
    /// that its object is disposed, that it has no context, and that its
    /// table is of another version.
    pub open spec fn spec_fault(&self, world: World) -> Option<Fault> {
        if world.disposed(self.status) {
            Some(Fault::Disposed)
        } else if self.context.is_null() {
            Some(Fault::NullContext)
        } else if !self.method_pointer.wf() {
            Some(Fault::IncompatibleTable)
        } else {
            None
        }
    }

    /// Finds at run time what is wrong with the capability object, given that
    /// its handle and flag are what the engine has vended for an event target.
    /// Where the result is a fault, nothing else may be called on the object.
    pub fn fault<E: Engine>(&self, engine: &E) -> (r: Option<Fault>)
        requires
            engine.inv(),
            engine@.is_event_target(self.ptr),
            engine@.reports_on(self.status, self.ptr),
        ensures
            r == self.spec_fault(engine@),
            r is None <==> self.usable(engine@),
    {
        if self.status.disposed(engine) {
            Some(Fault::Disposed)
        } else if self.context.is_null() {
            Some(Fault::NullContext)
        } else if !self.method_pointer.is_compatible() {
            Some(Fault::IncompatibleTable)
        } else {
            None
        }
    }

    /// Tests at run time whether the capability object can be used, given
    /// that its handle and flag are what the engine has vended for
    /// an event target: there is a context, the table has the right version, and
    /// the object is not disposed.
    pub fn is_usable<E: Engine>(&self, engine: &E) -> (r: bool)
        requires
            engine.inv(),
            engine@.is_event_target(self.ptr),
            engine@.reports_on(self.status, self.ptr),
        ensures
            r == self.usable(engine@),
    {
        !self.context.is_null() && self.method_pointer.is_compatible() && !self.status.disposed(
            engine,
        )
    }
}

impl EventTarget {
    /// Sends the event to this target. The result is what the engine answers;
    /// whether the engine has raised is for the exception state to say.
    pub fn dispatch_event<E: Engine>(
        &self,
        engine: &mut E,
        event: &Event,
        exception_state: &ExceptionState,
    ) -> (r: bool)
        requires
            old(engine).inv(),
            self.usable(old(engine)@),
            event.usable(old(engine)@),
            exception_state.wf(old(engine)@),
        ensures
            final(engine).inv(),
            old(engine)@.stepped(
                final(engine)@,
                Call::DispatchEvent {
                    target: self.ptr,
                    event: event.ptr,
                    exception_state: exception_state.ptr,
                    reply: r,
                },
            ),
    {
        engine.event_target_dispatch_event(self.ptr, event.ptr, exception_state.ptr)
    }
}

/// What every kind of event target can do.
pub trait EventTargetMethods {
    /// The event target this capability object is built on.
    spec fn spec_event_target(&self) -> EventTarget;

    fn ptr(&self) -> (p: OpaquePtr)
        ensures
            p == self.spec_event_target().ptr,
    ;

    fn dispatch_event<E: Engine>(
        &self,
        engine: &mut E,
        event: &Event,
        exception_state: &ExceptionState,
    ) -> (r: bool)
        requires
            old(engine).inv(),
            self.spec_event_target().usable(old(engine)@),
            event.usable(old(engine)@),
            exception_state.wf(old(engine)@),
        ensures
            final(engine).inv(),
            old(engine)@.stepped(
                final(engine)@,
                Call::DispatchEvent {
                    target: self.spec_event_target().ptr,
                    event: event.ptr,
                    exception_state: exception_state.ptr,
                    reply: r,
                },
            ),
    ;
}

impl EventTargetMethods for EventTarget {
    open spec fn spec_event_target(&self) -> EventTarget {
        *self
    }

    fn ptr(&self) -> (p: OpaquePtr) {
        self.ptr
    }

    fn dispatch_event<E: Engine>(
        &self,
        engine: &mut E,
        event: &Event,
        exception_state: &ExceptionState,
    ) -> (r: bool) {
        self.dispatch_event(engine, event, exception_state)
    }
}

} // verus!
