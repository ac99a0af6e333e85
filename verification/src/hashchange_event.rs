//! Hashchange events: an event, and what a hashchange event adds to it.

use crate::engine::{Engine, World};
use crate::event::{AnyEventRustMethods, Event, EventMethods, EventRustMethods};
use crate::event_target::EventTarget;
use crate::event_type::EventType;
use crate::exception_state::ExceptionState;
use crate::executing_context::ExecutingContext;
use crate::fault::Fault;
use crate::wire::{METHOD_TABLE_VERSION, OpaquePtr, RustValue, RustValueStatus};
use vstd::prelude::*;

verus! {

/// The method table of hashchange events: its own version, and embedded in it the table
/// of the event each of them is.
#[derive(Clone, Copy, PartialEq, Eq, Structural, Debug)]
pub struct HashchangeEventRustMethods {
    pub version: u64,
    pub event: EventRustMethods,
}

impl HashchangeEventRustMethods {
    /// The table, and every table embedded in it, carries the version the
    /// bindings were written for.
    pub open spec fn wf(&self) -> bool {
        self.version == METHOD_TABLE_VERSION && self.event.wf()
    }

    pub fn new(version: u64, event: EventRustMethods) -> (m: HashchangeEventRustMethods)
        ensures
            m.version == version,
            m.event == event,
    {
        HashchangeEventRustMethods { version, event }
    }

    /// The table at the version the bindings were written for.
    pub fn current() -> (m: HashchangeEventRustMethods)
        ensures
            m.wf(),
    {
        HashchangeEventRustMethods {
            version: METHOD_TABLE_VERSION,
            event: EventRustMethods::current(),
        }
    }

    pub fn is_compatible(&self) -> (r: bool)
        ensures
            r == self.wf(),
    {
        self.version == METHOD_TABLE_VERSION && self.event.is_compatible()
    }
}

/// A hashchange event of the engine: the event it is, whole, and the table of what
/// a hashchange event adds to it.
#[derive(Debug)]
pub struct HashchangeEvent {
    pub event: Event,
    pub method_pointer: HashchangeEventRustMethods,
}

impl HashchangeEvent {
    pub open spec fn spec_initialize(
        ptr: OpaquePtr,
        context: ExecutingContext,
        method_pointer: HashchangeEventRustMethods,
        status: RustValueStatus,
    ) -> HashchangeEvent {
        HashchangeEvent {
            event: Event::spec_initialize(ptr, context, method_pointer.event, status),
            method_pointer,
        }
    }

    /// The event inside is well-formed, the event behind the handle is
    /// a hashchange event, and the table has the right version.
    pub open spec fn wf(&self, world: World) -> bool {
        &&& self.event.wf(world)
        &&& world.is_event_of(self.event.ptr, EventType::HashchangeEvent)
        &&& self.method_pointer.wf()
    }

    /// What every operation asks for: a well-formed capability object whose
    /// event is not disposed.
    pub open spec fn usable(&self, world: World) -> bool {
        self.wf(world) && self.event.live(world)
    }

    /// Builds the event inside from the table embedded in `method_pointer`,
    /// and keeps `method_pointer` for what a hashchange event adds. The table,
    /// and so every table embedded in it, must be of the version the bindings
    /// were written for.
    pub fn initialize(
        ptr: OpaquePtr,
        context: ExecutingContext,
        method_pointer: HashchangeEventRustMethods,
        status: RustValueStatus,
    ) -> (r: HashchangeEvent)
        requires
            method_pointer.wf(),
        ensures
            r == HashchangeEvent::spec_initialize(ptr, context, method_pointer, status),
    {
        HashchangeEvent {
            event: Event::initialize(ptr, context, method_pointer.event, status),
            method_pointer,
        }
    }

    /// What a reply of the downcast dispatcher becomes: a hashchange event where the
    /// reply holds a handle and the table of hashchange events, else the failure that
    /// says the event is of another kind. A reply that holds a handle must
    /// come with a table of the right version.
    pub fn from_dynamic(reply: RustValue<AnyEventRustMethods>, context: ExecutingContext) -> (r:
        Result<HashchangeEvent, &'static str>)
        requires
            !reply.value.is_null() ==> reply.method_pointer.wf(),
        ensures
            r is Ok <==> !reply.value.is_null() && reply.method_pointer is HashchangeEvent,
            r matches Ok(e) ==> e == HashchangeEvent::spec_initialize(
                reply.value,
                context,
                reply.method_pointer->HashchangeEvent_0,
                reply.status,
            ),
            r matches Err(message) ==> message@ == EventType::HashchangeEvent.spec_mismatch(),
    {
        if reply.value.is_null() {
            return Err(EventType::HashchangeEvent.mismatch());
        }
        match reply.method_pointer {
            AnyEventRustMethods::HashchangeEvent(methods) => Ok(
                HashchangeEvent::initialize(reply.value, context, methods, reply.status),
            ),
            _ => Err(EventType::HashchangeEvent.mismatch()),
        }
    }

    pub fn ptr(&self) -> (p: OpaquePtr)
        ensures
            p == self.event.ptr,
    {
        self.event.ptr()
    }

    pub fn context(&self) -> (c: &ExecutingContext)
        requires
            !self.event.context.is_null(),
        ensures
            *c == self.event.context,
    {
        self.event.context()
    }

    /// What is wrong with the capability object, if anything: what is wrong
    /// with the event inside, or else that the table is of another version.
    pub open spec fn spec_fault(&self, world: World) -> Option<Fault> {
        match self.event.spec_fault(world) {
            Some(fault) => Some(fault),
            None => if self.method_pointer.wf() {
                None
            } else {
                Some(Fault::IncompatibleTable)
            },
        }
    }

    /// Finds at run time what is wrong with the capability object, given that
    /// its handle and flag are what the engine has vended for a
    /// hashchange event. Where the result is a fault, nothing else may be called on the
    /// object.
    pub fn fault<E: Engine>(&self, engine: &E) -> (r: Option<Fault>)
        requires
            engine.inv(),
            engine@.is_event_of(self.event.ptr, EventType::HashchangeEvent),
            engine@.reports_on(self.event.status, self.event.ptr),
        ensures
            r == self.spec_fault(engine@),
            r is None <==> self.usable(engine@),
    {
        proof {
            reveal_with_fuel(EventType::refines, 4);
        }
        match self.event.fault(engine) {
            Some(fault) => Some(fault),
            None => if self.method_pointer.is_compatible() {
                None
            } else {
                Some(Fault::IncompatibleTable)
            },
        }
    }

    /// Tests at run time whether the capability object can be used, given
    /// that its handle and flag are what the engine has vended for
    /// a hashchange event: there is a context, the tables have the right
    /// version, and the event is not disposed.
    pub fn is_usable<E: Engine>(&self, engine: &E) -> (r: bool)
        requires
            engine.inv(),
            engine@.is_event_of(self.event.ptr, EventType::HashchangeEvent),
            engine@.reports_on(self.event.status, self.event.ptr),
        ensures
            r == self.usable(engine@),
    {
        proof {
            reveal_with_fuel(EventType::refines, 4);
        }
        self.method_pointer.is_compatible() && self.event.is_usable(engine)
    }

    /// Gives the capability object up: tells the engine, once, that it is no
    /// longer needed. This is the last thing done with it.
    pub fn release<E: Engine>(self, engine: &mut E)
        requires
            old(engine).inv(),
            self.wf(old(engine)@),
        ensures
            final(engine).inv(),
            old(engine)@.released(final(engine)@, self.event.ptr),
    {
        self.event.release(engine);
    }
}

/// What every kind of hashchange event can do.
pub trait HashchangeEventMethods: EventMethods {
    /// The hashchange event this capability object is built on.
    spec fn spec_hashchange_event(&self) -> HashchangeEvent;

    /// The hashchange event is built on the event that the capability object is
    /// built on.
    proof fn hashchange_event_is_event(&self)
        ensures
            self.spec_hashchange_event().event == self.spec_event(),
    ;

    fn as_hashchange_event(&self) -> (e: &HashchangeEvent)
        ensures
            *e == self.spec_hashchange_event(),
    ;
}

impl HashchangeEventMethods for HashchangeEvent {
    open spec fn spec_hashchange_event(&self) -> HashchangeEvent {
        *self
    }

    proof fn hashchange_event_is_event(&self) {
    }

    fn as_hashchange_event(&self) -> (e: &HashchangeEvent) {
        self
    }
}

impl EventMethods for HashchangeEvent {
    open spec fn spec_event(&self) -> Event {
        self.event
    }

    fn bubbles<E: Engine>(&self, engine: &E) -> (r: bool) {
        self.event.bubbles(engine)
    }

    fn cancel_bubble<E: Engine>(&self, engine: &E) -> (r: bool) {
        self.event.cancel_bubble(engine)
    }

    fn set_cancel_bubble<E: Engine>(
        &self,
        engine: &mut E,
        value: bool,
        exception_state: &ExceptionState,
    ) -> (r: Result<(), String>) {
        self.event.set_cancel_bubble(engine, value, exception_state)
    }

    fn cancelable<E: Engine>(&self, engine: &E) -> (r: bool) {
        self.event.cancelable(engine)
    }

    fn current_target<E: Engine>(&self, engine: &E) -> (r: EventTarget) {
        self.event.current_target(engine)
    }

    fn default_prevented<E: Engine>(&self, engine: &E) -> (r: bool) {
        self.event.default_prevented(engine)
    }

    fn src_element<E: Engine>(&self, engine: &E) -> (r: EventTarget) {
        self.event.src_element(engine)
    }

    fn target<E: Engine>(&self, engine: &E) -> (r: EventTarget) {
        self.event.target(engine)
    }

    fn is_trusted<E: Engine>(&self, engine: &E) -> (r: bool) {
        self.event.is_trusted(engine)
    }

    fn time_stamp<E: Engine>(&self, engine: &E) -> (r: u64) {
        self.event.time_stamp(engine)
    }

    fn type_<E: Engine>(&self, engine: &E) -> (r: String) {
        self.event.type_(engine)
    }

    fn init_event<E: Engine>(
        &self,
        engine: &mut E,
        type_: &str,
        bubbles: bool,
        cancelable: bool,
        exception_state: &ExceptionState,
    ) -> (r: Result<(), String>) {
        self.event.init_event(engine, type_, bubbles, cancelable, exception_state)
    }

    fn prevent_default<E: Engine>(
        &self,
        engine: &mut E,
        exception_state: &ExceptionState,
    ) -> (r: Result<(), String>) {
        self.event.prevent_default(engine, exception_state)
    }

    fn stop_immediate_propagation<E: Engine>(
        &self,
        engine: &mut E,
        exception_state: &ExceptionState,
    ) -> (r: Result<(), String>) {
        self.event.stop_immediate_propagation(engine, exception_state)
    }

    fn stop_propagation<E: Engine>(
        &self,
        engine: &mut E,
        exception_state: &ExceptionState,
    ) -> (r: Result<(), String>) {
        self.event.stop_propagation(engine, exception_state)
    }

    fn as_event(&self) -> (e: &Event) {
        &self.event
    }
}

} // verus!
