//! Focus events: a UI event, and what a focus event adds to it.

use crate::engine::{Engine, World};
use crate::event::{AnyEventRustMethods, Event, EventMethods};
use crate::event_target::EventTarget;
use crate::event_type::EventType;
use crate::exception_state::ExceptionState;
use crate::executing_context::ExecutingContext;
use crate::fault::Fault;
use crate::ui_event::{UIEvent, UIEventMethods, UIEventRustMethods};
use crate::window::Window;
use crate::wire::{METHOD_TABLE_VERSION, OpaquePtr, RustValue, RustValueStatus};
use vstd::prelude::*;

verus! {

/// The method table of focus events: its own version, and embedded in it the table
/// of the UI event each of them is.
#[derive(Clone, Copy, PartialEq, Eq, Structural, Debug)]
pub struct FocusEventRustMethods {
    pub version: u64,
    pub ui_event: UIEventRustMethods,
}

impl FocusEventRustMethods {
    /// The table, and every table embedded in it, carries the version the
    /// bindings were written for.
    pub open spec fn wf(&self) -> bool {
        self.version == METHOD_TABLE_VERSION && self.ui_event.wf()
    }

    pub fn new(version: u64, ui_event: UIEventRustMethods) -> (m: FocusEventRustMethods)
        ensures
            m.version == version,
            m.ui_event == ui_event,
    {
        FocusEventRustMethods { version, ui_event }
    }

    /// The table at the version the bindings were written for.
    pub fn current() -> (m: FocusEventRustMethods)
        ensures
            m.wf(),
    {
        FocusEventRustMethods {
            version: METHOD_TABLE_VERSION,
            ui_event: UIEventRustMethods::current(),
        }
    }

    pub fn is_compatible(&self) -> (r: bool)
        ensures
            r == self.wf(),
    {
        self.version == METHOD_TABLE_VERSION && self.ui_event.is_compatible()
    }
}

/// A focus event of the engine: the UI event it is, whole, and the table of what
/// a focus event adds to it.
#[derive(Debug)]
pub struct FocusEvent {
    pub ui_event: UIEvent,
    pub method_pointer: FocusEventRustMethods,
}

impl FocusEvent {
    pub open spec fn spec_initialize(
        ptr: OpaquePtr,
        context: ExecutingContext,
        method_pointer: FocusEventRustMethods,
        status: RustValueStatus,
    ) -> FocusEvent {
        FocusEvent {
            ui_event: UIEvent::spec_initialize(ptr, context, method_pointer.ui_event, status),
            method_pointer,
        }
    }

    /// The UI event inside is well-formed, the event behind the handle is
    /// a focus event, and the table has the right version.
    pub open spec fn wf(&self, world: World) -> bool {
        &&& self.ui_event.wf(world)
        &&& world.is_event_of(self.ui_event.event.ptr, EventType::FocusEvent)
        &&& self.method_pointer.wf()
    }

    /// What every operation asks for: a well-formed capability object whose
    /// event is not disposed.
    pub open spec fn usable(&self, world: World) -> bool {
        self.wf(world) && self.ui_event.event.live(world)
    }

    /// Builds the UI event inside from the table embedded in `method_pointer`,
    /// and keeps `method_pointer` for what a focus event adds. The table,
    /// and so every table embedded in it, must be of the version the bindings
    /// were written for.
    pub fn initialize(
        ptr: OpaquePtr,
        context: ExecutingContext,
        method_pointer: FocusEventRustMethods,
        status: RustValueStatus,
    ) -> (r: FocusEvent)
        requires
            method_pointer.wf(),
        ensures
            r == FocusEvent::spec_initialize(ptr, context, method_pointer, status),
    {
        FocusEvent {
            ui_event: UIEvent::initialize(ptr, context, method_pointer.ui_event, status),
            method_pointer,
        }
    }

    /// What a reply of the downcast dispatcher becomes: a focus event where the
    /// reply holds a handle and the table of focus events, else the failure that
    /// says the event is of another kind. A reply that holds a handle must
    /// come with a table of the right version.
    pub fn from_dynamic(reply: RustValue<AnyEventRustMethods>, context: ExecutingContext) -> (r:
        Result<FocusEvent, &'static str>)
        requires
            !reply.value.is_null() ==> reply.method_pointer.wf(),
        ensures
            r is Ok <==> !reply.value.is_null() && reply.method_pointer is FocusEvent,
            r matches Ok(e) ==> e == FocusEvent::spec_initialize(
                reply.value,
                context,
                reply.method_pointer->FocusEvent_0,
                reply.status,
            ),
            r matches Err(message) ==> message@ == EventType::FocusEvent.spec_mismatch(),
    {
        if reply.value.is_null() {
            return Err(EventType::FocusEvent.mismatch());
        }
        match reply.method_pointer {
            AnyEventRustMethods::FocusEvent(methods) => Ok(
                FocusEvent::initialize(reply.value, context, methods, reply.status),
            ),
            _ => Err(EventType::FocusEvent.mismatch()),
        }
    }

    pub fn ptr(&self) -> (p: OpaquePtr)
        ensures
            p == self.ui_event.event.ptr,
    {
        self.ui_event.ptr()
    }

    pub fn context(&self) -> (c: &ExecutingContext)
        requires
            !self.ui_event.event.context.is_null(),
        ensures
            *c == self.ui_event.event.context,
    {
        self.ui_event.context()
    }

    /// What is wrong with the capability object, if anything: what is wrong
    /// with the UI event inside, or else that the table is of another version.
    pub open spec fn spec_fault(&self, world: World) -> Option<Fault> {
        match self.ui_event.spec_fault(world) {
            Some(fault) => Some(fault),
            None => if self.method_pointer.wf() {
                None
            } else {
                Some(Fault::IncompatibleTable)
            },
        }
    }

    /// Finds at run time what is wrong with the capability object, given that
    /// its handle and flag are what the engine has vended for a
    /// focus event. Where the result is a fault, nothing else may be called on the
    /// object.
    pub fn fault<E: Engine>(&self, engine: &E) -> (r: Option<Fault>)
        requires
            engine.inv(),
            engine@.is_event_of(self.ui_event.event.ptr, EventType::FocusEvent),
            engine@.reports_on(self.ui_event.event.status, self.ui_event.event.ptr),
        ensures
            r == self.spec_fault(engine@),
            r is None <==> self.usable(engine@),
    {
        proof {
            reveal_with_fuel(EventType::refines, 4);
        }
        match self.ui_event.fault(engine) {
            Some(fault) => Some(fault),
            None => if self.method_pointer.is_compatible() {
                None
            } else {
                Some(Fault::IncompatibleTable)
            },
        }
    }

    /// Tests at run time whether the capability object can be used, given
    /// that its handle and flag are what the engine has vended for
    /// a focus event: there is a context, the tables have the right
    /// version, and the event is not disposed.
    pub fn is_usable<E: Engine>(&self, engine: &E) -> (r: bool)
        requires
            engine.inv(),
            engine@.is_event_of(self.ui_event.event.ptr, EventType::FocusEvent),
            engine@.reports_on(self.ui_event.event.status, self.ui_event.event.ptr),
        ensures
            r == self.usable(engine@),
    {
        proof {
            reveal_with_fuel(EventType::refines, 4);
        }
        self.method_pointer.is_compatible() && self.ui_event.is_usable(engine)
    }

    /// The target that lost or gained the focus on the other side.
    pub fn related_target<E: Engine>(&self, engine: &E) -> (r: EventTarget)
        requires
            engine.inv(),
            self.usable(engine@),
        ensures
            r.stands_for(engine@, engine@.object(self.ui_event.event.ptr).related_target),
            r.context == self.ui_event.event.context,
    {
        let value = engine.focus_event_related_target(self.ptr());
        EventTarget::initialize(
            value.value,
            self.ui_event.event.context,
            value.method_pointer,
            value.status,
        )
    }

    /// Gives the capability object up: tells the engine, once, that it is no
    /// longer needed. This is the last thing done with it.
    pub fn release<E: Engine>(self, engine: &mut E)
        requires
            old(engine).inv(),
            self.wf(old(engine)@),
        ensures
            final(engine).inv(),
            old(engine)@.released(final(engine)@, self.ui_event.event.ptr),
    {
        self.ui_event.release(engine);
    }
}

/// What every kind of focus event can do.
pub trait FocusEventMethods: UIEventMethods {
    /// The focus event this capability object is built on.
    spec fn spec_focus_event(&self) -> FocusEvent;

    /// The focus event is built on the UI event that the capability object is
    /// built on.
    proof fn focus_event_is_ui_event(&self)
        ensures
            self.spec_focus_event().ui_event == self.spec_ui_event(),
    ;

    fn related_target<E: Engine>(&self, engine: &E) -> (r: EventTarget)
        requires
            engine.inv(),
            self.spec_focus_event().usable(engine@),
        ensures
            r.stands_for(
                engine@,
                engine@.object(self.spec_focus_event().ui_event.event.ptr).related_target,
            ),
            r.context == self.spec_focus_event().ui_event.event.context,
    ;

    fn as_focus_event(&self) -> (e: &FocusEvent)
        ensures
            *e == self.spec_focus_event(),
    ;
}

impl FocusEventMethods for FocusEvent {
    open spec fn spec_focus_event(&self) -> FocusEvent {
        *self
    }

    proof fn focus_event_is_ui_event(&self) {
    }

    fn related_target<E: Engine>(&self, engine: &E) -> (r: EventTarget) {
        self.related_target(engine)
    }

    fn as_focus_event(&self) -> (e: &FocusEvent) {
        self
    }
}

impl UIEventMethods for FocusEvent {
    open spec fn spec_ui_event(&self) -> UIEvent {
        self.ui_event
    }

    proof fn ui_event_is_event(&self) {
    }

    fn detail<E: Engine>(&self, engine: &E) -> (r: u64) {
        self.ui_event.detail(engine)
    }

    fn view<E: Engine>(&self, engine: &E) -> (r: Window) {
        self.ui_event.view(engine)
    }

    fn which<E: Engine>(&self, engine: &E) -> (r: u64) {
        self.ui_event.which(engine)
    }

    fn as_ui_event(&self) -> (e: &UIEvent) {
        &self.ui_event
    }
}

impl EventMethods for FocusEvent {
    open spec fn spec_event(&self) -> Event {
        self.ui_event.event
    }

    fn bubbles<E: Engine>(&self, engine: &E) -> (r: bool) {
        self.ui_event.event.bubbles(engine)
    }

    fn cancel_bubble<E: Engine>(&self, engine: &E) -> (r: bool) {
        self.ui_event.event.cancel_bubble(engine)
    }

    fn set_cancel_bubble<E: Engine>(
        &self,
        engine: &mut E,
        value: bool,
        exception_state: &ExceptionState,
    ) -> (r: Result<(), String>) {
        self.ui_event.event.set_cancel_bubble(engine, value, exception_state)
    }

    fn cancelable<E: Engine>(&self, engine: &E) -> (r: bool) {
        self.ui_event.event.cancelable(engine)
    }

    fn current_target<E: Engine>(&self, engine: &E) -> (r: EventTarget) {
        self.ui_event.event.current_target(engine)
    }

    fn default_prevented<E: Engine>(&self, engine: &E) -> (r: bool) {
        self.ui_event.event.default_prevented(engine)
    }

    fn src_element<E: Engine>(&self, engine: &E) -> (r: EventTarget) {
        self.ui_event.event.src_element(engine)
    }

    fn target<E: Engine>(&self, engine: &E) -> (r: EventTarget) {
        self.ui_event.event.target(engine)
    }

    fn is_trusted<E: Engine>(&self, engine: &E) -> (r: bool) {
        self.ui_event.event.is_trusted(engine)
    }

    fn time_stamp<E: Engine>(&self, engine: &E) -> (r: u64) {
        self.ui_event.event.time_stamp(engine)
    }

    fn type_<E: Engine>(&self, engine: &E) -> (r: String) {
        self.ui_event.event.type_(engine)
    }

    fn init_event<E: Engine>(
        &self,
        engine: &mut E,
        type_: &str,
        bubbles: bool,
        cancelable: bool,
        exception_state: &ExceptionState,
    ) -> (r: Result<(), String>) {
        self.ui_event.event.init_event(engine, type_, bubbles, cancelable, exception_state)
    }

    fn prevent_default<E: Engine>(
        &self,
        engine: &mut E,
        exception_state: &ExceptionState,
    ) -> (r: Result<(), String>) {
        self.ui_event.event.prevent_default(engine, exception_state)
    }

    fn stop_immediate_propagation<E: Engine>(
        &self,
        engine: &mut E,
        exception_state: &ExceptionState,
    ) -> (r: Result<(), String>) {
        self.ui_event.event.stop_immediate_propagation(engine, exception_state)
    }

    fn stop_propagation<E: Engine>(
        &self,
        engine: &mut E,
        exception_state: &ExceptionState,
    ) -> (r: Result<(), String>) {
        self.ui_event.event.stop_propagation(engine, exception_state)
    }

    fn as_event(&self) -> (e: &Event) {
        &self.ui_event.event
    }
}

} // verus!
