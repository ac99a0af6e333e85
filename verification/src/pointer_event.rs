//! Pointer events: a mouse event, and what a pointer event adds to it.

use crate::engine::{Engine, World};
use crate::event::{AnyEventRustMethods, Event, EventMethods};
use crate::event_target::EventTarget;
use crate::event_type::EventType;
use crate::exception_state::ExceptionState;
use crate::executing_context::ExecutingContext;
use crate::fault::Fault;
use crate::mouse_event::{MouseEvent, MouseEventMethods, MouseEventRustMethods};
use crate::ui_event::{UIEvent, UIEventMethods};
use crate::window::Window;
use crate::wire::{METHOD_TABLE_VERSION, OpaquePtr, RustValue, RustValueStatus};
use vstd::prelude::*;

verus! {

/// The method table of pointer events: its own version, and embedded in it the table
/// of the mouse event each of them is.
#[derive(Clone, Copy, PartialEq, Eq, Structural, Debug)]
pub struct PointerEventRustMethods {
    pub version: u64,
    pub mouse_event: MouseEventRustMethods,
}

impl PointerEventRustMethods {
    /// The table, and every table embedded in it, carries the version the
    /// bindings were written for.
    pub open spec fn wf(&self) -> bool {
        self.version == METHOD_TABLE_VERSION && self.mouse_event.wf()
    }

    pub fn new(version: u64, mouse_event: MouseEventRustMethods) -> (m: PointerEventRustMethods)
        ensures
            m.version == version,
            m.mouse_event == mouse_event,
    {
        PointerEventRustMethods { version, mouse_event }
    }

    /// The table at the version the bindings were written for.
    pub fn current() -> (m: PointerEventRustMethods)
        ensures
            m.wf(),
    {
        PointerEventRustMethods {
            version: METHOD_TABLE_VERSION,
            mouse_event: MouseEventRustMethods::current(),
        }
    }

    pub fn is_compatible(&self) -> (r: bool)
        ensures
            r == self.wf(),
    {
        self.version == METHOD_TABLE_VERSION && self.mouse_event.is_compatible()
    }
}

/// A pointer event of the engine: the mouse event it is, whole, and the table of what
/// a pointer event adds to it.
#[derive(Debug)]
pub struct PointerEvent {
    pub mouse_event: MouseEvent,
    pub method_pointer: PointerEventRustMethods,
}

impl PointerEvent {
    pub open spec fn spec_initialize(
        ptr: OpaquePtr,
        context: ExecutingContext,
        method_pointer: PointerEventRustMethods,
        status: RustValueStatus,
    ) -> PointerEvent {
        PointerEvent {
            mouse_event: MouseEvent::spec_initialize(
                ptr,
                context,
                method_pointer.mouse_event,
                status,
            ),
            method_pointer,
        }
    }

    /// The mouse event inside is well-formed, the event behind the handle is
    /// a pointer event, and the table has the right version.
    pub open spec fn wf(&self, world: World) -> bool {
        &&& self.mouse_event.wf(world)
        &&& world.is_event_of(self.mouse_event.ui_event.event.ptr, EventType::PointerEvent)
        &&& self.method_pointer.wf()
    }

    /// What every operation asks for: a well-formed capability object whose
    /// event is not disposed.
    pub open spec fn usable(&self, world: World) -> bool {
        self.wf(world) && self.mouse_event.ui_event.event.live(world)
    }

    /// Builds the mouse event inside from the table embedded in `method_pointer`,
    /// and keeps `method_pointer` for what a pointer event adds. The table,
    /// and so every table embedded in it, must be of the version the bindings
    /// were written for.
    pub fn initialize(
        ptr: OpaquePtr,
        context: ExecutingContext,
        method_pointer: PointerEventRustMethods,
        status: RustValueStatus,
    ) -> (r: PointerEvent)
        requires
            method_pointer.wf(),
        ensures
            r == PointerEvent::spec_initialize(ptr, context, method_pointer, status),
    {
        PointerEvent {
            mouse_event: MouseEvent::initialize(ptr, context, method_pointer.mouse_event, status),
            method_pointer,
        }
    }

    /// What a reply of the downcast dispatcher becomes: a pointer event where the
    /// reply holds a handle and the table of pointer events, else the failure that
    /// says the event is of another kind. A reply that holds a handle must
    /// come with a table of the right version.
    pub fn from_dynamic(reply: RustValue<AnyEventRustMethods>, context: ExecutingContext) -> (r:
        Result<PointerEvent, &'static str>)
        requires
            !reply.value.is_null() ==> reply.method_pointer.wf(),
        ensures
            r is Ok <==> !reply.value.is_null() && reply.method_pointer is PointerEvent,
            r matches Ok(e) ==> e == PointerEvent::spec_initialize(
                reply.value,
                context,
                reply.method_pointer->PointerEvent_0,
                reply.status,
            ),
            r matches Err(message) ==> message@ == EventType::PointerEvent.spec_mismatch(),
    {
        if reply.value.is_null() {
            return Err(EventType::PointerEvent.mismatch());
        }
        match reply.method_pointer {
            AnyEventRustMethods::PointerEvent(methods) => Ok(
                PointerEvent::initialize(reply.value, context, methods, reply.status),
            ),
            _ => Err(EventType::PointerEvent.mismatch()),
        }
    }

    pub fn ptr(&self) -> (p: OpaquePtr)
        ensures
            p == self.mouse_event.ui_event.event.ptr,
    {
        self.mouse_event.ptr()
    }

    pub fn context(&self) -> (c: &ExecutingContext)
        requires
            !self.mouse_event.ui_event.event.context.is_null(),
        ensures
            *c == self.mouse_event.ui_event.event.context,
    {
        self.mouse_event.context()
    }

    /// What is wrong with the capability object, if anything: what is wrong
    /// with the mouse event inside, or else that the table is of another version.
    pub open spec fn spec_fault(&self, world: World) -> Option<Fault> {
        match self.mouse_event.spec_fault(world) {
            Some(fault) => Some(fault),
            None => if self.method_pointer.wf() {
                None
            } else {
                Some(Fault::IncompatibleTable)
            },
        }
    }

    /// Finds at run time what is wrong with the capability object, given that
    /// its handle and flag are what the engine has vended for a
    /// pointer event. Where the result is a fault, nothing else may be called on the
    /// object.
    pub fn fault<E: Engine>(&self, engine: &E) -> (r: Option<Fault>)
        requires
            engine.inv(),
            engine@.is_event_of(self.mouse_event.ui_event.event.ptr, EventType::PointerEvent),
            engine@.reports_on(
                self.mouse_event.ui_event.event.status,
                self.mouse_event.ui_event.event.ptr,
            ),
        ensures
            r == self.spec_fault(engine@),
            r is None <==> self.usable(engine@),
    {
        proof {
            reveal_with_fuel(EventType::refines, 4);
        }
        match self.mouse_event.fault(engine) {
            Some(fault) => Some(fault),
            None => if self.method_pointer.is_compatible() {
                None
            } else {
                Some(Fault::IncompatibleTable)
            },
        }
    }

    /// Tests at run time whether the capability object can be used, given
    /// that its handle and flag are what the engine has vended for
    /// a pointer event: there is a context, the tables have the right
    /// version, and the event is not disposed.
    pub fn is_usable<E: Engine>(&self, engine: &E) -> (r: bool)
        requires
            engine.inv(),
            engine@.is_event_of(self.mouse_event.ui_event.event.ptr, EventType::PointerEvent),
            engine@.reports_on(
                self.mouse_event.ui_event.event.status,
                self.mouse_event.ui_event.event.ptr,
            ),
        ensures
            r == self.usable(engine@),
    {
        proof {
            reveal_with_fuel(EventType::refines, 4);
        }
        self.method_pointer.is_compatible() && self.mouse_event.is_usable(engine)
    }

    /// Gives the capability object up: tells the engine, once, that it is no
    /// longer needed. This is the last thing done with it.
    pub fn release<E: Engine>(self, engine: &mut E)
        requires
            old(engine).inv(),
            self.wf(old(engine)@),
        ensures
            final(engine).inv(),
            old(engine)@.released(final(engine)@, self.mouse_event.ui_event.event.ptr),
    {
        self.mouse_event.release(engine);
    }
}

/// What every kind of pointer event can do.
pub trait PointerEventMethods: MouseEventMethods {
    /// The pointer event this capability object is built on.
    spec fn spec_pointer_event(&self) -> PointerEvent;

    /// The pointer event is built on the mouse event that the capability object is
    /// built on.
    proof fn pointer_event_is_mouse_event(&self)
        ensures
            self.spec_pointer_event().mouse_event == self.spec_mouse_event(),
    ;

    fn as_pointer_event(&self) -> (e: &PointerEvent)
        ensures
            *e == self.spec_pointer_event(),
    ;
}

impl PointerEventMethods for PointerEvent {
    open spec fn spec_pointer_event(&self) -> PointerEvent {
        *self
    }

    proof fn pointer_event_is_mouse_event(&self) {
    }

    fn as_pointer_event(&self) -> (e: &PointerEvent) {
        self
    }
}

impl MouseEventMethods for PointerEvent {
    open spec fn spec_mouse_event(&self) -> MouseEvent {
        self.mouse_event
    }

    proof fn mouse_event_is_ui_event(&self) {
    }

    fn as_mouse_event(&self) -> (e: &MouseEvent) {
        &self.mouse_event
    }
}

impl UIEventMethods for PointerEvent {
    open spec fn spec_ui_event(&self) -> UIEvent {
        self.mouse_event.ui_event
    }

    proof fn ui_event_is_event(&self) {
    }

    fn detail<E: Engine>(&self, engine: &E) -> (r: u64) {
        self.mouse_event.ui_event.detail(engine)
    }

    fn view<E: Engine>(&self, engine: &E) -> (r: Window) {
        self.mouse_event.ui_event.view(engine)
    }

    fn which<E: Engine>(&self, engine: &E) -> (r: u64) {
        self.mouse_event.ui_event.which(engine)
    }

    fn as_ui_event(&self) -> (e: &UIEvent) {
        &self.mouse_event.ui_event
    }
}

impl EventMethods for PointerEvent {
    open spec fn spec_event(&self) -> Event {
        self.mouse_event.ui_event.event
    }

    fn bubbles<E: Engine>(&self, engine: &E) -> (r: bool) {
        self.mouse_event.ui_event.event.bubbles(engine)
    }

    fn cancel_bubble<E: Engine>(&self, engine: &E) -> (r: bool) {
        self.mouse_event.ui_event.event.cancel_bubble(engine)
    }

    fn set_cancel_bubble<E: Engine>(
        &self,
        engine: &mut E,
        value: bool,
        exception_state: &ExceptionState,
    ) -> (r: Result<(), String>) {
        self.mouse_event.ui_event.event.set_cancel_bubble(engine, value, exception_state)
    }

    fn cancelable<E: Engine>(&self, engine: &E) -> (r: bool) {
        self.mouse_event.ui_event.event.cancelable(engine)
    }

    fn current_target<E: Engine>(&self, engine: &E) -> (r: EventTarget) {
        self.mouse_event.ui_event.event.current_target(engine)
    }

    fn default_prevented<E: Engine>(&self, engine: &E) -> (r: bool) {
        self.mouse_event.ui_event.event.default_prevented(engine)
    }

    fn src_element<E: Engine>(&self, engine: &E) -> (r: EventTarget) {
        self.mouse_event.ui_event.event.src_element(engine)
    }

    fn target<E: Engine>(&self, engine: &E) -> (r: EventTarget) {
        self.mouse_event.ui_event.event.target(engine)
    }

    fn is_trusted<E: Engine>(&self, engine: &E) -> (r: bool) {
        self.mouse_event.ui_event.event.is_trusted(engine)
    }

    fn time_stamp<E: Engine>(&self, engine: &E) -> (r: u64) {
        self.mouse_event.ui_event.event.time_stamp(engine)
    }

    fn type_<E: Engine>(&self, engine: &E) -> (r: String) {
        self.mouse_event.ui_event.event.type_(engine)
    }

    fn init_event<E: Engine>(
        &self,
        engine: &mut E,
        type_: &str,
        bubbles: bool,
        cancelable: bool,
        exception_state: &ExceptionState,
    ) -> (r: Result<(), String>) {
        self.mouse_event.ui_event.event.init_event(
            engine,
            type_,
            bubbles,
            cancelable,
            exception_state,
        )
    }

    fn prevent_default<E: Engine>(
        &self,
        engine: &mut E,
        exception_state: &ExceptionState,
    ) -> (r: Result<(), String>) {
        self.mouse_event.ui_event.event.prevent_default(engine, exception_state)
    }

    fn stop_immediate_propagation<E: Engine>(
        &self,
        engine: &mut E,
        exception_state: &ExceptionState,
    ) -> (r: Result<(), String>) {
        self.mouse_event.ui_event.event.stop_immediate_propagation(engine, exception_state)
    }

    fn stop_propagation<E: Engine>(
        &self,
        engine: &mut E,
        exception_state: &ExceptionState,
    ) -> (r: Result<(), String>) {
        self.mouse_event.ui_event.event.stop_propagation(engine, exception_state)
    }

    fn as_event(&self) -> (e: &Event) {
        &self.mouse_event.ui_event.event
    }
}

} // verus!
