//! The base event capability, its downcast dispatcher, and what every event kind
//! can do.

use crate::animation_event::{AnimationEvent, AnimationEventRustMethods};
use crate::close_event::{CloseEvent, CloseEventRustMethods};
use crate::custom_event::{CustomEvent, CustomEventRustMethods};
use crate::engine::{Call, Engine, is_c_text, World};
use crate::event_target::EventTarget;
use crate::event_type::EventType;
use crate::exception_state::ExceptionState;
use crate::executing_context::ExecutingContext;
use crate::fault::Fault;
use crate::focus_event::{FocusEvent, FocusEventRustMethods};
use crate::gesture_event::{GestureEvent, GestureEventRustMethods};
use crate::hashchange_event::{HashchangeEvent, HashchangeEventRustMethods};
use crate::input_event::{InputEvent, InputEventRustMethods};
use crate::intersection_change_event::{IntersectionChangeEvent, IntersectionChangeEventRustMethods};
use crate::mouse_event::{MouseEvent, MouseEventRustMethods};
use crate::pointer_event::{PointerEvent, PointerEventRustMethods};
use crate::transition_event::{TransitionEvent, TransitionEventRustMethods};
use crate::ui_event::{UIEvent, UIEventRustMethods};
use crate::wire::{
    flag_from_wire,
    flag_to_wire,
    METHOD_TABLE_VERSION,
    OpaquePtr,
    RustValue,
    RustValueStatus,
};
use vstd::prelude::*;

verus! {

/// The method table of events of any kind. Its slots are the engine's; what the bindings
/// hold of it is the version it was built for.
#[derive(Clone, Copy, PartialEq, Eq, Structural, Debug)]
pub struct EventRustMethods {
    pub version: u64,
}

impl EventRustMethods {
    /// The table carries the version the bindings were written for.
    pub open spec fn wf(&self) -> bool {
        self.version == METHOD_TABLE_VERSION
    }

    pub fn new(version: u64) -> (m: EventRustMethods)
        ensures
            m.version == version,
    {
        EventRustMethods { version }
    }

    /// The table at the version the bindings were written for.
    pub fn current() -> (m: EventRustMethods)
        ensures
            m.wf(),
    {
        EventRustMethods { version: METHOD_TABLE_VERSION }
    }

    pub fn is_compatible(&self) -> (r: bool)
        ensures
            r == self.wf(),
    {
        self.version == METHOD_TABLE_VERSION
    }
}

/// A method table whose kind is known only at run time: what the downcast
/// dispatcher hands back.
#[derive(Clone, Copy, Debug)]
pub enum AnyEventRustMethods {
    Event(EventRustMethods),
    CustomEvent(CustomEventRustMethods),
    AnimationEvent(AnimationEventRustMethods),
    CloseEvent(CloseEventRustMethods),
    GestureEvent(GestureEventRustMethods),
    HashchangeEvent(HashchangeEventRustMethods),
    IntersectionChangeEvent(IntersectionChangeEventRustMethods),
    TransitionEvent(TransitionEventRustMethods),
    UIEvent(UIEventRustMethods),
    FocusEvent(FocusEventRustMethods),
    InputEvent(InputEventRustMethods),
    MouseEvent(MouseEventRustMethods),
    PointerEvent(PointerEventRustMethods),
}

impl AnyEventRustMethods {
    /// The kind whose table this is.
    pub open spec fn event_type(&self) -> EventType {
        match self {
            AnyEventRustMethods::Event(_) => EventType::Event,
            AnyEventRustMethods::CustomEvent(_) => EventType::CustomEvent,
            AnyEventRustMethods::AnimationEvent(_) => EventType::AnimationEvent,
            AnyEventRustMethods::CloseEvent(_) => EventType::CloseEvent,
            AnyEventRustMethods::GestureEvent(_) => EventType::GestureEvent,
            AnyEventRustMethods::HashchangeEvent(_) => EventType::HashchangeEvent,
            AnyEventRustMethods::IntersectionChangeEvent(_) => EventType::IntersectionChangeEvent,
            AnyEventRustMethods::TransitionEvent(_) => EventType::TransitionEvent,
            AnyEventRustMethods::UIEvent(_) => EventType::UIEvent,
            AnyEventRustMethods::FocusEvent(_) => EventType::FocusEvent,
            AnyEventRustMethods::InputEvent(_) => EventType::InputEvent,
            AnyEventRustMethods::MouseEvent(_) => EventType::MouseEvent,
            AnyEventRustMethods::PointerEvent(_) => EventType::PointerEvent,
        }
    }

    pub open spec fn wf(&self) -> bool {
        match self {
            AnyEventRustMethods::Event(m) => m.wf(),
            AnyEventRustMethods::CustomEvent(m) => m.wf(),
            AnyEventRustMethods::AnimationEvent(m) => m.wf(),
            AnyEventRustMethods::CloseEvent(m) => m.wf(),
            AnyEventRustMethods::GestureEvent(m) => m.wf(),
            AnyEventRustMethods::HashchangeEvent(m) => m.wf(),
            AnyEventRustMethods::IntersectionChangeEvent(m) => m.wf(),
            AnyEventRustMethods::TransitionEvent(m) => m.wf(),
            AnyEventRustMethods::UIEvent(m) => m.wf(),
            AnyEventRustMethods::FocusEvent(m) => m.wf(),
            AnyEventRustMethods::InputEvent(m) => m.wf(),
            AnyEventRustMethods::MouseEvent(m) => m.wf(),
            AnyEventRustMethods::PointerEvent(m) => m.wf(),
        }
    }

    /// The table of the given kind at the version the bindings were written for.
    pub fn current(type_: EventType) -> (m: AnyEventRustMethods)
        ensures
            m.event_type() == type_,
            m.wf(),
    {
        match type_ {
            EventType::Event => AnyEventRustMethods::Event(EventRustMethods::current()),
            EventType::CustomEvent => AnyEventRustMethods::CustomEvent(
                CustomEventRustMethods::current(),
            ),
            EventType::AnimationEvent => AnyEventRustMethods::AnimationEvent(
                AnimationEventRustMethods::current(),
            ),
            EventType::CloseEvent => AnyEventRustMethods::CloseEvent(
                CloseEventRustMethods::current(),
            ),
            EventType::GestureEvent => AnyEventRustMethods::GestureEvent(
                GestureEventRustMethods::current(),
            ),
            EventType::HashchangeEvent => AnyEventRustMethods::HashchangeEvent(
                HashchangeEventRustMethods::current(),
            ),
            EventType::IntersectionChangeEvent => AnyEventRustMethods::IntersectionChangeEvent(
                IntersectionChangeEventRustMethods::current(),
            ),
            EventType::TransitionEvent => AnyEventRustMethods::TransitionEvent(
                TransitionEventRustMethods::current(),
            ),
            EventType::UIEvent => AnyEventRustMethods::UIEvent(UIEventRustMethods::current()),
            EventType::FocusEvent => AnyEventRustMethods::FocusEvent(
                FocusEventRustMethods::current(),
            ),
            EventType::InputEvent => AnyEventRustMethods::InputEvent(
                InputEventRustMethods::current(),
            ),
            EventType::MouseEvent => AnyEventRustMethods::MouseEvent(
                MouseEventRustMethods::current(),
            ),
            EventType::PointerEvent => AnyEventRustMethods::PointerEvent(
                PointerEventRustMethods::current(),
            ),
        }
    }
}

/// An event of the engine, seen as no more than an event: the handle, the
/// context it was made under, the table of what every event can do, and the
/// liveness flag the engine keeps for it.
#[derive(Debug)]
pub struct Event {
    pub ptr: OpaquePtr,
    pub context: ExecutingContext,
    pub method_pointer: EventRustMethods,
    pub status: RustValueStatus,
}

impl Event {
    pub open spec fn spec_initialize(
        ptr: OpaquePtr,
        context: ExecutingContext,
        method_pointer: EventRustMethods,
        status: RustValueStatus,
    ) -> Event {
        Event { ptr, context, method_pointer, status }
    }

    /// The handle designates an event of the engine, the status is that
    /// event's, the table has the right version, and there is a context.
    pub open spec fn wf(&self, world: World) -> bool {
        &&& world.is_event(self.ptr)
        &&& world.reports_on(self.status, self.ptr)
        &&& self.method_pointer.wf()
        &&& !self.context.is_null()
    }

    /// The event behind the handle is not disposed.
    pub open spec fn live(&self, world: World) -> bool {
        world.is_live(self.status)
    }

    /// What every operation asks for: a well-formed capability object whose
    /// event is not disposed.
    pub open spec fn usable(&self, world: World) -> bool {
        self.wf(world) && self.live(world)
    }

    /// Binds what the engine has vended. The table must be of the version the
    /// bindings were written for: to bind another is a fault that nothing can
    /// mend.
    pub fn initialize(
        ptr: OpaquePtr,
        context: ExecutingContext,
        method_pointer: EventRustMethods,
        status: RustValueStatus,
    ) -> (r: Event)
        requires
            method_pointer.wf(),
        ensures
            r == Event::spec_initialize(ptr, context, method_pointer, status),
    {
        Event { ptr, context, method_pointer, status }
    }

    pub fn ptr(&self) -> (p: OpaquePtr)
        ensures
            p == self.ptr,
    {
        self.ptr
    }

    pub fn context(&self) -> (c: &ExecutingContext)
        requires
            !self.context.is_null(),
        ensures
            *c == self.context,
    {
        &self.context
    }

    /// What is wrong with the capability object, if anything: the first of
    /// that its event is disposed, that it has no context, and that its table
    /// is of another version.
    pub open spec fn spec_fault(&self, world: World) -> Option<Fault> {
        if world.disposed(self.status) {
            Some(Fault::Disposed)
        } else if self.context.is_null() {
            Some(Fault::NullContext)
        } else if !self.method_pointer.wf() {
            Some(Fault::IncompatibleTable)
        } else {
            None
        }
    }

    /// Finds at run time what is wrong with the capability object, given that
    /// its handle and flag are what the engine has vended for an event. Where
    /// the result is a fault, nothing else may be called on the object.
    pub fn fault<E: Engine>(&self, engine: &E) -> (r: Option<Fault>)
        requires
            engine.inv(),
            engine@.is_event(self.ptr),
            engine@.reports_on(self.status, self.ptr),
        ensures
            r == self.spec_fault(engine@),
            r is None <==> self.usable(engine@),
    {
        if self.status.disposed(engine) {
            Some(Fault::Disposed)
        } else if self.context.is_null() {
            Some(Fault::NullContext)
        } else if !self.method_pointer.is_compatible() {
            Some(Fault::IncompatibleTable)
        } else {
            None
        }
    }

    /// Tests at run time whether the capability object can be used, given
    /// that its handle and flag are what the engine has vended for an event:
    /// there is a context, the table has the right version, and the event is
    /// not disposed. To call anything else where this is false is a fault of
    /// the caller that nothing can mend.
    pub fn is_usable<E: Engine>(&self, engine: &E) -> (r: bool)
        requires
            engine.inv(),
            engine@.is_event(self.ptr),
            engine@.reports_on(self.status, self.ptr),
        ensures
            r == self.usable(engine@),
    {
        !self.context.is_null() && self.method_pointer.is_compatible() && !self.status.disposed(
            engine,
        )
    }

    /// Whether the event bubbles up through the tree.
    pub fn bubbles<E: Engine>(&self, engine: &E) -> (r: bool)
        requires
            engine.inv(),
            self.usable(engine@),
        ensures
            r == flag_from_wire(engine@.object(self.ptr).bubbles),
    {
        let value: i32 = engine.event_bubbles(self.ptr);
        flag_from_wire(value)
    }

    /// Whether the propagation of the event was stopped.
    pub fn cancel_bubble<E: Engine>(&self, engine: &E) -> (r: bool)
        requires
            engine.inv(),
            self.usable(engine@),
        ensures
            r == flag_from_wire(engine@.object(self.ptr).cancel_bubble),
    {
        let value: i32 = engine.event_cancel_bubble(self.ptr);
        flag_from_wire(value)
    }

    /// Asks the engine to set the flag that stops propagation.
    pub fn set_cancel_bubble<E: Engine>(
        &self,
        engine: &mut E,
        value: bool,
        exception_state: &ExceptionState,
    ) -> (r: Result<(), String>)
        requires
            old(engine).inv(),
            self.usable(old(engine)@),
            exception_state.wf(old(engine)@),
        ensures
            final(engine).inv(),
            old(engine)@.stepped(
                final(engine)@,
                Call::SetCancelBubble {
                    ptr: self.ptr,
                    value: flag_to_wire(value),
                    exception_state: exception_state.ptr,
                },
            ),
            exception_state.reports(final(engine)@, r),
    {
        engine.event_set_cancel_bubble(self.ptr, flag_to_wire(value), exception_state.ptr);
        exception_state.check(engine, &self.context)
    }

    /// Whether the default action of the event can be prevented.
    pub fn cancelable<E: Engine>(&self, engine: &E) -> (r: bool)
        requires
            engine.inv(),
            self.usable(engine@),
        ensures
            r == flag_from_wire(engine@.object(self.ptr).cancelable),
    {
        let value: i32 = engine.event_cancelable(self.ptr);
        flag_from_wire(value)
    }

    /// The target whose listeners are running now, as the engine reports it.
    pub fn current_target<E: Engine>(&self, engine: &E) -> (r: EventTarget)
        requires
            engine.inv(),
            self.usable(engine@),
        ensures
            r.stands_for(engine@, engine@.object(self.ptr).current_target),
            r.context == self.context,
    {
        let value = engine.event_current_target(self.ptr);
        EventTarget::initialize(value.value, self.context, value.method_pointer, value.status)
    }

    /// Whether the default action of the event was prevented.
    pub fn default_prevented<E: Engine>(&self, engine: &E) -> (r: bool)
        requires
            engine.inv(),
            self.usable(engine@),
        ensures
            r == flag_from_wire(engine@.object(self.ptr).default_prevented),
    {
        let value: i32 = engine.event_default_prevented(self.ptr);
        flag_from_wire(value)
    }

    /// The target of the event under its older name.
    pub fn src_element<E: Engine>(&self, engine: &E) -> (r: EventTarget)
        requires
            engine.inv(),
            self.usable(engine@),
        ensures
            r.stands_for(engine@, engine@.object(self.ptr).src_element),
            r.context == self.context,
    {
        let value = engine.event_src_element(self.ptr);
        EventTarget::initialize(value.value, self.context, value.method_pointer, value.status)
    }

    /// The target the event was dispatched to.
    pub fn target<E: Engine>(&self, engine: &E) -> (r: EventTarget)
        requires
            engine.inv(),
            self.usable(engine@),
        ensures
            r.stands_for(engine@, engine@.object(self.ptr).target),
            r.context == self.context,
    {
        let value = engine.event_target(self.ptr);
        EventTarget::initialize(value.value, self.context, value.method_pointer, value.status)
    }

    /// Whether the engine itself raised the event.
    pub fn is_trusted<E: Engine>(&self, engine: &E) -> (r: bool)
        requires
            engine.inv(),
            self.usable(engine@),
        ensures
            r == flag_from_wire(engine@.object(self.ptr).is_trusted),
    {
        let value: i32 = engine.event_is_trusted(self.ptr);
        flag_from_wire(value)
    }

    /// When the event was made: a double, as its bit pattern.
    pub fn time_stamp<E: Engine>(&self, engine: &E) -> (r: u64)
        requires
            engine.inv(),
            self.usable(engine@),
        ensures
            r == engine@.object(self.ptr).time_stamp,
    {
        engine.event_time_stamp(self.ptr)
    }

    /// The name of the event.
    pub fn type_<E: Engine>(&self, engine: &E) -> (r: String)
        requires
            engine.inv(),
            self.usable(engine@),
        ensures
            r@ == engine@.object(self.ptr).type_,
    {
        engine.event_type(self.ptr)
    }

    /// Asks the engine to set the event up anew.
    pub fn init_event<E: Engine>(
        &self,
        engine: &mut E,
        type_: &str,
        bubbles: bool,
        cancelable: bool,
        exception_state: &ExceptionState,
    ) -> (r: Result<(), String>)
        requires
            old(engine).inv(),
            self.usable(old(engine)@),
            exception_state.wf(old(engine)@),
            is_c_text(type_@),
        ensures
            final(engine).inv(),
            old(engine)@.stepped(
                final(engine)@,
                Call::InitEvent {
                    ptr: self.ptr,
                    type_: type_@,
                    bubbles: flag_to_wire(bubbles),
                    cancelable: flag_to_wire(cancelable),
                    exception_state: exception_state.ptr,
                },
            ),
            exception_state.reports(final(engine)@, r),
    {
        engine.event_init_event(
            self.ptr,
            type_,
            flag_to_wire(bubbles),
            flag_to_wire(cancelable),
            exception_state.ptr,
        );
        exception_state.check(engine, &self.context)
    }

    /// Asks the engine to prevent the default action of the event.
    pub fn prevent_default<E: Engine>(
        &self,
        engine: &mut E,
        exception_state: &ExceptionState,
    ) -> (r: Result<(), String>)
        requires
            old(engine).inv(),
            self.usable(old(engine)@),
            exception_state.wf(old(engine)@),
        ensures
            final(engine).inv(),
            old(engine)@.stepped(
                final(engine)@,
                Call::PreventDefault { ptr: self.ptr, exception_state: exception_state.ptr },
            ),
            exception_state.reports(final(engine)@, r),
    {
        engine.event_prevent_default(self.ptr, exception_state.ptr);
        exception_state.check(engine, &self.context)
    }

    /// Asks the engine to run no further listener for the event.
    pub fn stop_immediate_propagation<E: Engine>(
        &self,
        engine: &mut E,
        exception_state: &ExceptionState,
    ) -> (r: Result<(), String>)
        requires
            old(engine).inv(),
            self.usable(old(engine)@),
            exception_state.wf(old(engine)@),
        ensures
            final(engine).inv(),
            old(engine)@.stepped(
                final(engine)@,
                Call::StopImmediatePropagation {
                    ptr: self.ptr,
                    exception_state: exception_state.ptr,
                },
            ),
            exception_state.reports(final(engine)@, r),
    {
        engine.event_stop_immediate_propagation(self.ptr, exception_state.ptr);
        exception_state.check(engine, &self.context)
    }

    /// Asks the engine to stop the event on its way through the tree.
    pub fn stop_propagation<E: Engine>(
        &self,
        engine: &mut E,
        exception_state: &ExceptionState,
    ) -> (r: Result<(), String>)
        requires
            old(engine).inv(),
            self.usable(old(engine)@),
            exception_state.wf(old(engine)@),
        ensures
            final(engine).inv(),
            old(engine)@.stepped(
                final(engine)@,
                Call::StopPropagation { ptr: self.ptr, exception_state: exception_state.ptr },
            ),
            exception_state.reports(final(engine)@, r),
    {
        engine.event_stop_propagation(self.ptr, exception_state.ptr);
        exception_state.check(engine, &self.context)
    }

    /// Asks the engine whether the event is of the given kind. The reply is
    /// null exactly if it is not; else it holds a handle for the same event and
    /// the table of that kind.
    pub fn dynamic_to<E: Engine>(&self, engine: &E, type_: EventType) -> (r: RustValue<
        AnyEventRustMethods,
    >)
        requires
            engine.inv(),
            self.usable(engine@),
        ensures
            engine@.vends_event(self.ptr, type_, r),
    {
        engine.event_dynamic_to(self.ptr, type_)
    }

    /// The event as a custom event, if it is one. The new capability object
    /// stands for the same event and is to be released on its own.
    pub fn as_custom_event<E: Engine>(&self, engine: &E) -> (r: Result<CustomEvent, &'static str>)
        requires
            engine.inv(),
            self.usable(engine@),
        ensures
            r is Ok <==> engine@.is_event_of(self.ptr, EventType::CustomEvent),
            r matches Ok(e) ==> {
                &&& e.usable(engine@)
                &&& engine@.identity(e.event.ptr) == engine@.identity(self.ptr)
                &&& e.event.context == self.context
            },
            r matches Err(message) ==> message@ == EventType::CustomEvent.spec_mismatch(),
    {
        let reply = self.dynamic_to(engine, EventType::CustomEvent);
        CustomEvent::from_dynamic(reply, self.context)
    }

    /// The event as an animation event, if it is one. The new capability object
    /// stands for the same event and is to be released on its own.
    pub fn as_animation_event<E: Engine>(&self, engine: &E) -> (r: Result<
        AnimationEvent,
        &'static str,
    >)
        requires
            engine.inv(),
            self.usable(engine@),
        ensures
            r is Ok <==> engine@.is_event_of(self.ptr, EventType::AnimationEvent),
            r matches Ok(e) ==> {
                &&& e.usable(engine@)
                &&& engine@.identity(e.event.ptr) == engine@.identity(self.ptr)
                &&& e.event.context == self.context
            },
            r matches Err(message) ==> message@ == EventType::AnimationEvent.spec_mismatch(),
    {
        let reply = self.dynamic_to(engine, EventType::AnimationEvent);
        AnimationEvent::from_dynamic(reply, self.context)
    }

    /// The event as a close event, if it is one. The new capability object
    /// stands for the same event and is to be released on its own.
    pub fn as_close_event<E: Engine>(&self, engine: &E) -> (r: Result<CloseEvent, &'static str>)
        requires
            engine.inv(),
            self.usable(engine@),
        ensures
            r is Ok <==> engine@.is_event_of(self.ptr, EventType::CloseEvent),
            r matches Ok(e) ==> {
                &&& e.usable(engine@)
                &&& engine@.identity(e.event.ptr) == engine@.identity(self.ptr)
                &&& e.event.context == self.context
            },
            r matches Err(message) ==> message@ == EventType::CloseEvent.spec_mismatch(),
    {
        let reply = self.dynamic_to(engine, EventType::CloseEvent);
        CloseEvent::from_dynamic(reply, self.context)
    }

    /// The event as a gesture event, if it is one. The new capability object
    /// stands for the same event and is to be released on its own.
    pub fn as_gesture_event<E: Engine>(&self, engine: &E) -> (r: Result<GestureEvent, &'static str>)
        requires
            engine.inv(),
            self.usable(engine@),
        ensures
            r is Ok <==> engine@.is_event_of(self.ptr, EventType::GestureEvent),
            r matches Ok(e) ==> {
                &&& e.usable(engine@)
                &&& engine@.identity(e.event.ptr) == engine@.identity(self.ptr)
                &&& e.event.context == self.context
            },
            r matches Err(message) ==> message@ == EventType::GestureEvent.spec_mismatch(),
    {
        let reply = self.dynamic_to(engine, EventType::GestureEvent);
        GestureEvent::from_dynamic(reply, self.context)
    }

    /// The event as a hashchange event, if it is one. The new capability object
    /// stands for the same event and is to be released on its own.
    pub fn as_hashchange_event<E: Engine>(&self, engine: &E) -> (r: Result<
        HashchangeEvent,
        &'static str,
    >)
        requires
            engine.inv(),
            self.usable(engine@),
        ensures
            r is Ok <==> engine@.is_event_of(self.ptr, EventType::HashchangeEvent),
            r matches Ok(e) ==> {
                &&& e.usable(engine@)
                &&& engine@.identity(e.event.ptr) == engine@.identity(self.ptr)
                &&& e.event.context == self.context
            },
            r matches Err(message) ==> message@ == EventType::HashchangeEvent.spec_mismatch(),
    {
        let reply = self.dynamic_to(engine, EventType::HashchangeEvent);
        HashchangeEvent::from_dynamic(reply, self.context)
    }

    /// The event as an intersection change event, if it is one. The new capability object
    /// stands for the same event and is to be released on its own.
    pub fn as_intersection_change_event<E: Engine>(&self, engine: &E) -> (r: Result<
        IntersectionChangeEvent,
        &'static str,
    >)
        requires
            engine.inv(),
            self.usable(engine@),
        ensures
            r is Ok <==> engine@.is_event_of(self.ptr, EventType::IntersectionChangeEvent),
            r matches Ok(e) ==> {
                &&& e.usable(engine@)
                &&& engine@.identity(e.event.ptr) == engine@.identity(self.ptr)
                &&& e.event.context == self.context
            },
            r matches Err(message) ==> message@ == EventType::IntersectionChangeEvent
                .spec_mismatch(),
    {
        let reply = self.dynamic_to(engine, EventType::IntersectionChangeEvent);
        IntersectionChangeEvent::from_dynamic(reply, self.context)
    }

    /// The event as a transition event, if it is one. The new capability object
    /// stands for the same event and is to be released on its own.
    pub fn as_transition_event<E: Engine>(&self, engine: &E) -> (r: Result<
        TransitionEvent,
        &'static str,
    >)
        requires
            engine.inv(),
            self.usable(engine@),
        ensures
            r is Ok <==> engine@.is_event_of(self.ptr, EventType::TransitionEvent),
            r matches Ok(e) ==> {
                &&& e.usable(engine@)
                &&& engine@.identity(e.event.ptr) == engine@.identity(self.ptr)
                &&& e.event.context == self.context
            },
            r matches Err(message) ==> message@ == EventType::TransitionEvent.spec_mismatch(),
    {
        let reply = self.dynamic_to(engine, EventType::TransitionEvent);
        TransitionEvent::from_dynamic(reply, self.context)
    }

    /// The event as a UI event, if it is one. The new capability object
    /// stands for the same event and is to be released on its own.
    pub fn as_ui_event<E: Engine>(&self, engine: &E) -> (r: Result<UIEvent, &'static str>)
        requires
            engine.inv(),
            self.usable(engine@),
        ensures
            r is Ok <==> engine@.is_event_of(self.ptr, EventType::UIEvent),
            r matches Ok(e) ==> {
                &&& e.usable(engine@)
                &&& engine@.identity(e.event.ptr) == engine@.identity(self.ptr)
                &&& e.event.context == self.context
            },
            r matches Err(message) ==> message@ == EventType::UIEvent.spec_mismatch(),
    {
        let reply = self.dynamic_to(engine, EventType::UIEvent);
        UIEvent::from_dynamic(reply, self.context)
    }

    /// The event as a focus event, if it is one. The new capability object
    /// stands for the same event and is to be released on its own.
    pub fn as_focus_event<E: Engine>(&self, engine: &E) -> (r: Result<FocusEvent, &'static str>)
        requires
            engine.inv(),
            self.usable(engine@),
        ensures
            r is Ok <==> engine@.is_event_of(self.ptr, EventType::FocusEvent),
            r matches Ok(e) ==> {
                &&& e.usable(engine@)
                &&& engine@.identity(e.ui_event.event.ptr) == engine@.identity(self.ptr)
                &&& e.ui_event.event.context == self.context
            },
            r matches Err(message) ==> message@ == EventType::FocusEvent.spec_mismatch(),
    {
        let reply = self.dynamic_to(engine, EventType::FocusEvent);
        proof {
            reveal_with_fuel(EventType::refines, 4);
        }
        FocusEvent::from_dynamic(reply, self.context)
    }

    /// The event as an input event, if it is one. The new capability object
    /// stands for the same event and is to be released on its own.
    pub fn as_input_event<E: Engine>(&self, engine: &E) -> (r: Result<InputEvent, &'static str>)
        requires
            engine.inv(),
            self.usable(engine@),
        ensures
            r is Ok <==> engine@.is_event_of(self.ptr, EventType::InputEvent),
            r matches Ok(e) ==> {
                &&& e.usable(engine@)
                &&& engine@.identity(e.ui_event.event.ptr) == engine@.identity(self.ptr)
                &&& e.ui_event.event.context == self.context
            },
            r matches Err(message) ==> message@ == EventType::InputEvent.spec_mismatch(),
    {
        let reply = self.dynamic_to(engine, EventType::InputEvent);
        proof {
            reveal_with_fuel(EventType::refines, 4);
        }
        InputEvent::from_dynamic(reply, self.context)
    }

    /// The event as a mouse event, if it is one. The new capability object
    /// stands for the same event and is to be released on its own.
    pub fn as_mouse_event<E: Engine>(&self, engine: &E) -> (r: Result<MouseEvent, &'static str>)
        requires
            engine.inv(),
            self.usable(engine@),
        ensures
            r is Ok <==> engine@.is_event_of(self.ptr, EventType::MouseEvent),
            r matches Ok(e) ==> {
                &&& e.usable(engine@)
                &&& engine@.identity(e.ui_event.event.ptr) == engine@.identity(self.ptr)
                &&& e.ui_event.event.context == self.context
            },
            r matches Err(message) ==> message@ == EventType::MouseEvent.spec_mismatch(),
    {
        let reply = self.dynamic_to(engine, EventType::MouseEvent);
        proof {
            reveal_with_fuel(EventType::refines, 4);
        }
        MouseEvent::from_dynamic(reply, self.context)
    }

    /// The event as a pointer event, if it is one. The new capability object
    /// stands for the same event and is to be released on its own.
    pub fn as_pointer_event<E: Engine>(&self, engine: &E) -> (r: Result<PointerEvent, &'static str>)
        requires
            engine.inv(),
            self.usable(engine@),
        ensures
            r is Ok <==> engine@.is_event_of(self.ptr, EventType::PointerEvent),
            r matches Ok(e) ==> {
                &&& e.usable(engine@)
                &&& engine@.identity(e.mouse_event.ui_event.event.ptr) == engine@.identity(self.ptr)
                &&& e.mouse_event.ui_event.event.context == self.context
            },
            r matches Err(message) ==> message@ == EventType::PointerEvent.spec_mismatch(),
    {
        let reply = self.dynamic_to(engine, EventType::PointerEvent);
        proof {
            reveal_with_fuel(EventType::refines, 4);
        }
        PointerEvent::from_dynamic(reply, self.context)
    }

    /// Gives the capability object up: tells the engine, once, that it is no
    /// longer needed. This is the last thing done with it.
    pub fn release<E: Engine>(self, engine: &mut E)
        requires
            old(engine).inv(),
            self.wf(old(engine)@),
        ensures
            final(engine).inv(),
            old(engine)@.released(final(engine)@, self.ptr),
    {
        engine.event_release(self.ptr);
    }
}

/// What every kind of event can do. A capability object of a kind that refines
/// events does each of these by handing it to the event it is built on.
pub trait EventMethods {
    /// The event this capability object is built on.
    spec fn spec_event(&self) -> Event;

    fn bubbles<E: Engine>(&self, engine: &E) -> (r: bool)
        requires
            engine.inv(),
            self.spec_event().usable(engine@),
        ensures
            r == flag_from_wire(engine@.object(self.spec_event().ptr).bubbles),
    ;

    fn cancel_bubble<E: Engine>(&self, engine: &E) -> (r: bool)
        requires
            engine.inv(),
            self.spec_event().usable(engine@),
        ensures
            r == flag_from_wire(engine@.object(self.spec_event().ptr).cancel_bubble),
    ;

    fn set_cancel_bubble<E: Engine>(
        &self,
        engine: &mut E,
        value: bool,
        exception_state: &ExceptionState,
    ) -> (r: Result<(), String>)
        requires
            old(engine).inv(),
            self.spec_event().usable(old(engine)@),
            exception_state.wf(old(engine)@),
        ensures
            final(engine).inv(),
            old(engine)@.stepped(
                final(engine)@,
                Call::SetCancelBubble {
                    ptr: self.spec_event().ptr,
                    value: flag_to_wire(value),
                    exception_state: exception_state.ptr,
                },
            ),
            exception_state.reports(final(engine)@, r),
    ;

    fn cancelable<E: Engine>(&self, engine: &E) -> (r: bool)
        requires
            engine.inv(),
            self.spec_event().usable(engine@),
        ensures
            r == flag_from_wire(engine@.object(self.spec_event().ptr).cancelable),
    ;

    fn current_target<E: Engine>(&self, engine: &E) -> (r: EventTarget)
        requires
            engine.inv(),
            self.spec_event().usable(engine@),
        ensures
            r.stands_for(engine@, engine@.object(self.spec_event().ptr).current_target),
            r.context == self.spec_event().context,
    ;

    fn default_prevented<E: Engine>(&self, engine: &E) -> (r: bool)
        requires
            engine.inv(),
            self.spec_event().usable(engine@),
        ensures
            r == flag_from_wire(engine@.object(self.spec_event().ptr).default_prevented),
    ;

    fn src_element<E: Engine>(&self, engine: &E) -> (r: EventTarget)
        requires
            engine.inv(),
            self.spec_event().usable(engine@),
        ensures
            r.stands_for(engine@, engine@.object(self.spec_event().ptr).src_element),
            r.context == self.spec_event().context,
    ;

    fn target<E: Engine>(&self, engine: &E) -> (r: EventTarget)
        requires
            engine.inv(),
            self.spec_event().usable(engine@),
        ensures
            r.stands_for(engine@, engine@.object(self.spec_event().ptr).target),
            r.context == self.spec_event().context,
    ;

    fn is_trusted<E: Engine>(&self, engine: &E) -> (r: bool)
        requires
            engine.inv(),
            self.spec_event().usable(engine@),
        ensures
            r == flag_from_wire(engine@.object(self.spec_event().ptr).is_trusted),
    ;

    fn time_stamp<E: Engine>(&self, engine: &E) -> (r: u64)
        requires
            engine.inv(),
            self.spec_event().usable(engine@),
        ensures
            r == engine@.object(self.spec_event().ptr).time_stamp,
    ;

    fn type_<E: Engine>(&self, engine: &E) -> (r: String)
        requires
            engine.inv(),
            self.spec_event().usable(engine@),
        ensures
            r@ == engine@.object(self.spec_event().ptr).type_,
    ;

    fn init_event<E: Engine>(
        &self,
        engine: &mut E,
        type_: &str,
        bubbles: bool,
        cancelable: bool,
        exception_state: &ExceptionState,
    ) -> (r: Result<(), String>)
        requires
            old(engine).inv(),
            self.spec_event().usable(old(engine)@),
            exception_state.wf(old(engine)@),
            is_c_text(type_@),
        ensures
            final(engine).inv(),
            old(engine)@.stepped(
                final(engine)@,
                Call::InitEvent {
                    ptr: self.spec_event().ptr,
                    type_: type_@,
                    bubbles: flag_to_wire(bubbles),
                    cancelable: flag_to_wire(cancelable),
                    exception_state: exception_state.ptr,
                },
            ),
            exception_state.reports(final(engine)@, r),
    ;

    fn prevent_default<E: Engine>(
        &self,
        engine: &mut E,
        exception_state: &ExceptionState,
    ) -> (r: Result<(), String>)
        requires
            old(engine).inv(),
            self.spec_event().usable(old(engine)@),
            exception_state.wf(old(engine)@),
        ensures
            final(engine).inv(),
            old(engine)@.stepped(
                final(engine)@,
                Call::PreventDefault {
                    ptr: self.spec_event().ptr,
                    exception_state: exception_state.ptr,
                },
            ),
            exception_state.reports(final(engine)@, r),
    ;

    fn stop_immediate_propagation<E: Engine>(
        &self,
        engine: &mut E,
        exception_state: &ExceptionState,
    ) -> (r: Result<(), String>)
        requires
            old(engine).inv(),
            self.spec_event().usable(old(engine)@),
            exception_state.wf(old(engine)@),
        ensures
            final(engine).inv(),
            old(engine)@.stepped(
                final(engine)@,
                Call::StopImmediatePropagation {
                    ptr: self.spec_event().ptr,
                    exception_state: exception_state.ptr,
                },
            ),
            exception_state.reports(final(engine)@, r),
    ;

    fn stop_propagation<E: Engine>(
        &self,
        engine: &mut E,
        exception_state: &ExceptionState,
    ) -> (r: Result<(), String>)
        requires
            old(engine).inv(),
            self.spec_event().usable(old(engine)@),
            exception_state.wf(old(engine)@),
        ensures
            final(engine).inv(),
            old(engine)@.stepped(
                final(engine)@,
                Call::StopPropagation {
                    ptr: self.spec_event().ptr,
                    exception_state: exception_state.ptr,
                },
            ),
            exception_state.reports(final(engine)@, r),
    ;

    fn as_event(&self) -> (e: &Event)
        ensures
            *e == self.spec_event(),
    ;
}

impl EventMethods for Event {
    open spec fn spec_event(&self) -> Event {
        *self
    }

    fn bubbles<E: Engine>(&self, engine: &E) -> (r: bool) {
        self.bubbles(engine)
    }

    fn cancel_bubble<E: Engine>(&self, engine: &E) -> (r: bool) {
        self.cancel_bubble(engine)
    }

    fn set_cancel_bubble<E: Engine>(
        &self,
        engine: &mut E,
        value: bool,
        exception_state: &ExceptionState,
    ) -> (r: Result<(), String>) {
        self.set_cancel_bubble(engine, value, exception_state)
    }

    fn cancelable<E: Engine>(&self, engine: &E) -> (r: bool) {
        self.cancelable(engine)
    }

    fn current_target<E: Engine>(&self, engine: &E) -> (r: EventTarget) {
        self.current_target(engine)
    }

    fn default_prevented<E: Engine>(&self, engine: &E) -> (r: bool) {
        self.default_prevented(engine)
    }

    fn src_element<E: Engine>(&self, engine: &E) -> (r: EventTarget) {
        self.src_element(engine)
    }

    fn target<E: Engine>(&self, engine: &E) -> (r: EventTarget) {
        self.target(engine)
    }

    fn is_trusted<E: Engine>(&self, engine: &E) -> (r: bool) {
        self.is_trusted(engine)
    }

    fn time_stamp<E: Engine>(&self, engine: &E) -> (r: u64) {
        self.time_stamp(engine)
    }

    fn type_<E: Engine>(&self, engine: &E) -> (r: String) {
        self.type_(engine)
    }

    fn init_event<E: Engine>(
        &self,
        engine: &mut E,
        type_: &str,
        bubbles: bool,
        cancelable: bool,
        exception_state: &ExceptionState,
    ) -> (r: Result<(), String>) {
        self.init_event(engine, type_, bubbles, cancelable, exception_state)
    }

    fn prevent_default<E: Engine>(
        &self,
        engine: &mut E,
        exception_state: &ExceptionState,
    ) -> (r: Result<(), String>) {
        self.prevent_default(engine, exception_state)
    }

    fn stop_immediate_propagation<E: Engine>(
        &self,
        engine: &mut E,
        exception_state: &ExceptionState,
    ) -> (r: Result<(), String>) {
        self.stop_immediate_propagation(engine, exception_state)
    }

    fn stop_propagation<E: Engine>(
        &self,
        engine: &mut E,
        exception_state: &ExceptionState,
    ) -> (r: Result<(), String>) {
        self.stop_propagation(engine, exception_state)
    }

    fn as_event(&self) -> (e: &Event) {
        self
    }
}

} // verus!
