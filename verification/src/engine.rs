//! The far side of the boundary.
//!
//! [`World`] is what the bindings can say of the engine's state: which handles
//! designate which objects, what each object would report, which statuses are
//! disposed, which exception states hold an exception, and which calls that
//! change the engine have been made so far. [`Engine`] lists the entry points
//! of the engine, each with what it promises over that state. The bindings are
//! proved against this contract alone; [`crate::local::LocalEngine`] is an
//! engine inside this process that is proved to keep it.

use crate::event::AnyEventRustMethods;
use crate::event_target::EventTargetRustMethods;
use crate::event_type::EventType;
use crate::node::NodeRustMethods;
use crate::window::WindowRustMethods;
use crate::wire::{OpaquePtr, RustValue, RustValueStatus};
use vstd::prelude::*;

verus! {

/// What an object of the engine is.
#[derive(Clone, Copy, PartialEq, Eq, Structural, Debug)]
pub enum ObjectKind {
    Event(EventType),
    EventTarget,
    Node,
    Window,
}

impl ObjectKind {
    /// Whether events can be dispatched to an object of this kind.
    pub open spec fn is_event_target(self) -> bool {
        self is EventTarget || self is Node || self is Window
    }

    /// Whether an object of this kind is an event of the given kind.
    pub open spec fn is_event_of(self, type_: EventType) -> bool {
        self matches ObjectKind::Event(t) && t.refines(type_)
    }
}

/// What one object of the engine would report if asked now. Identities of
/// other objects are natural numbers; a field that does not apply to the
/// object's kind has no meaning.
pub struct ForeignObject {
    pub kind: ObjectKind,
    /// Whether the engine has destroyed the object.
    pub disposed: bool,
    pub bubbles: i32,
    pub cancel_bubble: i32,
    pub cancelable: i32,
    pub default_prevented: i32,
    pub is_trusted: i32,
    pub time_stamp: u64,
    pub type_: Seq<char>,
    pub current_target: Option<nat>,
    pub src_element: Option<nat>,
    pub target: Option<nat>,
    pub detail: u64,
    pub which: u64,
    pub view: Option<nat>,
    pub code: i64,
    pub reason: Seq<char>,
    pub was_clean: i32,
    pub related_target: Option<nat>,
    pub children: Seq<nat>,
}

/// A call that may change the engine, with what was handed to it.
pub enum Call {
    CreateExceptionState { context: OpaquePtr },
    SetCancelBubble { ptr: OpaquePtr, value: i32, exception_state: OpaquePtr },
    InitEvent {
        ptr: OpaquePtr,
        type_: Seq<char>,
        bubbles: i32,
        cancelable: i32,
        exception_state: OpaquePtr,
    },
    PreventDefault { ptr: OpaquePtr, exception_state: OpaquePtr },
    StopImmediatePropagation { ptr: OpaquePtr, exception_state: OpaquePtr },
    StopPropagation { ptr: OpaquePtr, exception_state: OpaquePtr },
    Release { ptr: OpaquePtr },
    /// The dispatch of an event to a target, with what the engine answered.
    DispatchEvent { target: OpaquePtr, event: OpaquePtr, exception_state: OpaquePtr, reply: bool },
    AppendChild { self_node: OpaquePtr, new_node: OpaquePtr, exception_state: OpaquePtr },
    RemoveNode { self_node: OpaquePtr, target_node: OpaquePtr, exception_state: OpaquePtr },
}

/// The sequence without any occurrence of the value, the rest in order.
pub open spec fn without(s: Seq<nat>, x: nat) -> Seq<nat>
    decreases s.len(),
{
    if s.len() == 0 {
        Seq::empty()
    } else if s.last() == x {
        without(s.drop_last(), x)
    } else {
        without(s.drop_last(), x).push(s.last())
    }
}

/// How often a handle was released in a sequence of calls.
pub open spec fn releases(trace: Seq<Call>, ptr: OpaquePtr) -> nat
    decreases trace.len(),
{
    if trace.len() == 0 {
        0
    } else if trace.last() == (Call::Release { ptr }) {
        releases(trace.drop_last(), ptr) + 1
    } else {
        releases(trace.drop_last(), ptr)
    }
}

/// A call adds one to the releases of a handle if it is the release of that
/// handle, and nothing else.
pub proof fn releases_after_call(trace: Seq<Call>, call: Call, ptr: OpaquePtr)
    ensures
        releases(trace.push(call), ptr) == releases(trace, ptr) + if call == (Call::Release {
            ptr,
        }) {
            1nat
        } else {
            0nat
        },
{
    assert(trace.push(call).drop_last() =~= trace);
}

/// The state of the engine, as far as the bindings speak of it.
pub struct World {
    /// The object each handle designates. Several handles may designate one
    /// object.
    pub handles: Map<usize, nat>,
    pub objects: Map<nat, ForeignObject>,
    /// The liveness flags, by address: the object whose liveness each reports.
    /// One object may have several flags; they all say the same.
    pub statuses: Map<usize, nat>,
    /// The exception states, by address, with the text of the exception each
    /// holds, if it holds one.
    pub exceptions: Map<usize, Option<Seq<char>>>,
    /// The calls that may have changed the engine, oldest first.
    pub trace: Seq<Call>,
}

impl World {
    /// No handle, status or exception state lies at the null address; every
    /// handle designates an object that exists, and every status reports on
    /// one; an exception has a text that is not empty.
    pub open spec fn wf(self) -> bool {
        &&& !self.handles.contains_key(0)
        &&& !self.statuses.contains_key(0)
        &&& !self.exceptions.contains_key(0)
        &&& forall|a: usize| #[trigger]
            self.handles.contains_key(a) ==> self.objects.contains_key(self.handles[a])
        &&& forall|a: usize| #[trigger]
            self.statuses.contains_key(a) ==> self.objects.contains_key(self.statuses[a])
        &&& forall|a: usize| #[trigger]
            self.exceptions.contains_key(a) ==> (self.exceptions[a] matches Some(text)
                ==> text.len() > 0)
    }

    pub open spec fn is_object(self, ptr: OpaquePtr) -> bool {
        self.handles.contains_key(ptr.addr) && self.objects.contains_key(self.handles[ptr.addr])
    }

    /// The identity of the object a handle designates.
    pub open spec fn identity(self, ptr: OpaquePtr) -> nat {
        self.handles[ptr.addr]
    }

    pub open spec fn object(self, ptr: OpaquePtr) -> ForeignObject {
        self.objects[self.handles[ptr.addr]]
    }

    /// The handle designates an event that is, among other things, of the
    /// given kind.
    pub open spec fn is_event_of(self, ptr: OpaquePtr, type_: EventType) -> bool {
        self.is_object(ptr) && self.object(ptr).kind.is_event_of(type_)
    }

    pub open spec fn is_event(self, ptr: OpaquePtr) -> bool {
        self.is_object(ptr) && self.object(ptr).kind is Event
    }

    pub open spec fn is_event_target(self, ptr: OpaquePtr) -> bool {
        self.is_object(ptr) && self.object(ptr).kind.is_event_target()
    }

    pub open spec fn is_node(self, ptr: OpaquePtr) -> bool {
        self.is_object(ptr) && self.object(ptr).kind is Node
    }

    pub open spec fn is_window(self, ptr: OpaquePtr) -> bool {
        self.is_object(ptr) && self.object(ptr).kind is Window
    }

    pub open spec fn is_status(self, status: RustValueStatus) -> bool {
        self.statuses.contains_key(status.flag.addr) && self.objects.contains_key(
            self.statuses[status.flag.addr],
        )
    }

    /// What the flag says: whether the object it reports on is disposed.
    pub open spec fn disposed(self, status: RustValueStatus) -> bool {
        self.objects[self.statuses[status.flag.addr]].disposed
    }

    /// The flag exists and says that its object is not disposed.
    pub open spec fn is_live(self, status: RustValueStatus) -> bool {
        self.is_status(status) && !self.disposed(status)
    }

    /// The flag is the liveness flag of the object behind the handle.
    pub open spec fn reports_on(self, status: RustValueStatus, ptr: OpaquePtr) -> bool {
        self.is_status(status) && self.statuses[status.flag.addr] == self.identity(ptr)
    }

    pub open spec fn is_exception_state(self, exception_state: OpaquePtr) -> bool {
        self.exceptions.contains_key(exception_state.addr)
    }

    pub open spec fn has_exception(self, exception_state: OpaquePtr) -> bool {
        self.exceptions.contains_key(exception_state.addr)
            && self.exceptions[exception_state.addr] is Some
    }

    /// The text of the exception an exception state holds.
    pub open spec fn exception_text(self, exception_state: OpaquePtr) -> Seq<char> {
        self.exceptions[exception_state.addr]->0
    }

    /// What no call but a release changes: which handles and statuses exist,
    /// what they stand for, which objects exist, of what kind they are, and
    /// whether they are disposed. No exception state goes away.
    pub open spec fn same_shape(self, next: World) -> bool {
        &&& next.handles == self.handles
        &&& next.statuses == self.statuses
        &&& self.exceptions.dom().subset_of(next.exceptions.dom())
        &&& next.objects.dom() == self.objects.dom()
        &&& forall|id: nat| #[trigger]
            self.objects.contains_key(id) ==> {
                &&& next.objects[id].kind == self.objects[id].kind
                &&& next.objects[id].disposed == self.objects[id].disposed
            }
    }

    /// `next` is this state after the release of `ptr`: the call is on the
    /// trace, objects that were live may have been disposed, and nothing else
    /// differs.
    pub open spec fn released(self, next: World, ptr: OpaquePtr) -> bool {
        &&& next.handles == self.handles
        &&& next.statuses == self.statuses
        &&& next.exceptions == self.exceptions
        &&& next.trace == self.trace.push(Call::Release { ptr })
        &&& next.objects.dom() == self.objects.dom()
        &&& forall|id: nat| #[trigger]
            self.objects.contains_key(id) ==> {
                &&& next.objects[id] == (ForeignObject {
                    disposed: next.objects[id].disposed,
                    ..self.objects[id]
                })
                &&& self.objects[id].disposed ==> next.objects[id].disposed
            }
    }

    /// `next` is this state after exactly one call that may change the engine,
    /// namely `call`.
    pub open spec fn stepped(self, next: World, call: Call) -> bool {
        self.same_shape(next) && next.trace == self.trace.push(call)
    }

    /// This state after the engine was asked, under the given context, for an
    /// exception state and answered with the given address: the call is on the
    /// trace, and unless the address is null there is one more exception
    /// state, which holds no exception.
    pub open spec fn with_exception_state(
        self,
        context: OpaquePtr,
        exception_state: OpaquePtr,
    ) -> World {
        World {
            exceptions: if exception_state.is_null() {
                self.exceptions
            } else {
                self.exceptions.insert(exception_state.addr, None)
            },
            trace: self.trace.push(Call::CreateExceptionState { context }),
            ..self
        }
    }

    /// `next` is this state with one more object, behind a handle and a flag
    /// that were free.
    pub open spec fn grown(self, next: World, ptr: OpaquePtr, status: RustValueStatus) -> bool {
        &&& !self.handles.contains_key(ptr.addr)
        &&& !self.statuses.contains_key(status.flag.addr)
        &&& !self.objects.contains_key(next.identity(ptr))
        &&& next.handles == self.handles.insert(ptr.addr, next.identity(ptr))
        &&& next.statuses == self.statuses.insert(status.flag.addr, next.identity(ptr))
        &&& next.objects == self.objects.insert(next.identity(ptr), next.object(ptr))
        &&& next.exceptions == self.exceptions
        &&& next.trace == self.trace
    }

    /// The reply designates the event target with the given identity, or is
    /// null where there is none. Either way its table is of the right
    /// version.
    pub open spec fn vends_event_target(
        self,
        target: Option<nat>,
        reply: RustValue<EventTargetRustMethods>,
    ) -> bool {
        match target {
            None => reply.value.is_null() && reply.method_pointer.wf(),
            Some(id) => {
                &&& self.is_event_target(reply.value)
                &&& self.identity(reply.value) == id
                &&& reply.method_pointer.wf()
                &&& self.reports_on(reply.status, reply.value)
            },
        }
    }

    /// The reply designates the window with the given identity, or is null
    /// where there is none. Either way its table is of the right version.
    pub open spec fn vends_window(
        self,
        window: Option<nat>,
        reply: RustValue<WindowRustMethods>,
    ) -> bool {
        match window {
            None => reply.value.is_null() && reply.method_pointer.wf(),
            Some(id) => {
                &&& self.is_window(reply.value)
                &&& self.identity(reply.value) == id
                &&& reply.method_pointer.wf()
                &&& self.reports_on(reply.status, reply.value)
            },
        }
    }

    /// The reply designates the node with the given identity.
    pub open spec fn vends_node(self, id: nat, reply: RustValue<NodeRustMethods>) -> bool {
        &&& self.is_node(reply.value)
        &&& self.identity(reply.value) == id
        &&& reply.method_pointer.wf()
        &&& self.reports_on(reply.status, reply.value)
    }

    /// The reply to a downcast of the event behind `ptr` to the kind `type_`:
    /// null exactly if the event is not of that kind; else a handle for the
    /// same event, with the table of that kind.
    pub open spec fn vends_event(
        self,
        ptr: OpaquePtr,
        type_: EventType,
        reply: RustValue<AnyEventRustMethods>,
    ) -> bool {
        &&& reply.value.is_null() <==> !self.is_event_of(ptr, type_)
        &&& !reply.value.is_null() ==> {
            &&& self.is_object(reply.value)
            &&& self.identity(reply.value) == self.identity(ptr)
            &&& reply.method_pointer.event_type() == type_
            &&& reply.method_pointer.wf()
            &&& self.reports_on(reply.status, reply.value)
        }
    }

    /// The child list of `parent` in `next` is the one in this state with
    /// `child` moved to its end.
    pub open spec fn appended(self, next: World, parent: OpaquePtr, child: OpaquePtr) -> bool {
        next.object(parent).children == without(
            self.object(parent).children,
            self.identity(child),
        ).push(self.identity(child))
    }

    /// The child list of `parent` in `next` is the one in this state without
    /// `child`.
    pub open spec fn removed(self, next: World, parent: OpaquePtr, child: OpaquePtr) -> bool {
        next.object(parent).children == without(
            self.object(parent).children,
            self.identity(child),
        )
    }
}

/// Whether a text can be sent as a C string: it holds no NUL.
pub open spec fn is_c_text(text: Seq<char>) -> bool {
    forall|i: int| 0 <= i < text.len() ==> text[i] != '\0'
}

/// The entry points of the engine.
///
/// Flags come back as 32-bit integers and doubles as their bit patterns; a
/// reply that vends an object is a [`RustValue`]. An entry point that takes an
/// exception state may fail on the engine's side, and leaves an exception in
/// that state when it does. The entry points that only read take `&self` and
/// change nothing; each of the others adds itself to the trace.
///
/// Whatever is proved of the bindings is proved from these contracts. An
/// implementation outside this crate has to be held against them by hand.
pub trait Engine {
    spec fn view(&self) -> World;

    /// What holds of the engine between calls. It implies that the state is
    /// well-formed.
    spec fn inv(&self) -> bool;

    proof fn inv_implies_wf(&self)
        requires
            self.inv(),
        ensures
            self@.wf(),
    ;

    /// Reads a liveness flag.
    fn status_disposed(&self, status: RustValueStatus) -> (r: bool)
        requires
            self.inv(),
            self@.is_status(status),
        ensures
            r == self@.disposed(status),
    ;

    /// Whether the engine, as it is, can make one more exception state.
    spec fn can_make_exception_state(&self) -> bool;

    /// Makes an exception state under the given context. It holds no
    /// exception, and its address is that of no exception state the engine
    /// holds already. The address is null exactly where the engine can make
    /// none.
    fn create_exception_state(&mut self, context: OpaquePtr) -> (r: OpaquePtr)
        requires
            old(self).inv(),
        ensures
            final(self).inv(),
            r.is_null() <==> !old(self).can_make_exception_state(),
            !old(self)@.is_exception_state(r),
            final(self)@ == old(self)@.with_exception_state(context, r),
    ;

    fn exception_has_exception(&self, exception_state: OpaquePtr) -> (r: bool)
        requires
            self.inv(),
            self@.is_exception_state(exception_state),
        ensures
            r == self@.has_exception(exception_state),
    ;

    /// Renders the exception that an exception state holds as text.
    fn exception_stringify(&self, context: OpaquePtr, exception_state: OpaquePtr) -> (r: String)
        requires
            self.inv(),
            self@.is_exception_state(exception_state),
        ensures
            self@.has_exception(exception_state) ==> r@ == self@.exception_text(exception_state),
    ;

    /// Sends the event to the target and tells what came of it. The answer
    /// goes on the trace with the call.
    fn event_target_dispatch_event(
        &mut self,
        ptr: OpaquePtr,
        event: OpaquePtr,
        exception_state: OpaquePtr,
    ) -> (r: bool)
        requires
            old(self).inv(),
            old(self)@.is_event_target(ptr),
            old(self)@.is_event(event),
            old(self)@.is_exception_state(exception_state),
        ensures
            final(self).inv(),
            old(self)@.stepped(
                final(self)@,
                Call::DispatchEvent { target: ptr, event, exception_state, reply: r },
            ),
    ;

    fn event_bubbles(&self, ptr: OpaquePtr) -> (r: i32)
        requires
            self.inv(),
            self@.is_event(ptr),
        ensures
            r == self@.object(ptr).bubbles,
    ;

    fn event_cancel_bubble(&self, ptr: OpaquePtr) -> (r: i32)
        requires
            self.inv(),
            self@.is_event(ptr),
        ensures
            r == self@.object(ptr).cancel_bubble,
    ;

    fn event_set_cancel_bubble(&mut self, ptr: OpaquePtr, value: i32, exception_state: OpaquePtr)
        requires
            old(self).inv(),
            old(self)@.is_event(ptr),
            old(self)@.is_exception_state(exception_state),
        ensures
            final(self).inv(),
            old(self)@.stepped(
                final(self)@,
                Call::SetCancelBubble { ptr, value, exception_state },
            ),
    ;

    fn event_cancelable(&self, ptr: OpaquePtr) -> (r: i32)
        requires
            self.inv(),
            self@.is_event(ptr),
        ensures
            r == self@.object(ptr).cancelable,
    ;

    fn event_current_target(&self, ptr: OpaquePtr) -> (r: RustValue<EventTargetRustMethods>)
        requires
            self.inv(),
            self@.is_event(ptr),
        ensures
            self@.vends_event_target(self@.object(ptr).current_target, r),
    ;

    fn event_default_prevented(&self, ptr: OpaquePtr) -> (r: i32)
        requires
            self.inv(),
            self@.is_event(ptr),
        ensures
            r == self@.object(ptr).default_prevented,
    ;

    fn event_src_element(&self, ptr: OpaquePtr) -> (r: RustValue<EventTargetRustMethods>)
        requires
            self.inv(),
            self@.is_event(ptr),
        ensures
            self@.vends_event_target(self@.object(ptr).src_element, r),
    ;

    fn event_target(&self, ptr: OpaquePtr) -> (r: RustValue<EventTargetRustMethods>)
        requires
            self.inv(),
            self@.is_event(ptr),
        ensures
            self@.vends_event_target(self@.object(ptr).target, r),
    ;

    fn event_is_trusted(&self, ptr: OpaquePtr) -> (r: i32)
        requires
            self.inv(),
            self@.is_event(ptr),
        ensures
            r == self@.object(ptr).is_trusted,
    ;

    /// The time stamp, a double, as its bit pattern.
    fn event_time_stamp(&self, ptr: OpaquePtr) -> (r: u64)
        requires
            self.inv(),
            self@.is_event(ptr),
        ensures
            r == self@.object(ptr).time_stamp,
    ;

    fn event_type(&self, ptr: OpaquePtr) -> (r: String)
        requires
            self.inv(),
            self@.is_event(ptr),
        ensures
            r@ == self@.object(ptr).type_,
    ;

    fn event_init_event(
        &mut self,
        ptr: OpaquePtr,
        type_: &str,
        bubbles: i32,
        cancelable: i32,
        exception_state: OpaquePtr,
    )
        requires
            old(self).inv(),
            old(self)@.is_event(ptr),
            old(self)@.is_exception_state(exception_state),
            is_c_text(type_@),
        ensures
            final(self).inv(),
            old(self)@.stepped(
                final(self)@,
                Call::InitEvent { ptr, type_: type_@, bubbles, cancelable, exception_state },
            ),
    ;

    fn event_prevent_default(&mut self, ptr: OpaquePtr, exception_state: OpaquePtr)
        requires
            old(self).inv(),
            old(self)@.is_event(ptr),
            old(self)@.is_exception_state(exception_state),
        ensures
            final(self).inv(),
            old(self)@.stepped(final(self)@, Call::PreventDefault { ptr, exception_state }),
    ;

    fn event_stop_immediate_propagation(&mut self, ptr: OpaquePtr, exception_state: OpaquePtr)
        requires
            old(self).inv(),
            old(self)@.is_event(ptr),
            old(self)@.is_exception_state(exception_state),
        ensures
            final(self).inv(),
            old(self)@.stepped(
                final(self)@,
                Call::StopImmediatePropagation { ptr, exception_state },
            ),
    ;

    fn event_stop_propagation(&mut self, ptr: OpaquePtr, exception_state: OpaquePtr)
        requires
            old(self).inv(),
            old(self)@.is_event(ptr),
            old(self)@.is_exception_state(exception_state),
        ensures
            final(self).inv(),
            old(self)@.stepped(final(self)@, Call::StopPropagation { ptr, exception_state }),
    ;

    /// Tells the engine that one capability object for the event is gone. The
    /// engine may dispose objects on that; nothing else changes.
    fn event_release(&mut self, ptr: OpaquePtr)
        requires
            old(self).inv(),
            old(self)@.is_event(ptr),
        ensures
            final(self).inv(),
            old(self)@.released(final(self)@, ptr),
    ;

    /// The downcast dispatcher.
    fn event_dynamic_to(&self, ptr: OpaquePtr, type_: EventType) -> (r: RustValue<
        AnyEventRustMethods,
    >)
        requires
            self.inv(),
            self@.is_event(ptr),
        ensures
            self@.vends_event(ptr, type_, r),
    ;

    /// The detail of a UI event, a double, as its bit pattern.
    fn ui_event_detail(&self, ptr: OpaquePtr) -> (r: u64)
        requires
            self.inv(),
            self@.is_event_of(ptr, EventType::UIEvent),
        ensures
            r == self@.object(ptr).detail,
    ;

    fn ui_event_view(&self, ptr: OpaquePtr) -> (r: RustValue<WindowRustMethods>)
        requires
            self.inv(),
            self@.is_event_of(ptr, EventType::UIEvent),
        ensures
            self@.vends_window(self@.object(ptr).view, r),
    ;

    /// The key or button of a UI event, a double, as its bit pattern.
    fn ui_event_which(&self, ptr: OpaquePtr) -> (r: u64)
        requires
            self.inv(),
            self@.is_event_of(ptr, EventType::UIEvent),
        ensures
            r == self@.object(ptr).which,
    ;

    fn close_event_code(&self, ptr: OpaquePtr) -> (r: i64)
        requires
            self.inv(),
            self@.is_event_of(ptr, EventType::CloseEvent),
        ensures
            r == self@.object(ptr).code,
    ;

    fn close_event_reason(&self, ptr: OpaquePtr) -> (r: String)
        requires
            self.inv(),
            self@.is_event_of(ptr, EventType::CloseEvent),
        ensures
            r@ == self@.object(ptr).reason,
    ;

    fn close_event_was_clean(&self, ptr: OpaquePtr) -> (r: i32)
        requires
            self.inv(),
            self@.is_event_of(ptr, EventType::CloseEvent),
        ensures
            r == self@.object(ptr).was_clean,
    ;

    fn focus_event_related_target(&self, ptr: OpaquePtr) -> (r: RustValue<EventTargetRustMethods>)
        requires
            self.inv(),
            self@.is_event_of(ptr, EventType::FocusEvent),
        ensures
            self@.vends_event_target(self@.object(ptr).related_target, r),
    ;

    /// Moves `new_node` to the end of the children of `self_node`, unless the
    /// engine objects. Where it leaves no exception, the reply designates the
    /// node that was attached.
    fn node_append_child(
        &mut self,
        self_node: OpaquePtr,
        new_node: OpaquePtr,
        exception_state: OpaquePtr,
    ) -> (r: RustValue<NodeRustMethods>)
        requires
            old(self).inv(),
            old(self)@.is_node(self_node),
            old(self)@.is_node(new_node),
            old(self)@.is_exception_state(exception_state),
        ensures
            final(self).inv(),
            old(self)@.stepped(
                final(self)@,
                Call::AppendChild { self_node, new_node, exception_state },
            ),
            !final(self)@.has_exception(exception_state) ==> {
                &&& old(self)@.appended(final(self)@, self_node, new_node)
                &&& final(self)@.vends_node(old(self)@.identity(new_node), r)
            },
    ;

    /// Takes `target_node` out of the children of `self_node`, unless the
    /// engine objects. Where it leaves no exception, the reply designates the
    /// node that was detached.
    fn node_remove_node(
        &mut self,
        self_node: OpaquePtr,
        target_node: OpaquePtr,
        exception_state: OpaquePtr,
    ) -> (r: RustValue<NodeRustMethods>)
        requires
            old(self).inv(),
            old(self)@.is_node(self_node),
            old(self)@.is_node(target_node),
            old(self)@.is_exception_state(exception_state),
        ensures
            final(self).inv(),
            old(self)@.stepped(
                final(self)@,
                Call::RemoveNode { self_node, target_node, exception_state },
            ),
            !final(self)@.has_exception(exception_state) ==> {
                &&& old(self)@.removed(final(self)@, self_node, target_node)
                &&& final(self)@.vends_node(old(self)@.identity(target_node), r)
            },
    ;
}

} // verus!
