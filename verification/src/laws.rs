//! What holds of the bindings whatever the engine does, as long as it keeps
//! the contract of [`crate::engine::Engine`].

use crate::engine::{releases, releases_after_call, without, Call, ObjectKind, World};
use crate::close_event::CloseEvent;
use crate::event::Event;
use crate::event_target::EventTarget;
use crate::event_type::EventType;
use crate::fault::{message_is_not_empty, Fault};
use crate::focus_event::FocusEvent;
use crate::node::Node;
use crate::ui_event::UIEvent;
use crate::wire::{OpaquePtr, RustValueStatus};
use vstd::prelude::*;

verus! {

/// Giving a capability object up is one release of its handle, and of no
/// other handle.
pub proof fn release_counts_once(before: World, after: World, ptr: OpaquePtr, other: OpaquePtr)
    requires
        before.released(after, ptr),
    ensures
        releases(after.trace, ptr) == releases(before.trace, ptr) + 1,
        other != ptr ==> releases(after.trace, other) == releases(before.trace, other),
{
    releases_after_call(before.trace, Call::Release { ptr }, ptr);
    releases_after_call(before.trace, Call::Release { ptr }, other);
}

/// No call but a release is a release: whatever else is done with a
/// capability object, and however often, the releases of every handle stay as
/// they are.
pub proof fn other_calls_release_nothing(before: World, after: World, call: Call, ptr: OpaquePtr)
    requires
        before.stepped(after, call),
        !(call is Release),
    ensures
        releases(after.trace, ptr) == releases(before.trace, ptr),
{
    releases_after_call(before.trace, call, ptr);
}

/// Asking for an exception state is a call like any other that is no
/// release: it is one step of the engine, whatever comes back.
pub proof fn new_exception_state_is_a_step(before: World, context: OpaquePtr, made: OpaquePtr)
    ensures
        before.stepped(
            before.with_exception_state(context, made),
            Call::CreateExceptionState { context },
        ),
{
}

/// A call that is no release leaves every handle with the object it
/// designated, of the kind it was, and as live or disposed as it was. So a
/// capability object that could be used before the call can be used after it,
/// whether the call failed or not.
pub proof fn calls_keep_capabilities(
    before: World,
    after: World,
    call: Call,
    event: Event,
    type_: EventType,
)
    requires
        before.stepped(after, call),
    ensures
        event.wf(before) ==> event.wf(after),
        event.usable(before) ==> event.usable(after),
        before.is_event_of(event.ptr, type_) ==> after.is_event_of(event.ptr, type_),
        before.is_node(event.ptr) ==> after.is_node(event.ptr),
        before.is_event_target(event.ptr) ==> after.is_event_target(event.ptr),
{
}

/// A release leaves every handle with the object it designated and of the
/// kind it was, but objects may have been disposed: a capability object stays
/// well-formed, and whether it can still be used is for its flag to say.
pub proof fn release_keeps_capabilities(before: World, after: World, ptr: OpaquePtr, event: Event)
    requires
        before.released(after, ptr),
    ensures
        event.wf(before) ==> event.wf(after),
        !event.live(before) && event.wf(before) ==> !event.live(after),
{
}

/// Once the engine has disposed an object, no capability object for it can be
/// used, of whatever kind it is: no operation of the bindings is defined for
/// it. What is found wrong with it is that it is disposed, and there is
/// something to say of that.
pub proof fn disposed_is_a_fault(
    world: World,
    event: Event,
    ui_event: UIEvent,
    close_event: CloseEvent,
    focus_event: FocusEvent,
    event_target: EventTarget,
    node: Node,
)
    ensures
        world.disposed(event.status) ==> !event.usable(world) && event.spec_fault(world) == Some(
            Fault::Disposed,
        ),
        world.disposed(ui_event.event.status) ==> !ui_event.usable(world) && ui_event.spec_fault(
            world,
        ) == Some(Fault::Disposed),
        world.disposed(close_event.event.status) ==> !close_event.usable(world)
            && close_event.spec_fault(world) == Some(Fault::Disposed),
        world.disposed(focus_event.ui_event.event.status) ==> !focus_event.usable(world)
            && focus_event.spec_fault(world) == Some(Fault::Disposed),
        world.disposed(event_target.status) ==> !event_target.usable(world)
            && event_target.spec_fault(world) == Some(Fault::Disposed),
        world.disposed(node.event_target.status) ==> !node.usable(world) && node.spec_fault(world)
            == Some(Fault::Disposed),
        Fault::Disposed.spec_message().len() > 0,
{
    message_is_not_empty(Fault::Disposed);
}

/// A capability object without a context cannot be used either.
pub proof fn no_context_is_a_fault(world: World, event: Event, node: Node)
    ensures
        event.context.is_null() ==> !event.usable(world),
        event.context.is_null() && !world.disposed(event.status) ==> event.spec_fault(world)
            == Some(Fault::NullContext),
        node.event_target.context.is_null() ==> !node.usable(world),
        Fault::NullContext.spec_message().len() > 0,
{
    message_is_not_empty(Fault::NullContext);
}

/// An event is of the kind it was made as: the downcast to that kind is owed
/// success.
pub proof fn own_kind_is_accepted(world: World, ptr: OpaquePtr, actual: EventType)
    requires
        world.is_object(ptr),
        world.object(ptr).kind == ObjectKind::Event(actual),
    ensures
        world.is_event_of(ptr, actual),
        world.is_event_of(ptr, EventType::Event),
{
    crate::event_type::refines_is_an_order(actual, actual, actual);
}

/// An event is of no kind but those its own kind refines: the downcast to any
/// other kind is owed the failure.
pub proof fn other_kinds_are_refused(
    world: World,
    ptr: OpaquePtr,
    actual: EventType,
    target: EventType,
)
    requires
        world.is_object(ptr),
        world.object(ptr).kind == ObjectKind::Event(actual),
        !actual.refines(target),
    ensures
        !world.is_event_of(ptr, target),
{
}

/// Two handles for one object are answered alike, and two flags of one object
/// say the same: a capability object that a downcast has made reads what the
/// one it was made from reads, and is disposed when that one is.
pub proof fn one_object_one_answer(
    world: World,
    a: OpaquePtr,
    b: OpaquePtr,
    a_status: RustValueStatus,
    b_status: RustValueStatus,
)
    requires
        world.identity(a) == world.identity(b),
        world.reports_on(a_status, a),
        world.reports_on(b_status, b),
    ensures
        world.object(a) == world.object(b),
        world.is_live(a_status) == world.is_live(b_status),
{
}

/// Taking a value out of a sequence that does not hold it changes nothing.
pub proof fn without_absent(s: Seq<nat>, x: nat)
    requires
        !s.contains(x),
    ensures
        without(s, x) == s,
    decreases s.len(),
{
    if s.len() > 0 {
        assert(s.last() == s[s.len() - 1]);
        assert forall|i: int| 0 <= i < s.drop_last().len() implies s.drop_last()[i] != x by {
            assert(s.drop_last()[i] == s[i]);
        }
        without_absent(s.drop_last(), x);
        assert(s.drop_last().push(s.last()) =~= s);
    }
}

/// What is left after taking a value out does not hold it.
pub proof fn without_holds_no_more(s: Seq<nat>, x: nat)
    ensures
        !without(s, x).contains(x),
    decreases s.len(),
{
    if s.len() > 0 {
        without_holds_no_more(s.drop_last(), x);
        let rest = without(s.drop_last(), x);
        if s.last() != x {
            assert forall|i: int| 0 <= i < rest.push(s.last()).len() implies rest.push(s.last())[i]
                != x by {
                if i < rest.len() {
                    assert(rest.contains(rest[i]));
                }
            }
        }
    }
}

/// Attaching a node and detaching it at once leaves the parent with the
/// children it had, but for the node itself; with exactly the children it had
/// where the node was not among them.
pub proof fn append_then_remove_restores(
    start: World,
    attached: World,
    detached: World,
    parent: OpaquePtr,
    child: OpaquePtr,
)
    requires
        start.appended(attached, parent, child),
        attached.removed(detached, parent, child),
        attached.identity(child) == start.identity(child),
    ensures
        detached.object(parent).children == without(
            start.object(parent).children,
            start.identity(child),
        ),
        !start.object(parent).children.contains(start.identity(child)) ==> detached.object(
            parent,
        ).children == start.object(parent).children,
{
    let c = start.identity(child);
    let was = start.object(parent).children;
    let kept = without(was, c);
    without_holds_no_more(was, c);
    without_absent(kept, c);
    assert(kept.push(c).drop_last() =~= kept);
    if !was.contains(c) {
        without_absent(was, c);
    }
}

} // verus!
