//! An engine inside this process.
//!
//! [`LocalEngine`] keeps events and nodes in a vector and answers every entry
//! point of [`Engine`] from it. It is proved to keep the contract of `Engine`,
//! so whatever is proved of the bindings holds when they run against it. It can
//! be told to fail the next call that takes an exception state, and it fails by
//! itself where a node is attached to itself or a node is detached from a
//! parent that does not hold it.

use crate::engine::{
    releases, releases_after_call, without, Call, Engine, ForeignObject, ObjectKind, World,
};
use crate::event::{AnyEventRustMethods, EventRustMethods};
use crate::event_target::EventTargetRustMethods;
use crate::event_type::EventType;
use crate::executing_context::ExecutingContext;
use crate::node::NodeRustMethods;
use crate::window::WindowRustMethods;
use crate::wire::{flag_to_wire, OpaquePtr, RustValue, RustValueStatus};
use vstd::prelude::*;

verus! {

/// One object of the engine. An object sits at an index of the vector; its
/// handle and its liveness flag both lie at the address one above the index.
struct LocalObject {
    kind: ObjectKind,
    disposed: bool,
    releases: u64,
    bubbles: bool,
    cancel_bubble: bool,
    cancelable: bool,
    default_prevented: bool,
    is_trusted: bool,
    time_stamp: u64,
    type_: String,
    target: Option<usize>,
    current_target: Option<usize>,
    detail: u64,
    which: u64,
    code: i64,
    reason: String,
    was_clean: bool,
    related_target: Option<usize>,
    children: Vec<usize>,
}

spec fn reference(r: Option<usize>) -> Option<nat> {
    match r {
        Some(i) => Some(i as nat),
        None => None,
    }
}

spec fn ids(s: Seq<usize>) -> Seq<nat> {
    s.map_values(|i: usize| i as nat)
}

spec fn text(t: Option<String>) -> Option<Seq<char>> {
    match t {
        Some(s) => Some(s@),
        None => None,
    }
}

spec fn object_view(o: LocalObject) -> ForeignObject {
    ForeignObject {
        kind: o.kind,
        disposed: o.disposed,
        bubbles: flag_to_wire(o.bubbles),
        cancel_bubble: flag_to_wire(o.cancel_bubble),
        cancelable: flag_to_wire(o.cancelable),
        default_prevented: flag_to_wire(o.default_prevented),
        is_trusted: flag_to_wire(o.is_trusted),
        time_stamp: o.time_stamp,
        type_: o.type_@,
        current_target: reference(o.current_target),
        src_element: reference(o.target),
        target: reference(o.target),
        detail: o.detail,
        which: o.which,
        view: None,
        code: o.code,
        reason: o.reason@,
        was_clean: flag_to_wire(o.was_clean),
        related_target: reference(o.related_target),
        children: ids(o.children@),
    }
}

/// An engine that lives in this process.
pub struct LocalEngine {
    objects: Vec<LocalObject>,
    exceptions: Vec<Option<String>>,
    /// The text of the exception that the next call with an exception state
    /// is to raise.
    pending: Option<String>,
    trace: Ghost<Seq<Call>>,
}

/// The elements of the vector but `c`, in order.
fn without_index(v: &Vec<usize>, c: usize) -> (r: Vec<usize>)
    ensures
        ids(r@) == without(ids(v@), c as nat),
        forall|k: int| 0 <= k < r.len() ==> v@.contains(#[trigger] r[k]),
{
    let mut r: Vec<usize> = Vec::new();
    let mut k: usize = 0;
    assert(v@.take(0) =~= Seq::<usize>::empty());
    assert(ids(r@) =~= Seq::<nat>::empty());
    while k < v.len()
        invariant
            k <= v.len(),
            ids(r@) == without(ids(v@.take(k as int)), c as nat),
            forall|j: int| 0 <= j < r.len() ==> v@.contains(#[trigger] r[j]),
        decreases v.len() - k,
    {
        proof {
            let next = v@.take(k + 1);
            assert(next.drop_last() =~= v@.take(k as int));
            assert(ids(next).drop_last() =~= ids(v@.take(k as int)));
            assert(ids(next).last() == v[k as int] as nat);
        }
        if v[k] != c {
            let ghost before = r@;
            r.push(v[k]);
            assert(ids(r@) =~= ids(before).push(v[k as int] as nat));
        }
        k = k + 1;
    }
    assert(v@.take(v.len() as int) =~= v@);
    r
}

fn holds(v: &Vec<usize>, c: usize) -> (r: bool)
    ensures
        r == v@.contains(c),
{
    let mut k: usize = 0;
    while k < v.len()
        invariant
            k <= v.len(),
            forall|j: int| 0 <= j < k ==> v[j] != c,
        decreases v.len() - k,
    {
        if v[k] == c {
            return true;
        }
        k = k + 1;
    }
    false
}

/// What the engine says where a node is to become its own child.
pub open spec fn own_child_text() -> Seq<char> {
    "HierarchyRequestError: a node cannot be its own child"@
}

/// What the engine says where a node is to leave a parent that does not hold
/// it.
pub open spec fn no_child_text() -> Seq<char> {
    "NotFoundError: the node is not a child of this node"@
}

/// `after` is `before` after a call that failed: the exception state holds an
/// exception with the given text, the call is on the trace, and nothing else
/// differs.
pub open spec fn failed(
    before: World,
    after: World,
    call: Call,
    exception_state: OpaquePtr,
    text: Seq<char>,
) -> bool {
    after == (World {
        exceptions: before.exceptions.insert(exception_state.addr, Some(text)),
        trace: before.trace.push(call),
        ..before
    })
}

/// `after` is `before` after a call that went through: the object behind the
/// handle is now `object`, the call is on the trace, and nothing else differs.
pub open spec fn changed(
    before: World,
    after: World,
    call: Call,
    ptr: OpaquePtr,
    object: ForeignObject,
) -> bool {
    after == (World {
        objects: before.objects.insert(before.identity(ptr), object),
        trace: before.trace.push(call),
        ..before
    })
}

/// The objects after `child` has become the last child of `parent`: it is
/// the last child of `parent`, and a child of nothing else.
pub open spec fn attached(objects: Map<nat, ForeignObject>, parent: nat, child: nat) -> Map<
    nat,
    ForeignObject,
> {
    Map::new(
        |id: nat| objects.contains_key(id),
        |id: nat|
            ForeignObject {
                children: if id == parent {
                    without(objects[id].children, child).push(child)
                } else {
                    without(objects[id].children, child)
                },
                ..objects[id]
            },
    )
}

/// The objects after `child` has left the children of `parent`.
pub open spec fn detached(objects: Map<nat, ForeignObject>, parent: nat, child: nat) -> Map<
    nat,
    ForeignObject,
> {
    objects.insert(
        parent,
        ForeignObject { children: without(objects[parent].children, child), ..objects[parent] },
    )
}

/// What an event is when the engine has just made it.
pub open spec fn fresh_event(kind: EventType, type_: Seq<char>, bubbles: bool, cancelable: bool)
    -> ForeignObject {
    ForeignObject {
        kind: ObjectKind::Event(kind),
        disposed: false,
        bubbles: flag_to_wire(bubbles),
        cancel_bubble: 0,
        cancelable: flag_to_wire(cancelable),
        default_prevented: 0,
        is_trusted: 0,
        time_stamp: 0,
        type_,
        current_target: None,
        src_element: None,
        target: None,
        detail: 0,
        which: 0,
        view: None,
        code: 0,
        reason: Seq::empty(),
        was_clean: 0,
        related_target: None,
        children: Seq::empty(),
    }
}

/// What a node is when the engine has just made it: no event, and no child.
pub open spec fn fresh_node() -> ForeignObject {
    ForeignObject {
        kind: ObjectKind::Node,
        ..fresh_event(EventType::Event, Seq::empty(), false, false)
    }
}

/// The two are one object but for their children.
spec fn same_but_children(a: LocalObject, b: LocalObject) -> bool {
    b == (LocalObject { children: b.children, ..a })
}

/// A list of indices holds an index exactly if the list of identities holds
/// its identity.
proof fn lemma_ids_hold(s: Seq<usize>, c: usize)
    ensures
        ids(s).contains(c as nat) <==> s.contains(c),
{
    if s.contains(c) {
        let k = choose|k: int| 0 <= k < s.len() && s[k] == c;
        assert(ids(s)[k] == c as nat);
    }
    if ids(s).contains(c as nat) {
        let k = choose|k: int| 0 <= k < ids(s).len() && ids(s)[k] == c as nat;
        assert(s[k] == c);
    }
}

impl LocalEngine {
    spec fn target_ok(&self, r: Option<usize>) -> bool {
        r matches Some(t) ==> {
            &&& t < self.objects.len()
            &&& self.objects[t as int].kind.is_event_target()
        }
    }

    spec fn refs_ok(&self, o: LocalObject) -> bool {
        &&& self.target_ok(o.target)
        &&& self.target_ok(o.current_target)
        &&& self.target_ok(o.related_target)
        &&& forall|k: int|
            0 <= k < o.children.len() ==> #[trigger] o.children[k] < self.objects.len()
    }

    spec fn texts_ok(&self) -> bool {
        &&& forall|j: int|
            0 <= j < self.exceptions.len() ==> (#[trigger] self.exceptions[j] matches Some(t)
                ==> t@.len() > 0)
        &&& self.pending matches Some(t) ==> t@.len() > 0
    }

    /// The counter of every object says how often its handle was released,
    /// as far as a counter can.
    spec fn counts_ok(&self) -> bool {
        &&& forall|i: int|
            0 <= i < self.objects.len() ==> (#[trigger] self.objects[i]).releases
                == vstd::math::min(
                releases(self.trace@, OpaquePtr { addr: (i + 1) as usize }) as int,
                u64::MAX as int,
            )
        &&& forall|a: usize|
            a == 0 || a > self.objects.len() ==> #[trigger] releases(
                self.trace@,
                OpaquePtr { addr: a },
            ) == 0
    }

    /// Between the two states the objects kept their number, kind, liveness,
    /// counter and what they point to; the exception states kept their number.
    spec fn same_frame(&self, after: &LocalEngine) -> bool {
        &&& after.objects.len() == self.objects.len()
        &&& after.exceptions.len() == self.exceptions.len()
        &&& forall|i: int|
            0 <= i < self.objects.len() ==> {
                &&& (#[trigger] after.objects[i]).kind == self.objects[i].kind
                &&& after.objects[i].disposed == self.objects[i].disposed
                &&& after.objects[i].releases == self.objects[i].releases
                &&& after.objects[i].target == self.objects[i].target
                &&& after.objects[i].current_target == self.objects[i].current_target
                &&& after.objects[i].related_target == self.objects[i].related_target
            }
    }

    /// Between the two states no list of children changed.
    spec fn same_children(&self, after: &LocalEngine) -> bool {
        forall|i: int|
            0 <= i < self.objects.len() ==> (#[trigger] after.objects[i]).children@
                == self.objects[i].children@
    }

    spec fn children_ok(&self) -> bool {
        forall|i: int, k: int|
            0 <= i < self.objects.len() && 0 <= k < self.objects[i].children.len()
                ==> #[trigger] self.objects[i].children[k] < self.objects.len()
    }

    proof fn lemma_same_frame(&self, after: &LocalEngine)
        requires
            self.inv(),
            self.same_frame(after),
            after.texts_ok(),
            after.children_ok(),
            after.counts_ok(),
        ensures
            after.inv(),
            after@.handles == self@.handles,
            after@.statuses == self@.statuses,
            after@.exceptions.dom() == self@.exceptions.dom(),
            after@.objects.dom() == self@.objects.dom(),
            forall|id: nat| #[trigger]
                self@.objects.contains_key(id) ==> {
                    &&& after@.objects[id].kind == self@.objects[id].kind
                    &&& after@.objects[id].disposed == self@.objects[id].disposed
                },
    {
        assert(after@.handles =~= self@.handles);
        assert(after@.statuses =~= self@.statuses);
        assert(after@.exceptions.dom() =~= self@.exceptions.dom());
        assert(after@.objects.dom() =~= self@.objects.dom());
        assert forall|i: int| 0 <= i < after.objects.len() implies after.refs_ok(
            #[trigger] after.objects[i],
        ) by {
            assert(self.refs_ok(self.objects[i]));
        }
    }

    /// What is left to show after a change to the objects that keeps their
    /// number and counters and leaves all else alone.
    proof fn lemma_rebuilt(&self, after: &LocalEngine)
        requires
            self.inv(),
            after.objects.len() == self.objects.len(),
            after.exceptions == self.exceptions,
            after.pending == self.pending,
            after.trace == self.trace,
            forall|i: int|
                0 <= i < self.objects.len() ==> (#[trigger] after.objects[i]).releases
                    == self.objects[i].releases,
            forall|i: int|
                0 <= i < after.objects.len() ==> after.refs_ok(#[trigger] after.objects[i]),
        ensures
            after.inv(),
            after@.handles == self@.handles,
            after@.statuses == self@.statuses,
            after@.exceptions == self@.exceptions,
            after@.trace == self@.trace,
            after@.objects.dom() == self@.objects.dom(),
    {
        assert(after@.handles =~= self@.handles);
        assert(after@.statuses =~= self@.statuses);
        assert(after@.exceptions =~= self@.exceptions);
        assert(after@.objects.dom() =~= self@.objects.dom());
    }

    /// The counters stay right when a call that releases nothing is made.
    proof fn lemma_counts(&self, after: &LocalEngine, call: Call)
        requires
            self.counts_ok(),
            after.objects.len() == self.objects.len(),
            forall|i: int|
                0 <= i < self.objects.len() ==> (#[trigger] after.objects[i]).releases
                    == self.objects[i].releases,
            after.trace@ == self.trace@.push(call),
            !(call is Release),
        ensures
            after.counts_ok(),
    {
        assert forall|a: usize| a == 0 || a > after.objects.len() implies #[trigger] releases(
            after.trace@,
            OpaquePtr { addr: a },
        ) == 0 by {
            releases_after_call(self.trace@, call, OpaquePtr { addr: a });
        }
        assert forall|i: int|
            0 <= i < after.objects.len() implies (#[trigger] after.objects[i]).releases
            == vstd::math::min(
            releases(after.trace@, OpaquePtr { addr: (i + 1) as usize }) as int,
            u64::MAX as int,
        ) by {
            releases_after_call(self.trace@, call, OpaquePtr { addr: (i + 1) as usize });
            assert(self.objects[i].releases == after.objects[i].releases);
        }
    }

    proof fn lemma_children_kept(&self, after: &LocalEngine)
        requires
            self.inv(),
            after.objects.len() == self.objects.len(),
            self.same_children(after),
        ensures
            after.children_ok(),
    {
        assert forall|i: int, k: int|
            0 <= i < after.objects.len() && 0 <= k < after.objects[i].children.len() implies #[trigger] after.objects[i].children[k]
            < after.objects.len() by {
            assert(self.refs_ok(self.objects[i]));
            assert(after.objects[i].children@ == self.objects[i].children@);
            assert(self.objects[i].children[k] < self.objects.len());
        }
    }

    /// What is left to show after a call that edits no list of children and
    /// releases nothing.
    proof fn lemma_step(&self, after: &LocalEngine, call: Call)
        requires
            self.inv(),
            self.same_frame(after),
            self.same_children(after),
            after.texts_ok(),
            after.trace@ == self.trace@.push(call),
            !(call is Release),
        ensures
            after.inv(),
            self@.stepped(after@, call),
    {
        self.lemma_children_kept(after);
        self.lemma_counts(after, call);
        self.lemma_same_frame(after);
    }

    /// What the view says of a handle, in terms of the vector.
    proof fn lemma_view(&self, ptr: OpaquePtr)
        requires
            self.inv(),
        ensures
            self@.is_object(ptr) <==> 1 <= ptr.addr <= self.objects.len(),
            self@.is_object(ptr) ==> {
                &&& self@.identity(ptr) == ptr.addr - 1
                &&& self@.object(ptr) == object_view(self.objects[ptr.addr - 1])
                &&& self@.reports_on(RustValueStatus { flag: ptr }, ptr)
                &&& self@.disposed(RustValueStatus { flag: ptr }) == self.objects[ptr.addr
                    - 1].disposed
            },
    {
    }

    /// After a call that left an exception and changed nothing else.
    proof fn lemma_raised(
        &self,
        after: &LocalEngine,
        call: Call,
        exception_state: OpaquePtr,
        message: String,
    )
        requires
            self.inv(),
            self@.is_exception_state(exception_state),
            message@.len() > 0,
            after.objects == self.objects,
            after.exceptions@ == self.exceptions@.update(exception_state.addr - 1, Some(message)),
            after.pending is None,
            after.trace@ == self.trace@.push(call),
            !(call is Release),
        ensures
            after.inv(),
            self@.stepped(after@, call),
            failed(self@, after@, call, exception_state, message@),
            after.pending_failure() is None,
    {
        self.lemma_step(after, call);
        assert(after@.exceptions =~= self@.exceptions.insert(
            exception_state.addr,
            Some(message@),
        ));
        assert(after@.objects =~= self@.objects);
    }

    /// After a call that changed one object, but neither its kind, nor whether
    /// it is disposed, nor what it points to or holds.
    proof fn lemma_changed(&self, after: &LocalEngine, call: Call, ptr: OpaquePtr)
        requires
            self.inv(),
            self@.is_object(ptr),
            after.objects@ =~= self.objects@.update(ptr.addr - 1, after.objects[ptr.addr - 1]),
            after.objects[ptr.addr - 1].kind == self.objects[ptr.addr - 1].kind,
            after.objects[ptr.addr - 1].disposed == self.objects[ptr.addr - 1].disposed,
            after.objects[ptr.addr - 1].releases == self.objects[ptr.addr - 1].releases,
            after.objects[ptr.addr - 1].target == self.objects[ptr.addr - 1].target,
            after.objects[ptr.addr - 1].current_target == self.objects[ptr.addr
                - 1].current_target,
            after.objects[ptr.addr - 1].related_target == self.objects[ptr.addr
                - 1].related_target,
            after.objects[ptr.addr - 1].children == self.objects[ptr.addr - 1].children,
            after.exceptions == self.exceptions,
            after.pending == self.pending,
            after.trace@ == self.trace@.push(call),
            !(call is Release),
        ensures
            after.inv(),
            self@.stepped(after@, call),
            changed(self@, after@, call, ptr, object_view(after.objects[ptr.addr - 1])),
    {
        self.lemma_view(ptr);
        self.lemma_step(after, call);
        assert(after@.exceptions =~= self@.exceptions);
        assert(after@.objects =~= self@.objects.insert(
            self@.identity(ptr),
            object_view(after.objects[ptr.addr - 1]),
        ));
    }

    /// The counters after the release of a handle.
    proof fn lemma_counts_released(&self, after: &LocalEngine, ptr: OpaquePtr)
        requires
            self.counts_ok(),
            1 <= ptr.addr <= self.objects.len(),
            after.objects.len() == self.objects.len(),
            forall|i: int|
                0 <= i < self.objects.len() && i != ptr.addr - 1
                    ==> (#[trigger] after.objects[i]).releases
                    == self.objects[i].releases,
            after.objects[ptr.addr - 1].releases == if self.objects[ptr.addr - 1].releases
                < u64::MAX {
                self.objects[ptr.addr - 1].releases + 1
            } else {
                u64::MAX as int
            },
            after.trace@ == self.trace@.push(Call::Release { ptr }),
        ensures
            after.counts_ok(),
    {
        let call = Call::Release { ptr };
        assert forall|a: usize| a == 0 || a > after.objects.len() implies #[trigger] releases(
            after.trace@,
            OpaquePtr { addr: a },
        ) == 0 by {
            releases_after_call(self.trace@, call, OpaquePtr { addr: a });
        }
        assert forall|i: int|
            0 <= i < after.objects.len() implies (#[trigger] after.objects[i]).releases
            == vstd::math::min(
            releases(after.trace@, OpaquePtr { addr: (i + 1) as usize }) as int,
            u64::MAX as int,
        ) by {
            releases_after_call(self.trace@, call, OpaquePtr { addr: (i + 1) as usize });
            assert(self.objects[i].releases == vstd::math::min(
                releases(self.trace@, OpaquePtr { addr: (i + 1) as usize }) as int,
                u64::MAX as int,
            ));
            if i == ptr.addr - 1 {
                assert(OpaquePtr { addr: (i + 1) as usize } == ptr);
            }
        }
    }

    /// After the release of a handle.
    proof fn lemma_released(&self, after: &LocalEngine, ptr: OpaquePtr)
        requires
            self.inv(),
            self@.is_object(ptr),
            after.objects@ =~= self.objects@.update(ptr.addr - 1, after.objects[ptr.addr - 1]),
            after.objects[ptr.addr - 1] == (LocalObject {
                releases: after.objects[ptr.addr - 1].releases,
                ..self.objects[ptr.addr - 1]
            }),
            after.objects[ptr.addr - 1].releases == if self.objects[ptr.addr - 1].releases
                < u64::MAX {
                self.objects[ptr.addr - 1].releases + 1
            } else {
                u64::MAX as int
            },
            after.exceptions == self.exceptions,
            after.pending == self.pending,
            after.trace@ == self.trace@.push(Call::Release { ptr }),
        ensures
            after.inv(),
            after@ == (World { trace: self@.trace.push(Call::Release { ptr }), ..self@ }),
    {
        self.lemma_view(ptr);
        self.lemma_counts_released(after, ptr);
        assert forall|i: int| 0 <= i < after.objects.len() implies after.refs_ok(
            #[trigger] after.objects[i],
        ) by {
            assert(self.refs_ok(self.objects[i]));
        }
        assert(after@.handles =~= self@.handles);
        assert(after@.statuses =~= self@.statuses);
        assert(after@.exceptions =~= self@.exceptions);
        assert forall|id: nat| self@.objects.contains_key(id) implies #[trigger] after@.objects[id]
            == self@.objects[id] by {
            assert(object_view(after.objects[id as int]) == object_view(self.objects[id as int]));
        }
        assert(after@.objects =~= self@.objects);
    }

    /// After a call that gave one object another target, and changed nothing
    /// else.
    proof fn lemma_sent(&self, after: &LocalEngine, call: Call, event: OpaquePtr, target: OpaquePtr)
        requires
            self.inv(),
            self@.is_object(event),
            self@.is_event_target(target),
            after.objects@ =~= self.objects@.update(event.addr - 1, after.objects[event.addr - 1]),
            after.objects[event.addr - 1] == (LocalObject {
                target: Some((target.addr - 1) as usize),
                current_target: Some((target.addr - 1) as usize),
                ..self.objects[event.addr - 1]
            }),
            after.exceptions == self.exceptions,
            after.pending == self.pending,
            after.trace@ == self.trace@.push(call),
            !(call is Release),
        ensures
            after.inv(),
            self@.stepped(after@, call),
            changed(
                self@,
                after@,
                call,
                event,
                ForeignObject {
                    target: Some(self@.identity(target)),
                    src_element: Some(self@.identity(target)),
                    current_target: Some(self@.identity(target)),
                    ..self@.object(event)
                },
            ),
    {
        self.lemma_view(event);
        self.lemma_view(target);
        self.lemma_children_kept(after);
        self.lemma_counts(after, call);
        assert forall|i: int| 0 <= i < after.objects.len() implies after.refs_ok(
            #[trigger] after.objects[i],
        ) by {
            assert(self.refs_ok(self.objects[i]));
        }
        assert(after@.handles =~= self@.handles);
        assert(after@.statuses =~= self@.statuses);
        assert(after@.exceptions =~= self@.exceptions);
        let sent = ForeignObject {
            target: Some(self@.identity(target)),
            src_element: Some(self@.identity(target)),
            current_target: Some(self@.identity(target)),
            ..self@.object(event)
        };
        assert(object_view(after.objects[event.addr - 1]) == sent);
        assert forall|id: nat|
            after@.objects.contains_key(id) implies #[trigger] after@.objects[id]
            == self@.objects.insert(self@.identity(event), sent)[id] by {
            if id != event.addr - 1 {
                assert(after.objects[id as int] == self.objects[id as int]);
            }
        }
        assert(after@.objects =~= self@.objects.insert(self@.identity(event), sent));
    }

    /// Leaves an exception with the given text in the exception state.
    fn raise(&mut self, exception_state: OpaquePtr, message: String)
        requires
            old(self).inv(),
            old(self)@.is_exception_state(exception_state),
            message@.len() > 0,
        ensures
            final(self).objects == old(self).objects,
            final(self).exceptions@ == old(self).exceptions@.update(
                exception_state.addr - 1,
                Some(message),
            ),
            final(self).trace == old(self).trace,
            final(self).pending == old(self).pending,
    {
        self.exceptions[exception_state.addr - 1] = Some(message);
    }

    /// Raises the pending failure, if there is one.
    fn fail(&mut self, exception_state: OpaquePtr) -> (raised: Option<Ghost<String>>)
        requires
            old(self).inv(),
            old(self)@.is_exception_state(exception_state),
        ensures
            final(self).objects == old(self).objects,
            final(self).trace == old(self).trace,
            final(self).pending is None,
            raised is Some <==> old(self).pending is Some,
            raised matches Some(message) ==> {
                &&& old(self).pending == Some(message@)
                &&& final(self).exceptions@ == old(self).exceptions@.update(
                    exception_state.addr - 1,
                    Some(message@),
                )
            },
            raised is None ==> final(self).exceptions == old(self).exceptions,
    {
        match self.pending.take() {
            Some(message) => {
                let ghost text = message;
                self.exceptions[exception_state.addr - 1] = Some(message);
                Some(Ghost(text))
            },
            None => None,
        }
    }

    /// Takes `child` out of every list of children.
    fn detach_everywhere(&mut self, child: usize)
        requires
            old(self).inv(),
        ensures
            final(self).objects.len() == old(self).objects.len(),
            final(self).exceptions == old(self).exceptions,
            final(self).pending == old(self).pending,
            final(self).trace == old(self).trace,
            forall|i: int|
                0 <= i < old(self).objects.len() ==> {
                    &&& same_but_children(old(self).objects[i], #[trigger] final(self).objects[i])
                    &&& ids(final(self).objects[i].children@) == without(
                        ids(old(self).objects[i].children@),
                        child as nat,
                    )
                    &&& forall|k: int|
                        0 <= k < final(self).objects[i].children.len()
                            ==> #[trigger] final(self).objects[i].children[k] < old(
                            self,
                        ).objects.len()
                },
    {
        let ghost before = *self;
        let n: usize = self.objects.len();
        let mut j: usize = 0;
        while j < n
            invariant
                before.inv(),
                n == self.objects.len(),
                n == before.objects.len(),
                j <= n,
                self.exceptions == before.exceptions,
                self.pending == before.pending,
                self.trace == before.trace,
                forall|i: int|
                    0 <= i < j ==> {
                        &&& same_but_children(before.objects[i], #[trigger] self.objects[i])
                        &&& ids(self.objects[i].children@) == without(
                            ids(before.objects[i].children@),
                            child as nat,
                        )
                        &&& forall|k: int|
                            0 <= k < self.objects[i].children.len()
                                ==> #[trigger] self.objects[i].children[k] < n
                    },
                forall|i: int| j <= i < n ==> #[trigger] self.objects[i] == before.objects[i],
            decreases n - j,
        {
            let kept = without_index(&self.objects[j].children, child);
            proof {
                assert(before.refs_ok(before.objects[j as int]));
                assert forall|k: int| 0 <= k < kept.len() implies #[trigger] kept[k] < n by {
                    let w = choose|w: int|
                        0 <= w < before.objects[j as int].children.len()
                            && before.objects[j as int].children[w] == kept[k];
                    assert(before.objects[j as int].children[w] < n);
                }
            }
            self.objects[j].children = kept;
            j = j + 1;
        }
    }

    fn vend_target(&self, r: Option<usize>) -> (v: RustValue<EventTargetRustMethods>)
        requires
            self.inv(),
            self.target_ok(r),
        ensures
            self@.vends_event_target(reference(r), v),
    {
        match r {
            Some(t) => {
                let ptr = OpaquePtr { addr: t + 1 };
                proof {
                    self.lemma_view(ptr);
                }
                RustValue {
                    value: ptr,
                    method_pointer: EventTargetRustMethods::current(),
                    status: RustValueStatus { flag: ptr },
                }
            },
            None => RustValue {
                value: OpaquePtr::null(),
                method_pointer: EventTargetRustMethods::current(),
                status: RustValueStatus { flag: OpaquePtr::null() },
            },
        }
    }

    fn vend_node(&self, ptr: OpaquePtr) -> (v: RustValue<NodeRustMethods>)
        requires
            self.inv(),
            self@.is_node(ptr),
        ensures
            self@.vends_node(self@.identity(ptr), v),
            v.value == ptr,
    {
        proof {
            self.lemma_view(ptr);
        }
        RustValue {
            value: ptr,
            method_pointer: NodeRustMethods::current(),
            status: RustValueStatus { flag: ptr },
        }
    }

    fn no_node() -> (v: RustValue<NodeRustMethods>)
        ensures
            v.value.is_null(),
    {
        RustValue {
            value: OpaquePtr::null(),
            method_pointer: NodeRustMethods::current(),
            status: RustValueStatus { flag: OpaquePtr::null() },
        }
    }
}

impl LocalEngine {
    /// The text of the exception that the next call with an exception state
    /// will raise, if one was asked for.
    pub closed spec fn pending_failure(&self) -> Option<Seq<char>> {
        text(self.pending)
    }

    /// Whether one more object can be made.
    pub closed spec fn has_room(&self) -> bool {
        self.objects.len() < usize::MAX - 1
    }

    /// An engine without any object.
    pub fn new() -> (e: LocalEngine)
        ensures
            e.inv(),
            e.has_room(),
            e.pending_failure() is None,
            e@ == (World {
                handles: Map::empty(),
                objects: Map::empty(),
                statuses: Map::empty(),
                exceptions: Map::empty(),
                trace: Seq::empty(),
            }),
    {
        let e = LocalEngine {
            objects: Vec::new(),
            exceptions: Vec::new(),
            pending: None,
            trace: Ghost(Seq::empty()),
        };
        proof {
            assert(e@.handles =~= Map::empty());
            assert(e@.objects =~= Map::empty());
            assert(e@.statuses =~= Map::empty());
            assert(e@.exceptions =~= Map::empty());
            assert forall|a: usize| #[trigger]
                releases(e.trace@, OpaquePtr { addr: a }) == 0 by {}
        }
        e
    }

    /// The one context of the engine.
    pub fn context(&self) -> (c: ExecutingContext)
        ensures
            !c.is_null(),
            c.ptr.addr == 1,
    {
        ExecutingContext { ptr: OpaquePtr { addr: 1 } }
    }

    fn blank(kind: ObjectKind) -> (o: LocalObject)
        ensures
            object_view(o) == (ForeignObject {
                kind,
                ..fresh_event(EventType::Event, Seq::empty(), false, false)
            }),
            o.releases == 0,
            o.target is None,
            o.current_target is None,
            o.related_target is None,
            o.children@.len() == 0,
    {
        let o = LocalObject {
            kind,
            disposed: false,
            releases: 0,
            bubbles: false,
            cancel_bubble: false,
            cancelable: false,
            default_prevented: false,
            is_trusted: false,
            time_stamp: 0,
            type_: String::new(),
            target: None,
            current_target: None,
            detail: 0,
            which: 0,
            code: 0,
            reason: String::new(),
            was_clean: false,
            related_target: None,
            children: Vec::new(),
        };
        assert(ids(o.children@) =~= Seq::<nat>::empty());
        o
    }

    /// Puts one more object into the engine, if there is room.
    fn add(&mut self, object: LocalObject) -> (ptr: OpaquePtr)
        requires
            old(self).inv(),
            old(self).refs_ok(object),
            object.releases == 0,
        ensures
            final(self).inv(),
            final(self).pending == old(self).pending,
            ptr.is_null() <==> !old(self).has_room(),
            ptr.is_null() ==> final(self)@ == old(self)@,
            !ptr.is_null() ==> {
                &&& old(self)@.grown(final(self)@, ptr, RustValueStatus { flag: ptr })
                &&& final(self)@.object(ptr) == object_view(object)
                &&& final(self)@.reports_on(RustValueStatus { flag: ptr }, ptr)
            },
    {
        if self.objects.len() >= usize::MAX - 1 {
            return OpaquePtr::null();
        }
        self.objects.push(object);
        let ptr = OpaquePtr { addr: self.objects.len() };
        proof {
            let id = (ptr.addr - 1) as nat;
            assert forall|i: int| 0 <= i < self.objects.len() implies self.refs_ok(
                #[trigger] self.objects[i],
            ) by {
                if i < old(self).objects.len() {
                    assert(old(self).refs_ok(old(self).objects[i]));
                }
            }
            assert(self@.handles =~= old(self)@.handles.insert(ptr.addr, id));
            assert(self@.statuses =~= old(self)@.statuses.insert(ptr.addr, id));
            assert(self@.objects =~= old(self)@.objects.insert(id, object_view(object)));
            assert(self@.exceptions =~= old(self)@.exceptions);
        }
        ptr
    }

    fn vend_event(ptr: OpaquePtr) -> (v: RustValue<EventRustMethods>)
        ensures
            v.value == ptr,
            v.status == (RustValueStatus { flag: ptr }),
            v.method_pointer.wf(),
    {
        RustValue {
            value: ptr,
            method_pointer: EventRustMethods::current(),
            status: RustValueStatus { flag: ptr },
        }
    }

    /// Makes an event of the given kind and hands it over as an event of no
    /// particular kind. Where there is no room, the handle is null and nothing
    /// changes.
    pub fn add_event(
        &mut self,
        kind: EventType,
        type_: &str,
        bubbles: bool,
        cancelable: bool,
    ) -> (r: RustValue<EventRustMethods>)
        requires
            old(self).inv(),
        ensures
            final(self).inv(),
            final(self).pending_failure() == old(self).pending_failure(),
            r.value.is_null() <==> !old(self).has_room(),
            r.value.is_null() ==> final(self)@ == old(self)@,
            !r.value.is_null() ==> {
                &&& old(self)@.grown(final(self)@, r.value, r.status)
                &&& final(self)@.object(r.value) == fresh_event(kind, type_@, bubbles, cancelable)
                &&& final(self)@.reports_on(r.status, r.value)
                &&& r.method_pointer.wf()
            },
    {
        let mut object = Self::blank(ObjectKind::Event(kind));
        object.type_ = type_.to_owned();
        object.bubbles = bubbles;
        object.cancelable = cancelable;
        let ptr = self.add(object);
        Self::vend_event(ptr)
    }

    /// Makes a close event, as `add_event` makes an event.
    pub fn add_close_event(
        &mut self,
        type_: &str,
        code: i64,
        reason: &str,
        was_clean: bool,
    ) -> (r: RustValue<EventRustMethods>)
        requires
            old(self).inv(),
        ensures
            final(self).inv(),
            final(self).pending_failure() == old(self).pending_failure(),
            r.value.is_null() <==> !old(self).has_room(),
            r.value.is_null() ==> final(self)@ == old(self)@,
            !r.value.is_null() ==> {
                &&& old(self)@.grown(final(self)@, r.value, r.status)
                &&& final(self)@.object(r.value) == (ForeignObject {
                    code,
                    reason: reason@,
                    was_clean: flag_to_wire(was_clean),
                    ..fresh_event(EventType::CloseEvent, type_@, false, false)
                })
                &&& final(self)@.reports_on(r.status, r.value)
                &&& r.method_pointer.wf()
            },
    {
        let mut object = Self::blank(ObjectKind::Event(EventType::CloseEvent));
        object.type_ = type_.to_owned();
        object.code = code;
        object.reason = reason.to_owned();
        object.was_clean = was_clean;
        let ptr = self.add(object);
        Self::vend_event(ptr)
    }

    /// Makes a focus event whose related target is the given event target, or
    /// none where that handle is null. Where the handle is neither null nor
    /// that of an event target, or there is no room, the handle of the result
    /// is null and nothing changes.
    pub fn add_focus_event(&mut self, type_: &str, related_target: OpaquePtr) -> (r: RustValue<
        EventRustMethods,
    >)
        requires
            old(self).inv(),
        ensures
            final(self).inv(),
            final(self).pending_failure() == old(self).pending_failure(),
            !r.value.is_null() <==> old(self).has_room() && (related_target.is_null()
                || old(self)@.is_event_target(related_target)),
            r.value.is_null() ==> final(self)@ == old(self)@,
            !r.value.is_null() ==> {
                &&& old(self)@.grown(final(self)@, r.value, r.status)
                &&& final(self)@.object(r.value) == (ForeignObject {
                    related_target: if related_target.is_null() {
                        None
                    } else {
                        Some(old(self)@.identity(related_target))
                    },
                    ..fresh_event(EventType::FocusEvent, type_@, false, false)
                })
                &&& final(self)@.reports_on(r.status, r.value)
                &&& r.method_pointer.wf()
            },
    {
        proof {
            self.lemma_view(related_target);
        }
        let mut object = Self::blank(ObjectKind::Event(EventType::FocusEvent));
        object.type_ = type_.to_owned();
        if !related_target.is_null() {
            if related_target.addr > self.objects.len() {
                return Self::vend_event(OpaquePtr::null());
            }
            match self.objects[related_target.addr - 1].kind {
                ObjectKind::Event(_) => {
                    return Self::vend_event(OpaquePtr::null());
                },
                _ => {},
            }
            object.related_target = Some(related_target.addr - 1);
        }
        let ptr = self.add(object);
        Self::vend_event(ptr)
    }

    /// Makes a node without children. Where there is no room, the handle is
    /// null and nothing changes.
    pub fn add_node(&mut self) -> (r: RustValue<NodeRustMethods>)
        requires
            old(self).inv(),
        ensures
            final(self).inv(),
            final(self).pending_failure() == old(self).pending_failure(),
            r.value.is_null() <==> !old(self).has_room(),
            r.value.is_null() ==> final(self)@ == old(self)@,
            !r.value.is_null() ==> {
                &&& old(self)@.grown(final(self)@, r.value, r.status)
                &&& final(self)@.object(r.value) == fresh_node()
                &&& final(self)@.reports_on(r.status, r.value)
                &&& r.method_pointer.wf()
            },
    {
        let object = Self::blank(ObjectKind::Node);
        let ptr = self.add(object);
        RustValue {
            value: ptr,
            method_pointer: NodeRustMethods::current(),
            status: RustValueStatus { flag: ptr },
        }
    }

    /// Destroys the object behind the handle, as the engine may at any time
    /// between two calls of the bindings. The result is whether there is such
    /// an object.
    pub fn dispose(&mut self, ptr: OpaquePtr) -> (r: bool)
        requires
            old(self).inv(),
        ensures
            final(self).inv(),
            final(self).pending_failure() == old(self).pending_failure(),
            r == old(self)@.is_object(ptr),
            !r ==> final(self)@ == old(self)@,
            r ==> final(self)@ == (World {
                objects: old(self)@.objects.insert(
                    old(self)@.identity(ptr),
                    ForeignObject { disposed: true, ..old(self)@.object(ptr) },
                ),
                ..old(self)@
            }),
    {
        proof {
            self.lemma_view(ptr);
        }
        if ptr.addr == 0 || ptr.addr > self.objects.len() {
            return false;
        }
        let i: usize = ptr.addr - 1;
        self.objects[i].disposed = true;
        proof {
            assert forall|j: int| 0 <= j < self.objects.len() implies self.refs_ok(
                #[trigger] self.objects[j],
            ) by {
                assert(old(self).refs_ok(old(self).objects[j]));
            }
            old(self).lemma_rebuilt(self);
            let gone = ForeignObject { disposed: true, ..old(self)@.object(ptr) };
            assert(object_view(self.objects[i as int]) == gone);
            assert forall|id: nat|
                self@.objects.contains_key(id) implies #[trigger] self@.objects[id]
                == old(self)@.objects.insert(i as nat, gone)[id] by {
                if id != i {
                    assert(self.objects[id as int] == old(self).objects[id as int]);
                }
            }
            assert(self@.objects =~= old(self)@.objects.insert(i as nat, gone));
        }
        true
    }

    /// Makes the next call that takes an exception state fail with the given
    /// text. An empty text is no failure: nothing changes, and the result is
    /// false.
    pub fn fail_next(&mut self, message: &str) -> (r: bool)
        requires
            old(self).inv(),
        ensures
            final(self).inv(),
            final(self)@ == old(self)@,
            r == (message@.len() > 0),
            final(self).pending_failure() == if r {
                Some(message@)
            } else {
                old(self).pending_failure()
            },
    {
        if message.unicode_len() == 0 {
            return false;
        }
        self.pending = Some(message.to_owned());
        proof {
            old(self).lemma_children_kept(self);
            old(self).lemma_same_frame(self);
            assert(self@.exceptions =~= old(self)@.exceptions);
            assert(self@.objects =~= old(self)@.objects);
        }
        true
    }

    /// The children of a node, first to last, each as a handle. Empty where
    /// the handle is not that of a node.
    pub fn children(&self, node: OpaquePtr) -> (r: Vec<OpaquePtr>)
        requires
            self.inv(),
        ensures
            !self@.is_node(node) ==> r@.len() == 0,
            self@.is_node(node) ==> {
                &&& r@.len() == self@.object(node).children.len()
                &&& forall|k: int|
                    0 <= k < r@.len() ==> self@.is_object(#[trigger] r[k]) && self@.identity(r[k])
                        == self@.object(node).children[k]
            },
    {
        proof {
            self.lemma_view(node);
        }
        let mut r: Vec<OpaquePtr> = Vec::new();
        if node.addr == 0 || node.addr > self.objects.len() {
            return r;
        }
        let i: usize = node.addr - 1;
        match self.objects[i].kind {
            ObjectKind::Node => {},
            _ => {
                return r;
            },
        }
        assert(self.refs_ok(self.objects[i as int]));
        let mut k: usize = 0;
        while k < self.objects[i].children.len()
            invariant
                self.inv(),
                i < self.objects.len(),
                k <= self.objects[i as int].children.len(),
                self.refs_ok(self.objects[i as int]),
                r@.len() == k,
                forall|j: int|
                    0 <= j < k ==> (#[trigger] r[j]).addr == self.objects[i as int].children[j] + 1,
            decreases self.objects[i as int].children.len() - k,
        {
            let child: usize = self.objects[i].children[k];
            r.push(OpaquePtr { addr: child + 1 });
            k = k + 1;
        }
        proof {
            assert forall|j: int| 0 <= j < r@.len() implies self@.is_object(#[trigger] r[j])
                && self@.identity(r[j]) == self@.object(node).children[j] by {
                self.lemma_view(r[j]);
            }
        }
        r
    }

    /// How often the handle was released, as far as the engine can count.
    /// Zero where the handle designates nothing.
    pub fn release_calls(&self, ptr: OpaquePtr) -> (r: u64)
        requires
            self.inv(),
        ensures
            r == vstd::math::min(releases(self@.trace, ptr) as int, u64::MAX as int),
    {
        assert(ptr == OpaquePtr { addr: ptr.addr });
        if ptr.addr == 0 || ptr.addr > self.objects.len() {
            assert(releases(self.trace@, OpaquePtr { addr: ptr.addr }) == 0);
            return 0;
        }
        assert(OpaquePtr { addr: ((ptr.addr - 1) + 1) as usize } == ptr);
        self.objects[ptr.addr - 1].releases
    }
}

impl Engine for LocalEngine {
    closed spec fn view(&self) -> World {
        World {
            handles: Map::new(
                |a: usize| 1 <= a <= self.objects.len(),
                |a: usize| (a - 1) as nat,
            ),
            objects: Map::new(
                |id: nat| id < self.objects.len(),
                |id: nat| object_view(self.objects[id as int]),
            ),
            statuses: Map::new(
                |a: usize| 1 <= a <= self.objects.len(),
                |a: usize| (a - 1) as nat,
            ),
            exceptions: Map::new(
                |a: usize| 1 <= a <= self.exceptions.len(),
                |a: usize| text(self.exceptions[a - 1]),
            ),
            trace: self.trace@,
        }
    }

    closed spec fn inv(&self) -> bool {
        &&& self.objects.len() < usize::MAX
        &&& self.exceptions.len() < usize::MAX
        &&& forall|i: int|
            0 <= i < self.objects.len() ==> self.refs_ok(#[trigger] self.objects[i])
        &&& self.texts_ok()
        &&& self.counts_ok()
    }

    proof fn inv_implies_wf(&self) {
    }

    fn status_disposed(&self, status: RustValueStatus) -> (r: bool) {
        self.objects[status.flag.addr - 1].disposed
    }

    closed spec fn can_make_exception_state(&self) -> bool {
        self.exceptions.len() < usize::MAX - 1
    }

    fn create_exception_state(&mut self, context: OpaquePtr) -> (r: OpaquePtr)
        ensures
            final(self).pending_failure() == old(self).pending_failure(),
    {
        let ghost before = *self;
        let ghost call = Call::CreateExceptionState { context };
        let r = if self.exceptions.len() >= usize::MAX - 1 {
            OpaquePtr::null()
        } else {
            self.exceptions.push(None);
            OpaquePtr { addr: self.exceptions.len() }
        };
        proof {
            self.trace@ = self.trace@.push(call);
            before.lemma_children_kept(self);
            before.lemma_counts(self, call);
            assert(self@.exceptions =~= before@.with_exception_state(context, r).exceptions);
            assert(self@.handles =~= before@.handles);
            assert(self@.statuses =~= before@.statuses);
            assert(self@.objects =~= before@.objects);
            assert forall|i: int| 0 <= i < self.objects.len() implies self.refs_ok(
                #[trigger] self.objects[i],
            ) by {
                assert(before.refs_ok(before.objects[i]));
            }
        }
        r
    }

    fn exception_has_exception(&self, exception_state: OpaquePtr) -> (r: bool) {
        self.exceptions[exception_state.addr - 1].is_some()
    }

    fn exception_stringify(&self, context: OpaquePtr, exception_state: OpaquePtr) -> (r: String)
        ensures
            !self@.has_exception(exception_state) ==> r@.len() == 0,
    {
        match &self.exceptions[exception_state.addr - 1] {
            Some(message) => message.clone(),
            None => String::new(),
        }
    }

    fn event_target_dispatch_event(
        &mut self,
        ptr: OpaquePtr,
        event: OpaquePtr,
        exception_state: OpaquePtr,
    ) -> (r: bool)
        ensures
            final(self).pending_failure() is None,
            match old(self).pending_failure() {
                Some(text) => !r && failed(
                    old(self)@,
                    final(self)@,
                    Call::DispatchEvent { target: ptr, event, exception_state, reply: false },
                    exception_state,
                    text,
                ),
                None => {
                    &&& r == (old(self)@.object(event).default_prevented == 0)
                    &&& changed(
                        old(self)@,
                        final(self)@,
                        Call::DispatchEvent { target: ptr, event, exception_state, reply: r },
                        event,
                        ForeignObject {
                            target: Some(old(self)@.identity(ptr)),
                            src_element: Some(old(self)@.identity(ptr)),
                            current_target: Some(old(self)@.identity(ptr)),
                            ..old(self)@.object(event)
                        },
                    )
                },
            },
    {
        let ghost before = *self;
        proof {
            before.lemma_view(ptr);
            before.lemma_view(event);
        }
        match self.fail(exception_state) {
            Some(message) => {
                proof {
                    let call = Call::DispatchEvent {
                        target: ptr,
                        event,
                        exception_state,
                        reply: false,
                    };
                    self.trace@ = self.trace@.push(call);
                    before.lemma_raised(self, call, exception_state, message@);
                }
                false
            },
            None => {
                let e: usize = event.addr - 1;
                let t: usize = ptr.addr - 1;
                let r = !self.objects[e].default_prevented;
                self.objects[e].target = Some(t);
                self.objects[e].current_target = Some(t);
                proof {
                    let call = Call::DispatchEvent { target: ptr, event, exception_state, reply: r };
                    self.trace@ = self.trace@.push(call);
                    before.lemma_sent(self, call, event, ptr);
                }
                r
            },
        }
    }

    fn event_bubbles(&self, ptr: OpaquePtr) -> (r: i32) {
        flag_to_wire(self.objects[ptr.addr - 1].bubbles)
    }

    fn event_cancel_bubble(&self, ptr: OpaquePtr) -> (r: i32) {
        flag_to_wire(self.objects[ptr.addr - 1].cancel_bubble)
    }

    fn event_set_cancel_bubble(&mut self, ptr: OpaquePtr, value: i32, exception_state: OpaquePtr)
        ensures
            final(self).pending_failure() is None,
            match old(self).pending_failure() {
                Some(text) => failed(
                    old(self)@,
                    final(self)@,
                    Call::SetCancelBubble { ptr, value, exception_state },
                    exception_state,
                    text,
                ),
                None => changed(
                    old(self)@,
                    final(self)@,
                    Call::SetCancelBubble { ptr, value, exception_state },
                    ptr,
                    ForeignObject {
                        cancel_bubble: if value != 0 {
                            1
                        } else {
                            old(self)@.object(ptr).cancel_bubble
                        },
                        ..old(self)@.object(ptr)
                    },
                ),
            },
    {
        let ghost before = *self;
        let ghost call = Call::SetCancelBubble { ptr, value, exception_state };
        proof {
            before.lemma_view(ptr);
        }
        match self.fail(exception_state) {
            Some(message) => {
                proof {
                    self.trace@ = self.trace@.push(call);
                    before.lemma_raised(self, call, exception_state, message@);
                }
            },
            None => {
                let i: usize = ptr.addr - 1;
                if value != 0 {
                    self.objects[i].cancel_bubble = true;
                }
                proof {
                    self.trace@ = self.trace@.push(call);
                    before.lemma_changed(self, call, ptr);
                }
            },
        }
    }

    fn event_cancelable(&self, ptr: OpaquePtr) -> (r: i32) {
        flag_to_wire(self.objects[ptr.addr - 1].cancelable)
    }

    fn event_current_target(&self, ptr: OpaquePtr) -> (r: RustValue<EventTargetRustMethods>) {
        self.vend_target(self.objects[ptr.addr - 1].current_target)
    }

    fn event_default_prevented(&self, ptr: OpaquePtr) -> (r: i32) {
        flag_to_wire(self.objects[ptr.addr - 1].default_prevented)
    }

    fn event_src_element(&self, ptr: OpaquePtr) -> (r: RustValue<EventTargetRustMethods>) {
        self.vend_target(self.objects[ptr.addr - 1].target)
    }

    fn event_target(&self, ptr: OpaquePtr) -> (r: RustValue<EventTargetRustMethods>) {
        self.vend_target(self.objects[ptr.addr - 1].target)
    }

    fn event_is_trusted(&self, ptr: OpaquePtr) -> (r: i32) {
        flag_to_wire(self.objects[ptr.addr - 1].is_trusted)
    }

    fn event_time_stamp(&self, ptr: OpaquePtr) -> (r: u64) {
        self.objects[ptr.addr - 1].time_stamp
    }

    fn event_type(&self, ptr: OpaquePtr) -> (r: String) {
        self.objects[ptr.addr - 1].type_.clone()
    }

    fn event_init_event(
        &mut self,
        ptr: OpaquePtr,
        type_: &str,
        bubbles: i32,
        cancelable: i32,
        exception_state: OpaquePtr,
    )
        ensures
            final(self).pending_failure() is None,
            match old(self).pending_failure() {
                Some(text) => failed(
                    old(self)@,
                    final(self)@,
                    Call::InitEvent { ptr, type_: type_@, bubbles, cancelable, exception_state },
                    exception_state,
                    text,
                ),
                None => changed(
                    old(self)@,
                    final(self)@,
                    Call::InitEvent { ptr, type_: type_@, bubbles, cancelable, exception_state },
                    ptr,
                    ForeignObject {
                        type_: type_@,
                        bubbles: flag_to_wire(bubbles != 0),
                        cancelable: flag_to_wire(cancelable != 0),
                        cancel_bubble: 0,
                        default_prevented: 0,
                        ..old(self)@.object(ptr)
                    },
                ),
            },
    {
        let ghost before = *self;
        let ghost call = Call::InitEvent {
            ptr,
            type_: type_@,
            bubbles,
            cancelable,
            exception_state,
        };
        proof {
            before.lemma_view(ptr);
        }
        match self.fail(exception_state) {
            Some(message) => {
                proof {
                    self.trace@ = self.trace@.push(call);
                    before.lemma_raised(self, call, exception_state, message@);
                }
            },
            None => {
                let i: usize = ptr.addr - 1;
                self.objects[i].type_ = type_.to_owned();
                self.objects[i].bubbles = bubbles != 0;
                self.objects[i].cancelable = cancelable != 0;
                self.objects[i].cancel_bubble = false;
                self.objects[i].default_prevented = false;
                proof {
                    self.trace@ = self.trace@.push(call);
                    before.lemma_changed(self, call, ptr);
                }
            },
        }
    }

    fn event_prevent_default(&mut self, ptr: OpaquePtr, exception_state: OpaquePtr)
        ensures
            final(self).pending_failure() is None,
            match old(self).pending_failure() {
                Some(text) => failed(
                    old(self)@,
                    final(self)@,
                    Call::PreventDefault { ptr, exception_state },
                    exception_state,
                    text,
                ),
                None => changed(
                    old(self)@,
                    final(self)@,
                    Call::PreventDefault { ptr, exception_state },
                    ptr,
                    ForeignObject {
                        default_prevented: if old(self)@.object(ptr).cancelable != 0 {
                            1
                        } else {
                            old(self)@.object(ptr).default_prevented
                        },
                        ..old(self)@.object(ptr)
                    },
                ),
            },
    {
        let ghost before = *self;
        let ghost call = Call::PreventDefault { ptr, exception_state };
        proof {
            before.lemma_view(ptr);
        }
        match self.fail(exception_state) {
            Some(message) => {
                proof {
                    self.trace@ = self.trace@.push(call);
                    before.lemma_raised(self, call, exception_state, message@);
                }
            },
            None => {
                let i: usize = ptr.addr - 1;
                if self.objects[i].cancelable {
                    self.objects[i].default_prevented = true;
                }
                proof {
                    self.trace@ = self.trace@.push(call);
                    before.lemma_changed(self, call, ptr);
                }
            },
        }
    }

    fn event_stop_immediate_propagation(&mut self, ptr: OpaquePtr, exception_state: OpaquePtr)
        ensures
            final(self).pending_failure() is None,
            match old(self).pending_failure() {
                Some(text) => failed(
                    old(self)@,
                    final(self)@,
                    Call::StopImmediatePropagation { ptr, exception_state },
                    exception_state,
                    text,
                ),
                None => changed(
                    old(self)@,
                    final(self)@,
                    Call::StopImmediatePropagation { ptr, exception_state },
                    ptr,
                    ForeignObject { cancel_bubble: 1, ..old(self)@.object(ptr) },
                ),
            },
    {
        let ghost before = *self;
        let ghost call = Call::StopImmediatePropagation { ptr, exception_state };
        proof {
            before.lemma_view(ptr);
        }
        match self.fail(exception_state) {
            Some(message) => {
                proof {
                    self.trace@ = self.trace@.push(call);
                    before.lemma_raised(self, call, exception_state, message@);
                }
            },
            None => {
                let i: usize = ptr.addr - 1;
                self.objects[i].cancel_bubble = true;
                proof {
                    self.trace@ = self.trace@.push(call);
                    before.lemma_changed(self, call, ptr);
                }
            },
        }
    }

    fn event_stop_propagation(&mut self, ptr: OpaquePtr, exception_state: OpaquePtr)
        ensures
            final(self).pending_failure() is None,
            match old(self).pending_failure() {
                Some(text) => failed(
                    old(self)@,
                    final(self)@,
                    Call::StopPropagation { ptr, exception_state },
                    exception_state,
                    text,
                ),
                None => changed(
                    old(self)@,
                    final(self)@,
                    Call::StopPropagation { ptr, exception_state },
                    ptr,
                    ForeignObject { cancel_bubble: 1, ..old(self)@.object(ptr) },
                ),
            },
    {
        let ghost before = *self;
        let ghost call = Call::StopPropagation { ptr, exception_state };
        proof {
            before.lemma_view(ptr);
        }
        match self.fail(exception_state) {
            Some(message) => {
                proof {
                    self.trace@ = self.trace@.push(call);
                    before.lemma_raised(self, call, exception_state, message@);
                }
            },
            None => {
                let i: usize = ptr.addr - 1;
                self.objects[i].cancel_bubble = true;
                proof {
                    self.trace@ = self.trace@.push(call);
                    before.lemma_changed(self, call, ptr);
                }
            },
        }
    }

    fn event_release(&mut self, ptr: OpaquePtr)
        ensures
            final(self).pending_failure() == old(self).pending_failure(),
            final(self)@ == (World {
                trace: old(self)@.trace.push(Call::Release { ptr }),
                ..old(self)@
            }),
    {
        let ghost before = *self;
        let i: usize = ptr.addr - 1;
        if self.objects[i].releases < u64::MAX {
            self.objects[i].releases = self.objects[i].releases + 1;
        }
        proof {
            self.trace@ = self.trace@.push(Call::Release { ptr });
            before.lemma_released(self, ptr);
        }
    }

    fn event_dynamic_to(&self, ptr: OpaquePtr, type_: EventType) -> (r: RustValue<
        AnyEventRustMethods,
    >)
        ensures
            !r.value.is_null() ==> r.value == ptr && r.status.flag == ptr,
    {
        proof {
            self.lemma_view(ptr);
        }
        let matches = match self.objects[ptr.addr - 1].kind {
            ObjectKind::Event(t) => t.is_a(type_),
            _ => false,
        };
        if matches {
            RustValue {
                value: ptr,
                method_pointer: AnyEventRustMethods::current(type_),
                status: RustValueStatus { flag: ptr },
            }
        } else {
            RustValue {
                value: OpaquePtr::null(),
                method_pointer: AnyEventRustMethods::current(type_),
                status: RustValueStatus { flag: OpaquePtr::null() },
            }
        }
    }

    fn ui_event_detail(&self, ptr: OpaquePtr) -> (r: u64) {
        self.objects[ptr.addr - 1].detail
    }

    fn ui_event_view(&self, ptr: OpaquePtr) -> (r: RustValue<WindowRustMethods>) {
        RustValue {
            value: OpaquePtr::null(),
            method_pointer: WindowRustMethods::current(),
            status: RustValueStatus { flag: OpaquePtr::null() },
        }
    }

    fn ui_event_which(&self, ptr: OpaquePtr) -> (r: u64) {
        self.objects[ptr.addr - 1].which
    }

    fn close_event_code(&self, ptr: OpaquePtr) -> (r: i64) {
        self.objects[ptr.addr - 1].code
    }

    fn close_event_reason(&self, ptr: OpaquePtr) -> (r: String) {
        self.objects[ptr.addr - 1].reason.clone()
    }

    fn close_event_was_clean(&self, ptr: OpaquePtr) -> (r: i32) {
        flag_to_wire(self.objects[ptr.addr - 1].was_clean)
    }

    fn focus_event_related_target(&self, ptr: OpaquePtr) -> (r: RustValue<EventTargetRustMethods>) {
        self.vend_target(self.objects[ptr.addr - 1].related_target)
    }

    fn node_append_child(
        &mut self,
        self_node: OpaquePtr,
        new_node: OpaquePtr,
        exception_state: OpaquePtr,
    ) -> (r: RustValue<NodeRustMethods>)
        ensures
            final(self).pending_failure() is None,
            match old(self).pending_failure() {
                Some(text) => r.value.is_null() && failed(
                    old(self)@,
                    final(self)@,
                    Call::AppendChild { self_node, new_node, exception_state },
                    exception_state,
                    text,
                ),
                None => if old(self)@.identity(self_node) == old(self)@.identity(new_node) {
                    r.value.is_null() && failed(
                        old(self)@,
                        final(self)@,
                        Call::AppendChild { self_node, new_node, exception_state },
                        exception_state,
                        own_child_text(),
                    )
                } else {
                    &&& r.value == new_node
                    &&& r.status.flag == new_node
                    &&& final(self)@ == (World {
                        objects: attached(
                            old(self)@.objects,
                            old(self)@.identity(self_node),
                            old(self)@.identity(new_node),
                        ),
                        trace: old(self)@.trace.push(
                            Call::AppendChild { self_node, new_node, exception_state },
                        ),
                        ..old(self)@
                    })
                },
            },
    {
        let ghost before = *self;
        let ghost call = Call::AppendChild { self_node, new_node, exception_state };
        let parent: usize = self_node.addr - 1;
        let child: usize = new_node.addr - 1;
        proof {
            before.lemma_view(self_node);
            before.lemma_view(new_node);
        }
        match self.fail(exception_state) {
            Some(message) => {
                proof {
                    self.trace@ = self.trace@.push(call);
                    before.lemma_raised(self, call, exception_state, message@);
                }
                return Self::no_node();
            },
            None => {},
        }
        if parent == child {
            proof {
                reveal_strlit("HierarchyRequestError: a node cannot be its own child");
            }
            let message = "HierarchyRequestError: a node cannot be its own child".to_owned();
            let ghost text = message;
            self.raise(exception_state, message);
            proof {
                self.trace@ = self.trace@.push(call);
                before.lemma_raised(self, call, exception_state, text);
            }
            return Self::no_node();
        }
        self.detach_everywhere(child);
        let ghost loose = *self;
        self.objects[parent].children.push(child);
        proof {
            self.trace@ = self.trace@.push(call);
            assert(ids(self.objects[parent as int].children@) =~= ids(
                loose.objects[parent as int].children@,
            ).push(child as nat));
            assert forall|i: int| 0 <= i < self.objects.len() implies same_but_children(
                before.objects[i],
                #[trigger] self.objects[i],
            ) by {
                assert(same_but_children(before.objects[i], loose.objects[i]));
            }
            assert forall|i: int| 0 <= i < self.objects.len() implies self.refs_ok(
                #[trigger] self.objects[i],
            ) by {
                assert(before.refs_ok(before.objects[i]));
                assert(same_but_children(before.objects[i], loose.objects[i]));
            }
            before.lemma_counts(self, call);
            assert(self@.handles =~= before@.handles);
            assert(self@.statuses =~= before@.statuses);
            assert(self@.exceptions =~= before@.exceptions);
            assert forall|id: nat|
                before@.objects.contains_key(id) implies #[trigger] self@.objects[id]
                == attached(before@.objects, parent as nat, child as nat)[id] by {
                assert(same_but_children(before.objects[id as int], loose.objects[id as int]));
                assert(same_but_children(before.objects[id as int], self.objects[id as int]));
            }
            assert(self@.objects =~= attached(before@.objects, parent as nat, child as nat));
            self.lemma_view(self_node);
            self.lemma_view(new_node);
            assert(before@.same_shape(self@));
        }
        self.vend_node(new_node)
    }

    fn node_remove_node(
        &mut self,
        self_node: OpaquePtr,
        target_node: OpaquePtr,
        exception_state: OpaquePtr,
    ) -> (r: RustValue<NodeRustMethods>)
        ensures
            final(self).pending_failure() is None,
            match old(self).pending_failure() {
                Some(text) => r.value.is_null() && failed(
                    old(self)@,
                    final(self)@,
                    Call::RemoveNode { self_node, target_node, exception_state },
                    exception_state,
                    text,
                ),
                None => if !old(self)@.object(self_node).children.contains(
                    old(self)@.identity(target_node),
                ) {
                    r.value.is_null() && failed(
                        old(self)@,
                        final(self)@,
                        Call::RemoveNode { self_node, target_node, exception_state },
                        exception_state,
                        no_child_text(),
                    )
                } else {
                    &&& r.value == target_node
                    &&& r.status.flag == target_node
                    &&& final(self)@ == (World {
                        objects: detached(
                            old(self)@.objects,
                            old(self)@.identity(self_node),
                            old(self)@.identity(target_node),
                        ),
                        trace: old(self)@.trace.push(
                            Call::RemoveNode { self_node, target_node, exception_state },
                        ),
                        ..old(self)@
                    })
                },
            },
    {
        let ghost before = *self;
        let ghost call = Call::RemoveNode { self_node, target_node, exception_state };
        let parent: usize = self_node.addr - 1;
        let child: usize = target_node.addr - 1;
        proof {
            before.lemma_view(self_node);
            before.lemma_view(target_node);
        }
        match self.fail(exception_state) {
            Some(message) => {
                proof {
                    self.trace@ = self.trace@.push(call);
                    before.lemma_raised(self, call, exception_state, message@);
                }
                return Self::no_node();
            },
            None => {},
        }
        proof {
            lemma_ids_hold(before.objects[parent as int].children@, child);
        }
        if !holds(&self.objects[parent].children, child) {
            proof {
                reveal_strlit("NotFoundError: the node is not a child of this node");
            }
            let message = "NotFoundError: the node is not a child of this node".to_owned();
            let ghost text = message;
            self.raise(exception_state, message);
            proof {
                self.trace@ = self.trace@.push(call);
                before.lemma_raised(self, call, exception_state, text);
            }
            return Self::no_node();
        }
        let kids = without_index(&self.objects[parent].children, child);
        self.objects[parent].children = kids;
        proof {
            self.trace@ = self.trace@.push(call);
            assert forall|i: int| 0 <= i < self.objects.len() implies self.refs_ok(
                #[trigger] self.objects[i],
            ) by {
                assert(before.refs_ok(before.objects[i]));
                if i == parent {
                    assert forall|k: int|
                        0 <= k < self.objects[i].children.len() implies #[trigger] self.objects[i].children[k]
                        < self.objects.len() by {
                        assert(before.objects[i].children@.contains(self.objects[i].children[k]));
                    }
                }
            }
            before.lemma_counts(self, call);
            assert(self@.handles =~= before@.handles);
            assert(self@.statuses =~= before@.statuses);
            assert(self@.exceptions =~= before@.exceptions);
            assert(self@.objects =~= detached(before@.objects, parent as nat, child as nat));
            self.lemma_view(self_node);
            self.lemma_view(target_node);
            assert(before@.same_shape(self@));
        }
        self.vend_node(target_node)
    }
}

} // verus!
