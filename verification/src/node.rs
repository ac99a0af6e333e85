//! Nodes of the engine's tree, and the two edits that attach and detach a child.

use crate::engine::{Call, Engine, World};
use crate::event::Event;
use crate::event_target::{EventTarget, EventTargetMethods, EventTargetRustMethods};
use crate::exception_state::ExceptionState;
use crate::executing_context::ExecutingContext;
use crate::fault::Fault;
use crate::wire::{METHOD_TABLE_VERSION, OpaquePtr, RustValueStatus};
use vstd::prelude::*;

verus! {

/// What a node of the tree can be.
#[derive(Clone, Copy, PartialEq, Eq, Structural, Debug)]
pub enum NodeType {
    ElementNode,
    AttributeNode,
    TextNode,
    CommentNode,
    DocumentNode,
    DocumentTypeNode,
    DocumentFragmentNode,
}

impl NodeType {
    /// The number that stands for the kind of node.
    pub open spec fn spec_value(&self) -> i32 {
        match self {
            NodeType::ElementNode => 1,
            NodeType::AttributeNode => 2,
            NodeType::TextNode => 3,
            NodeType::CommentNode => 8,
            NodeType::DocumentNode => 9,
            NodeType::DocumentTypeNode => 10,
            NodeType::DocumentFragmentNode => 11,
        }
    }

    #[verifier::when_used_as_spec(spec_value)]
    pub fn value(&self) -> (v: i32)
        ensures
            v == self.spec_value(),
    {
        match self {
            NodeType::ElementNode => 1,
            NodeType::AttributeNode => 2,
            NodeType::TextNode => 3,
            NodeType::CommentNode => 8,
            NodeType::DocumentNode => 9,
            NodeType::DocumentTypeNode => 10,
            NodeType::DocumentFragmentNode => 11,
        }
    }
}

/// No two kinds of node share a number.
pub proof fn node_type_values_differ(a: NodeType, b: NodeType)
    ensures
        a.spec_value() == b.spec_value() ==> a == b,
{
}

/// The method table of nodes: its own version, and embedded in it the table
/// of the event target each node is.
#[derive(Clone, Copy, PartialEq, Eq, Structural, Debug)]
pub struct NodeRustMethods {
    pub version: u64,
    pub event_target: EventTargetRustMethods,
}

impl NodeRustMethods {
    /// The table, and every table embedded in it, carries the version the
    /// bindings were written for.
    pub open spec fn wf(&self) -> bool {
        self.version == METHOD_TABLE_VERSION && self.event_target.wf()
    }

    pub fn new(version: u64, event_target: EventTargetRustMethods) -> (m: NodeRustMethods)
        ensures
            m.version == version,
            m.event_target == event_target,
    {
        NodeRustMethods { version, event_target }
    }

    /// The table at the version the bindings were written for.
    pub fn current() -> (m: NodeRustMethods)
        ensures
            m.wf(),
    {
        NodeRustMethods {
            version: METHOD_TABLE_VERSION,
            event_target: EventTargetRustMethods::current(),
        }
    }

    pub fn is_compatible(&self) -> (r: bool)
        ensures
            r == self.wf(),
    {
        self.version == METHOD_TABLE_VERSION && self.event_target.is_compatible()
    }
}

/// A node of the engine's tree: an event target, and the table of what a node
/// adds to it.
#[derive(Debug)]
pub struct Node {
    pub event_target: EventTarget,
    pub method_pointer: NodeRustMethods,
}

impl Node {
    pub open spec fn spec_initialize(
        ptr: OpaquePtr,
        context: ExecutingContext,
        method_pointer: NodeRustMethods,
        status: RustValueStatus,
    ) -> Node {
        Node {
            event_target: EventTarget::spec_initialize(
                ptr,
                context,
                method_pointer.event_target,
                status,
            ),
            method_pointer,
        }
    }

    /// The event target inside is well-formed, the handle designates a node,
    /// and the table has the right version.
    pub open spec fn wf(&self, world: World) -> bool {
        &&& self.event_target.wf(world)
        &&& world.is_node(self.event_target.ptr)
        &&& self.method_pointer.wf()
    }

    /// What every operation asks for: a well-formed capability object whose
    /// object is not disposed.
    pub open spec fn usable(&self, world: World) -> bool {
        self.wf(world) && self.event_target.live(world)
    }

    /// The capability object stands for the object with the given identity;
    /// where there is none, its handle is null.
    pub open spec fn stands_for(&self, world: World, object: Option<nat>) -> bool {
        match object {
            None => self.event_target.ptr.is_null(),
            Some(id) => {
                &&& world.is_node(self.event_target.ptr)
                &&& world.identity(self.event_target.ptr) == id
                &&& world.reports_on(self.event_target.status, self.event_target.ptr)
                &&& self.method_pointer.wf()
            },
        }
    }

    /// Builds the event target inside from the table embedded in
    /// `method_pointer`, and keeps `method_pointer` for what a node adds.
    /// The table, and so the one embedded in it, must be of the version the
    /// bindings were written for.
    pub fn initialize(
        ptr: OpaquePtr,
        context: ExecutingContext,
        method_pointer: NodeRustMethods,
        status: RustValueStatus,
    ) -> (r: Node)
        requires
            method_pointer.wf(),
        ensures
            r == Node::spec_initialize(ptr, context, method_pointer, status),
    {
        Node {
            event_target: EventTarget::initialize(
                ptr,
                context,
                method_pointer.event_target,
                status,
            ),
            method_pointer,
        }
    }

    pub fn ptr(&self) -> (p: OpaquePtr)
        ensures
            p == self.event_target.ptr,
    {
        self.event_target.ptr()
    }

    pub fn context(&self) -> (c: &ExecutingContext)
        requires
            !self.event_target.context.is_null(),
        ensures
            *c == self.event_target.context,
    {
        self.event_target.context()
    }

    /// What is wrong with the capability object, if anything: what is wrong
    /// with the event target inside, or else that the table is of another
    /// version.
    pub open spec fn spec_fault(&self, world: World) -> Option<Fault> {
        match self.event_target.spec_fault(world) {
            Some(fault) => Some(fault),
            None => if self.method_pointer.wf() {
                None
            } else {
                Some(Fault::IncompatibleTable)
            },
        }
    }

    /// Finds at run time what is wrong with the capability object, given that
    /// its handle and flag are what the engine has vended for a node.
    /// Where the result is a fault, nothing else may be called on the object.
    pub fn fault<E: Engine>(&self, engine: &E) -> (r: Option<Fault>)
        requires
            engine.inv(),
            engine@.is_node(self.event_target.ptr),
            engine@.reports_on(self.event_target.status, self.event_target.ptr),
        ensures
            r == self.spec_fault(engine@),
            r is None <==> self.usable(engine@),
    {
        match self.event_target.fault(engine) {
            Some(fault) => Some(fault),
            None => if self.method_pointer.is_compatible() {
                None
            } else {
                Some(Fault::IncompatibleTable)
            },
        }
    }

    /// Tests at run time whether the capability object can be used, given
    /// that its handle and flag are what the engine has vended for
    /// a node: there is a context, the tables have the right version, and
    /// the object is not disposed.
    pub fn is_usable<E: Engine>(&self, engine: &E) -> (r: bool)
        requires
            engine.inv(),
            engine@.is_node(self.event_target.ptr),
            engine@.reports_on(self.event_target.status, self.event_target.ptr),
        ensures
            r == self.usable(engine@),
    {
        self.method_pointer.is_compatible() && self.event_target.is_usable(engine)
    }
}

/// What an edit of the tree returns, given the engine's state right after it.
/// Success, where the exception state holds no exception: a capability object
/// that stands for `subject`, the node handed to the edit, under the context
/// of `parent`, and that can be used at once. Else the text of the exception,
/// which is not empty.
pub open spec fn edit_reports<T: NodeMethods>(
    world: World,
    parent: Node,
    subject: Node,
    exception_state: &ExceptionState,
    outcome: Result<T, String>,
) -> bool {
    match outcome {
        Ok(node) => {
            &&& !world.has_exception(exception_state.ptr)
            &&& node.spec_node().usable(world)
            &&& world.identity(node.spec_node().event_target.ptr) == world.identity(
                subject.event_target.ptr,
            )
            &&& node.spec_node().event_target.context == parent.event_target.context
        },
        Err(message) => {
            &&& world.has_exception(exception_state.ptr)
            &&& message@ == world.exception_text(exception_state.ptr)
            &&& message@.len() > 0
        },
    }
}

impl Node {
    /// Adds `new_node` to the end of the children of this node. On success the
    /// result is a fresh capability object for the node that was attached; where
    /// the engine raises, the result is the text of the exception and no object
    /// is made.
    pub fn append_child<T: NodeMethods, E: Engine>(
        &self,
        engine: &mut E,
        new_node: &T,
        exception_state: &ExceptionState,
    ) -> (r: Result<T, String>)
        requires
            old(engine).inv(),
            self.usable(old(engine)@),
            new_node.spec_node().usable(old(engine)@),
            exception_state.wf(old(engine)@),
        ensures
            final(engine).inv(),
            old(engine)@.stepped(
                final(engine)@,
                Call::AppendChild {
                    self_node: self.event_target.ptr,
                    new_node: new_node.spec_node().event_target.ptr,
                    exception_state: exception_state.ptr,
                },
            ),
            edit_reports(final(engine)@, *self, new_node.spec_node(), exception_state, r),
            r is Ok ==> old(engine)@.appended(
                final(engine)@,
                self.event_target.ptr,
                new_node.spec_node().event_target.ptr,
            ),
    {
        let event_target: &EventTarget = &self.event_target;
        proof {
            new_node.node_is_event_target();
        }
        let returned_result = engine.node_append_child(
            event_target.ptr,
            new_node.ptr(),
            exception_state.ptr,
        );
        if exception_state.has_exception(engine) {
            return Err(exception_state.stringify(engine, event_target.context()));
        }
        Ok(
            T::initialize(
                returned_result.value,
                *event_target.context(),
                returned_result.method_pointer,
                returned_result.status,
            ),
        )
    }

    /// Takes `target_node` out of the children of this node. On success the
    /// result is a fresh capability object for the node that was detached, fit
    /// for further calls; where the engine raises, the result is the text of the
    /// exception and no object is made.
    pub fn remove_child<T: NodeMethods, E: Engine>(
        &self,
        engine: &mut E,
        target_node: &T,
        exception_state: &ExceptionState,
    ) -> (r: Result<T, String>)
        requires
            old(engine).inv(),
            self.usable(old(engine)@),
            target_node.spec_node().usable(old(engine)@),
            exception_state.wf(old(engine)@),
        ensures
            final(engine).inv(),
            old(engine)@.stepped(
                final(engine)@,
                Call::RemoveNode {
                    self_node: self.event_target.ptr,
                    target_node: target_node.spec_node().event_target.ptr,
                    exception_state: exception_state.ptr,
                },
            ),
            edit_reports(final(engine)@, *self, target_node.spec_node(), exception_state, r),
            r is Ok ==> old(engine)@.removed(
                final(engine)@,
                self.event_target.ptr,
                target_node.spec_node().event_target.ptr,
            ),
    {
        let event_target: &EventTarget = &self.event_target;
        proof {
            target_node.node_is_event_target();
        }
        let returned_result = engine.node_remove_node(
            event_target.ptr,
            target_node.ptr(),
            exception_state.ptr,
        );
        if exception_state.has_exception(engine) {
            return Err(exception_state.stringify(engine, event_target.context()));
        }
        Ok(
            T::initialize(
                returned_result.value,
                *event_target.context(),
                returned_result.method_pointer,
                returned_result.status,
            ),
        )
    }
}

/// What every kind of node has: the node it is built on, through which it is
/// attached and detached, and the way to make one from what the engine vends.
pub trait NodeMethods: EventTargetMethods + Sized {
    /// The node this capability object is built on.
    spec fn spec_node(&self) -> Node;

    /// The node is built on the event target that the capability object is
    /// built on.
    proof fn node_is_event_target(&self)
        ensures
            self.spec_node().event_target == self.spec_event_target(),
    ;

    /// Makes the capability object for what the engine has vended.
    fn initialize(
        ptr: OpaquePtr,
        context: ExecutingContext,
        method_pointer: NodeRustMethods,
        status: RustValueStatus,
    ) -> (r: Self)
        requires
            method_pointer.wf(),
        ensures
            r.spec_node() == Node::spec_initialize(ptr, context, method_pointer, status),
    ;

    fn as_node(&self) -> (n: &Node)
        ensures
            *n == self.spec_node(),
    ;
}

impl EventTargetMethods for Node {
    open spec fn spec_event_target(&self) -> EventTarget {
        self.event_target
    }

    fn ptr(&self) -> (p: OpaquePtr) {
        self.event_target.ptr
    }

    fn dispatch_event<E: Engine>(
        &self,
        engine: &mut E,
        event: &Event,
        exception_state: &ExceptionState,
    ) -> (r: bool) {
        self.event_target.dispatch_event(engine, event, exception_state)
    }
}

impl NodeMethods for Node {
    open spec fn spec_node(&self) -> Node {
        *self
    }

    proof fn node_is_event_target(&self) {
    }

    fn initialize(
        ptr: OpaquePtr,
        context: ExecutingContext,
        method_pointer: NodeRustMethods,
        status: RustValueStatus,
    ) -> (r: Node) {
        Node::initialize(ptr, context, method_pointer, status)
    }

    fn as_node(&self) -> (n: &Node) {
        self
    }
}

} // verus!
