use webf_sys::event_target::EventTargetMethods;
use webf_sys::exception_state::ExceptionState;
use webf_sys::local::LocalEngine;
use webf_sys::node::{Node, NodeMethods, NodeRustMethods, NodeType};
use webf_sys::wire::{OpaquePtr, RustValue};

fn node_from(engine: &LocalEngine, value: RustValue<NodeRustMethods>) -> Node {
    assert!(!value.value.is_null());
    Node::initialize(value.value, engine.context(), value.method_pointer, value.status)
}

fn new_node(engine: &mut LocalEngine) -> Node {
    let value = engine.add_node();
    node_from(engine, value)
}

fn fresh(engine: &mut LocalEngine) -> ExceptionState {
    engine.context().create_exception_state(engine)
}

#[test]
fn node_type_values() {
    assert_eq!(NodeType::ElementNode.value(), 1);
    assert_eq!(NodeType::AttributeNode.value(), 2);
    assert_eq!(NodeType::TextNode.value(), 3);
    assert_eq!(NodeType::CommentNode.value(), 8);
    assert_eq!(NodeType::DocumentNode.value(), 9);
    assert_eq!(NodeType::DocumentTypeNode.value(), 10);
    assert_eq!(NodeType::DocumentFragmentNode.value(), 11);
}

#[test]
fn a_new_node_has_no_children() {
    let mut engine = LocalEngine::new();
    let node = new_node(&mut engine);
    assert!(engine.children(node.ptr()).is_empty());
    assert!(engine.children(OpaquePtr::null()).is_empty());
    assert!(node.method_pointer.is_compatible());
    assert_eq!(node.context().ptr, engine.context().ptr);
    assert_eq!(EventTargetMethods::ptr(&node), node.event_target.ptr);
    assert_eq!(node.as_node().ptr(), node.ptr());
}

#[test]
fn append_child_returns_the_node_that_was_attached() {
    let mut engine = LocalEngine::new();
    let parent = new_node(&mut engine);
    let child = new_node(&mut engine);
    let exception_state = fresh(&mut engine);
    let attached: Node = parent.append_child(&mut engine, &child, &exception_state).unwrap();
    assert_eq!(attached.ptr(), child.ptr());
    assert_ne!(attached.ptr(), parent.ptr());
    assert_eq!(attached.context().ptr, parent.context().ptr);
    assert_eq!(engine.children(parent.ptr()), vec![child.ptr()]);
}

#[test]
fn children_keep_the_order_in_which_they_came() {
    let mut engine = LocalEngine::new();
    let parent = new_node(&mut engine);
    let a = new_node(&mut engine);
    let b = new_node(&mut engine);
    let c = new_node(&mut engine);
    let exception_state = fresh(&mut engine);
    parent.append_child::<Node, _>(&mut engine, &a, &exception_state).unwrap();
    parent.append_child::<Node, _>(&mut engine, &b, &exception_state).unwrap();
    parent.append_child::<Node, _>(&mut engine, &c, &exception_state).unwrap();
    assert_eq!(engine.children(parent.ptr()), vec![a.ptr(), b.ptr(), c.ptr()]);
    parent.remove_child::<Node, _>(&mut engine, &b, &exception_state).unwrap();
    assert_eq!(engine.children(parent.ptr()), vec![a.ptr(), c.ptr()]);
}

#[test]
fn append_then_remove_restores_the_children() {
    let mut engine = LocalEngine::new();
    let parent = new_node(&mut engine);
    let first = new_node(&mut engine);
    let second = new_node(&mut engine);
    let node = new_node(&mut engine);
    let exception_state = fresh(&mut engine);
    parent.append_child::<Node, _>(&mut engine, &first, &exception_state).unwrap();
    parent.append_child::<Node, _>(&mut engine, &second, &exception_state).unwrap();
    let before = engine.children(parent.ptr());
    let attached: Node = parent.append_child(&mut engine, &node, &exception_state).unwrap();
    assert_eq!(engine.children(parent.ptr()).len(), before.len() + 1);
    let detached: Node = parent.remove_child(&mut engine, &attached, &exception_state).unwrap();
    assert_eq!(engine.children(parent.ptr()), before);
    assert_eq!(detached.ptr(), node.ptr());
    let again: Node = parent.append_child(&mut engine, &detached, &exception_state).unwrap();
    assert_eq!(again.ptr(), node.ptr());
    assert_eq!(
        engine.children(parent.ptr()),
        vec![first.ptr(), second.ptr(), node.ptr()]
    );
}

#[test]
fn appending_a_child_anew_moves_it_to_the_end() {
    let mut engine = LocalEngine::new();
    let parent = new_node(&mut engine);
    let a = new_node(&mut engine);
    let b = new_node(&mut engine);
    let exception_state = fresh(&mut engine);
    parent.append_child::<Node, _>(&mut engine, &a, &exception_state).unwrap();
    parent.append_child::<Node, _>(&mut engine, &b, &exception_state).unwrap();
    parent.append_child::<Node, _>(&mut engine, &a, &exception_state).unwrap();
    assert_eq!(engine.children(parent.ptr()), vec![b.ptr(), a.ptr()]);
    parent.remove_child::<Node, _>(&mut engine, &a, &exception_state).unwrap();
    assert_eq!(engine.children(parent.ptr()), vec![b.ptr()]);
}

#[test]
fn a_node_has_one_parent_at_a_time() {
    let mut engine = LocalEngine::new();
    let first = new_node(&mut engine);
    let second = new_node(&mut engine);
    let child = new_node(&mut engine);
    let exception_state = fresh(&mut engine);
    first.append_child::<Node, _>(&mut engine, &child, &exception_state).unwrap();
    second.append_child::<Node, _>(&mut engine, &child, &exception_state).unwrap();
    assert!(engine.children(first.ptr()).is_empty());
    assert_eq!(engine.children(second.ptr()), vec![child.ptr()]);
}

#[test]
fn removing_what_is_no_child_fails_and_makes_no_node() {
    let mut engine = LocalEngine::new();
    let parent = new_node(&mut engine);
    let child = new_node(&mut engine);
    let stranger = new_node(&mut engine);
    let exception_state = fresh(&mut engine);
    parent.append_child::<Node, _>(&mut engine, &child, &exception_state).unwrap();
    let outcome: Result<Node, String> = parent.remove_child(&mut engine, &stranger, &exception_state);
    assert_eq!(
        outcome.err(),
        Some(String::from("NotFoundError: the node is not a child of this node"))
    );
    assert_eq!(engine.children(parent.ptr()), vec![child.ptr()]);
    assert!(exception_state.has_exception(&engine));
}

#[test]
fn a_node_cannot_be_its_own_child() {
    let mut engine = LocalEngine::new();
    let node = new_node(&mut engine);
    let exception_state = fresh(&mut engine);
    let same = node_from(&engine, RustValue {
        value: node.ptr(),
        method_pointer: node.method_pointer,
        status: node.event_target.status,
    });
    let outcome: Result<Node, String> = node.append_child(&mut engine, &same, &exception_state);
    assert_eq!(
        outcome.err(),
        Some(String::from("HierarchyRequestError: a node cannot be its own child"))
    );
    assert!(engine.children(node.ptr()).is_empty());
}

#[test]
fn an_edit_that_the_engine_refuses_changes_nothing() {
    let mut engine = LocalEngine::new();
    let parent = new_node(&mut engine);
    let child = new_node(&mut engine);
    let exception_state = fresh(&mut engine);
    assert!(engine.fail_next("HierarchyRequestError"));
    let outcome: Result<Node, String> = parent.append_child(&mut engine, &child, &exception_state);
    assert_eq!(outcome.err(), Some(String::from("HierarchyRequestError")));
    assert!(engine.children(parent.ptr()).is_empty());
    let again = fresh(&mut engine);
    let attached: Node = parent.append_child(&mut engine, &child, &again).unwrap();
    assert_eq!(attached.ptr(), child.ptr());
    assert!(engine.fail_next("NotFoundError"));
    let third = fresh(&mut engine);
    let outcome: Result<Node, String> = parent.remove_child(&mut engine, &attached, &third);
    assert_eq!(outcome.err(), Some(String::from("NotFoundError")));
    assert_eq!(engine.children(parent.ptr()), vec![child.ptr()]);
}

#[test]
fn a_node_made_by_the_trait_is_the_node_itself() {
    let mut engine = LocalEngine::new();
    let value = engine.add_node();
    let ptr = value.value;
    let node: Node =
        NodeMethods::initialize(value.value, engine.context(), value.method_pointer, value.status);
    assert_eq!(node.ptr(), ptr);
    assert_eq!(node.event_target.status.flag, ptr);
    assert!(!node.event_target.status.disposed(&engine));
}

#[test]
fn a_node_can_be_used_until_the_engine_disposes_it() {
    let mut engine = LocalEngine::new();
    let node = new_node(&mut engine);
    assert!(node.is_usable(&engine));
    assert!(node.event_target.is_usable(&engine));
    assert!(engine.dispose(node.ptr()));
    assert!(!node.is_usable(&engine));
}
