use webf_sys::engine::Engine;
use webf_sys::event::{Event, EventMethods, EventRustMethods};
use webf_sys::event_target::{EventTarget, EventTargetMethods};
use webf_sys::event_type::EventType;
use webf_sys::exception_state::ExceptionState;
use webf_sys::executing_context::ExecutingContext;
use webf_sys::fault::Fault;
use webf_sys::local::LocalEngine;
use webf_sys::node::{Node, NodeRustMethods};
use webf_sys::wire::{OpaquePtr, RustValue, RustValueStatus, METHOD_TABLE_VERSION};

fn event_from(engine: &LocalEngine, value: RustValue<EventRustMethods>) -> Event {
    assert!(!value.value.is_null());
    Event::initialize(value.value, engine.context(), value.method_pointer, value.status)
}

#[test]
fn initialize_keeps_what_it_is_given() {
    let event = Event::initialize(
        OpaquePtr::new(40),
        ExecutingContext::initialize(OpaquePtr::new(8)),
        EventRustMethods::new(METHOD_TABLE_VERSION),
        RustValueStatus::new(OpaquePtr::new(48)),
    );
    assert_eq!(event.ptr(), OpaquePtr::new(40));
    assert_eq!(event.ptr, OpaquePtr::new(40));
    assert_eq!(event.context().ptr, OpaquePtr::new(8));
    assert_eq!(event.method_pointer.version, METHOD_TABLE_VERSION);
    assert_eq!(event.status.flag, OpaquePtr::new(48));
}

#[test]
fn accessors_read_what_the_engine_holds() {
    let mut engine = LocalEngine::new();
    let value = engine.add_event(EventType::Event, "custom_click", true, false);
    let event = event_from(&engine, value);
    assert!(event.bubbles(&engine));
    assert!(!event.cancelable(&engine));
    assert!(!event.cancel_bubble(&engine));
    assert!(!event.default_prevented(&engine));
    assert!(!event.is_trusted(&engine));
    assert_eq!(event.type_(&engine), "custom_click");
    assert_eq!(f64::from_bits(event.time_stamp(&engine)), 0.0);
}

#[test]
fn an_event_without_target_has_null_targets() {
    let mut engine = LocalEngine::new();
    let value = engine.add_event(EventType::Event, "load", false, false);
    let event = event_from(&engine, value);
    assert!(event.target(&engine).ptr().is_null());
    assert!(event.src_element(&engine).ptr().is_null());
    assert!(event.current_target(&engine).ptr().is_null());
}

fn node_from(engine: &LocalEngine, value: RustValue<NodeRustMethods>) -> Node {
    assert!(!value.value.is_null());
    Node::initialize(value.value, engine.context(), value.method_pointer, value.status)
}

#[test]
fn targets_are_the_node_the_event_was_sent_to() {
    let mut engine = LocalEngine::new();
    let node = engine.add_node();
    let node = node_from(&engine, node);
    let value = engine.add_event(EventType::Event, "click", true, true);
    let event = event_from(&engine, value);
    let exception_state = engine.context().create_exception_state(&mut engine);
    assert!(node.dispatch_event(&mut engine, &event, &exception_state));
    assert!(!exception_state.has_exception(&engine));
    let target = event.target(&engine);
    assert_eq!(target.ptr(), node.ptr());
    assert_eq!(target.context().ptr, engine.context().ptr);
    assert!(target.method_pointer.is_compatible());
    assert_eq!(event.src_element(&engine).ptr(), node.ptr());
    assert_eq!(event.current_target(&engine).ptr(), node.ptr());
}

#[test]
fn dispatch_tells_whether_the_default_was_prevented() {
    let mut engine = LocalEngine::new();
    let node = engine.add_node();
    let node = node_from(&engine, node);
    let value = engine.add_event(EventType::Event, "submit", true, true);
    let event = event_from(&engine, value);
    let exception_state = engine.context().create_exception_state(&mut engine);
    assert!(node.event_target.dispatch_event(&mut engine, &event, &exception_state));
    event.prevent_default(&mut engine, &exception_state).unwrap();
    assert!(!node.event_target.dispatch_event(&mut engine, &event, &exception_state));
    let target: &EventTarget = &node.event_target;
    assert!(!EventTargetMethods::dispatch_event(target, &mut engine, &event, &exception_state));
}

#[test]
fn a_dispatch_that_the_engine_refuses_sends_nothing() {
    let mut engine = LocalEngine::new();
    let node = engine.add_node();
    let node = node_from(&engine, node);
    let value = engine.add_event(EventType::Event, "click", true, true);
    let event = event_from(&engine, value);
    let exception_state = engine.context().create_exception_state(&mut engine);
    assert!(engine.fail_next("InvalidStateError: the event is already being dispatched"));
    assert!(!node.dispatch_event(&mut engine, &event, &exception_state));
    assert_eq!(
        exception_state.check(&engine, &engine.context()),
        Err(String::from("InvalidStateError: the event is already being dispatched"))
    );
    assert!(event.target(&engine).ptr().is_null());
}

#[test]
fn prevent_default_acts_on_a_cancelable_event() {
    let mut engine = LocalEngine::new();
    let value = engine.add_event(EventType::Event, "submit", true, true);
    let event = event_from(&engine, value);
    let exception_state = engine.context().create_exception_state(&mut engine);
    assert_eq!(event.prevent_default(&mut engine, &exception_state), Ok(()));
    assert!(event.default_prevented(&engine));
}

#[test]
fn prevent_default_leaves_an_event_that_is_not_cancelable() {
    let mut engine = LocalEngine::new();
    let value = engine.add_event(EventType::Event, "scroll", true, false);
    let event = event_from(&engine, value);
    let exception_state = engine.context().create_exception_state(&mut engine);
    assert_eq!(event.prevent_default(&mut engine, &exception_state), Ok(()));
    assert!(!event.default_prevented(&engine));
}

#[test]
fn a_failure_is_reported_with_its_text_and_fabricates_nothing() {
    let mut engine = LocalEngine::new();
    let value = engine.add_event(EventType::Event, "submit", true, true);
    let event = event_from(&engine, value);
    let exception_state = engine.context().create_exception_state(&mut engine);
    assert!(engine.fail_next("TypeError: the event is being dispatched"));
    let outcome = event.prevent_default(&mut engine, &exception_state);
    assert_eq!(outcome, Err(String::from("TypeError: the event is being dispatched")));
    assert!(!outcome.unwrap_err().is_empty());
    assert!(!event.default_prevented(&engine));
    assert!(exception_state.has_exception(&engine));
}

#[test]
fn a_fresh_exception_state_lets_the_next_call_succeed() {
    let mut engine = LocalEngine::new();
    let value = engine.add_event(EventType::Event, "submit", true, true);
    let event = event_from(&engine, value);
    let first = engine.context().create_exception_state(&mut engine);
    assert!(engine.fail_next("boom"));
    assert!(event.stop_propagation(&mut engine, &first).is_err());
    let second = engine.context().create_exception_state(&mut engine);
    assert!(!second.has_exception(&engine));
    assert_eq!(event.stop_propagation(&mut engine, &second), Ok(()));
    assert!(event.cancel_bubble(&engine));
}

#[test]
fn a_stale_exception_fails_the_calls_that_follow() {
    let mut engine = LocalEngine::new();
    let value = engine.add_event(EventType::Event, "submit", true, true);
    let event = event_from(&engine, value);
    let exception_state = engine.context().create_exception_state(&mut engine);
    assert!(engine.fail_next("boom"));
    assert!(event.prevent_default(&mut engine, &exception_state).is_err());
    assert_eq!(
        event.prevent_default(&mut engine, &exception_state),
        Err(String::from("boom"))
    );
    assert!(event.default_prevented(&engine));
}

#[test]
fn an_empty_text_is_no_failure() {
    let mut engine = LocalEngine::new();
    let value = engine.add_event(EventType::Event, "submit", true, true);
    let event = event_from(&engine, value);
    let exception_state = engine.context().create_exception_state(&mut engine);
    assert!(!engine.fail_next(""));
    assert_eq!(event.prevent_default(&mut engine, &exception_state), Ok(()));
}

#[test]
fn set_cancel_bubble_sets_and_never_clears() {
    let mut engine = LocalEngine::new();
    let value = engine.add_event(EventType::Event, "click", true, true);
    let event = event_from(&engine, value);
    let exception_state = engine.context().create_exception_state(&mut engine);
    assert_eq!(event.set_cancel_bubble(&mut engine, false, &exception_state), Ok(()));
    assert!(!event.cancel_bubble(&engine));
    assert_eq!(event.set_cancel_bubble(&mut engine, true, &exception_state), Ok(()));
    assert!(event.cancel_bubble(&engine));
    assert_eq!(event.set_cancel_bubble(&mut engine, false, &exception_state), Ok(()));
    assert!(event.cancel_bubble(&engine));
}

#[test]
fn init_event_sets_the_event_up_anew() {
    let mut engine = LocalEngine::new();
    let value = engine.add_event(EventType::Event, "click", false, true);
    let event = event_from(&engine, value);
    let exception_state = engine.context().create_exception_state(&mut engine);
    assert_eq!(event.prevent_default(&mut engine, &exception_state), Ok(()));
    assert_eq!(event.stop_immediate_propagation(&mut engine, &exception_state), Ok(()));
    assert!(event.default_prevented(&engine));
    assert!(event.cancel_bubble(&engine));
    assert_eq!(event.init_event(&mut engine, "tap", true, false, &exception_state), Ok(()));
    assert_eq!(event.type_(&engine), "tap");
    assert!(event.bubbles(&engine));
    assert!(!event.cancelable(&engine));
    assert!(!event.default_prevented(&engine));
    assert!(!event.cancel_bubble(&engine));
}

#[test]
fn init_event_that_fails_changes_nothing() {
    let mut engine = LocalEngine::new();
    let value = engine.add_event(EventType::Event, "click", false, true);
    let event = event_from(&engine, value);
    let exception_state = engine.context().create_exception_state(&mut engine);
    assert!(engine.fail_next("InvalidStateError"));
    assert_eq!(
        event.init_event(&mut engine, "tap", true, false, &exception_state),
        Err(String::from("InvalidStateError"))
    );
    assert_eq!(event.type_(&engine), "click");
    assert!(!event.bubbles(&engine));
}

#[test]
fn the_trait_reaches_the_same_event() {
    fn name_of<T: EventMethods>(event: &T, engine: &LocalEngine) -> String {
        event.type_(engine)
    }
    let mut engine = LocalEngine::new();
    let value = engine.add_event(EventType::Event, "wheel", true, true);
    let event = event_from(&engine, value);
    assert_eq!(name_of(&event, &engine), "wheel");
    assert_eq!(EventMethods::bubbles(&event, &engine), event.bubbles(&engine));
    assert_eq!(event.as_event().ptr(), event.ptr());
}

#[test]
fn the_flag_tells_when_the_engine_has_disposed_the_event() {
    let mut engine = LocalEngine::new();
    let value = engine.add_event(EventType::Event, "click", true, true);
    let event = event_from(&engine, value);
    assert!(!event.status.disposed(&engine));
    assert!(engine.dispose(event.ptr()));
    assert!(event.status.disposed(&engine));
    assert!(engine.status_disposed(event.status));
}

#[test]
fn disposing_what_is_not_there_does_nothing() {
    let mut engine = LocalEngine::new();
    assert!(!engine.dispose(OpaquePtr::null()));
    assert!(!engine.dispose(OpaquePtr::new(3)));
}

#[test]
fn a_table_of_another_version_is_not_compatible() {
    assert!(EventRustMethods::current().is_compatible());
    assert!(EventRustMethods::new(METHOD_TABLE_VERSION).is_compatible());
    assert!(!EventRustMethods::new(0).is_compatible());
    assert_eq!(f64::from_bits(METHOD_TABLE_VERSION), 1.0);
}

#[test]
fn exception_state_is_made_empty() {
    let mut engine = LocalEngine::new();
    let exception_state: ExceptionState = engine.context().create_exception_state(&mut engine);
    assert!(!exception_state.ptr.is_null());
    assert!(!exception_state.has_exception(&engine));
    assert_eq!(exception_state.check(&engine, &engine.context()), Ok(()));
    let other = engine.context().create_exception_state(&mut engine);
    assert!(!other.ptr.is_null());
    assert_ne!(other.ptr, exception_state.ptr);
}

#[test]
fn an_event_can_be_used_until_the_engine_disposes_it() {
    let mut engine = LocalEngine::new();
    let value = engine.add_event(EventType::Event, "click", true, true);
    let event = event_from(&engine, value);
    assert!(event.is_usable(&engine));
    assert!(engine.dispose(event.ptr()));
    assert!(!event.is_usable(&engine));
}

#[test]
fn an_event_without_context_cannot_be_used() {
    let mut engine = LocalEngine::new();
    let value = engine.add_event(EventType::Event, "click", true, true);
    let no_context = Event::initialize(
        value.value,
        ExecutingContext::initialize(OpaquePtr::null()),
        value.method_pointer,
        value.status,
    );
    assert!(!no_context.is_usable(&engine));
    assert_eq!(no_context.fault(&engine), Some(Fault::NullContext));
    assert!(engine.dispose(value.value));
    assert_eq!(no_context.fault(&engine), Some(Fault::Disposed));
}

#[test]
fn a_fault_says_what_is_wrong() {
    let mut engine = LocalEngine::new();
    let value = engine.add_event(EventType::Event, "click", true, true);
    let event = event_from(&engine, value);
    assert_eq!(event.fault(&engine), None);
    assert!(engine.dispose(event.ptr()));
    assert_eq!(event.fault(&engine), Some(Fault::Disposed));
    assert_eq!(
        Fault::Disposed.message(),
        "The underline C++ impl of this ptr had been disposed"
    );
    assert_eq!(Fault::NullContext.message(), "Context PTR must not be null");
    assert_eq!(
        Fault::IncompatibleTable.message(),
        "The method table is not of the version of the bindings"
    );
}

#[test]
fn an_object_put_together_around_an_old_table_is_found_out() {
    let mut engine = LocalEngine::new();
    let value = engine.add_event(EventType::Event, "click", true, true);
    let event = Event {
        ptr: value.value,
        context: engine.context(),
        method_pointer: EventRustMethods::new(0),
        status: value.status,
    };
    assert!(!event.is_usable(&engine));
    assert_eq!(event.fault(&engine), Some(Fault::IncompatibleTable));
}

#[test]
fn what_a_downcast_has_made_is_disposed_with_the_event() {
    let mut engine = LocalEngine::new();
    let value = engine.add_close_event("close", 1000, "", true);
    let event = event_from(&engine, value);
    let close = event.as_close_event(&engine).unwrap();
    assert!(close.is_usable(&engine));
    assert_eq!(close.fault(&engine), None);
    assert!(engine.dispose(event.ptr()));
    assert!(!close.is_usable(&engine));
    assert_eq!(close.fault(&engine), Some(Fault::Disposed));
    assert!(!event.is_usable(&engine));
}
