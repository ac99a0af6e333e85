use webf_sys::event::{Event, EventRustMethods};
use webf_sys::event_type::EventType;
use webf_sys::local::LocalEngine;
use webf_sys::wire::{OpaquePtr, RustValue};

fn event_from(engine: &LocalEngine, value: RustValue<EventRustMethods>) -> Event {
    assert!(!value.value.is_null());
    Event::initialize(value.value, engine.context(), value.method_pointer, value.status)
}

#[test]
fn release_is_seen_once_however_the_event_was_used() {
    let mut engine = LocalEngine::new();
    let value = engine.add_event(EventType::Event, "click", true, true);
    let event = event_from(&engine, value);
    let ptr = event.ptr();
    assert_eq!(engine.release_calls(ptr), 0);
    for _ in 0..5 {
        event.bubbles(&engine);
        event.type_(&engine);
        event.target(&engine);
    }
    let exception_state = engine.context().create_exception_state(&mut engine);
    event.prevent_default(&mut engine, &exception_state).unwrap();
    event.stop_propagation(&mut engine, &exception_state).unwrap();
    assert!(engine.fail_next("boom"));
    assert!(event.init_event(&mut engine, "tap", true, true, &exception_state).is_err());
    assert_eq!(engine.release_calls(ptr), 0);
    event.release(&mut engine);
    assert_eq!(engine.release_calls(ptr), 1);
}

#[test]
fn each_capability_object_is_released_on_its_own() {
    let mut engine = LocalEngine::new();
    let value = engine.add_close_event("close", 1000, "", true);
    let other = engine.add_event(EventType::Event, "other", false, false);
    let event = event_from(&engine, value);
    let ptr = event.ptr();
    let close = event.as_close_event(&engine).unwrap();
    assert_eq!(engine.release_calls(ptr), 0);
    close.release(&mut engine);
    assert_eq!(engine.release_calls(ptr), 1);
    assert_eq!(event.type_(&engine), "close");
    event.release(&mut engine);
    assert_eq!(engine.release_calls(ptr), 2);
    assert_eq!(engine.release_calls(other.value), 0);
}

#[test]
fn a_refinement_of_a_refinement_releases_the_event_inside() {
    let mut engine = LocalEngine::new();
    let value = engine.add_event(EventType::PointerEvent, "pointerup", true, true);
    let event = event_from(&engine, value);
    let ptr = event.ptr();
    let pointer = event.as_pointer_event(&engine).unwrap();
    pointer.release(&mut engine);
    assert_eq!(engine.release_calls(ptr), 1);
    let focus = engine.add_focus_event("focus", OpaquePtr::null());
    let focus_ptr = focus.value;
    let focus = event_from(&engine, focus).as_focus_event(&engine).unwrap();
    focus.release(&mut engine);
    assert_eq!(engine.release_calls(focus_ptr), 1);
    assert_eq!(engine.release_calls(ptr), 1);
}

#[test]
fn nothing_was_released_behind_a_handle_that_designates_nothing() {
    let engine = LocalEngine::new();
    assert_eq!(engine.release_calls(OpaquePtr::null()), 0);
    assert_eq!(engine.release_calls(OpaquePtr::new(9)), 0);
}
