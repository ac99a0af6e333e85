use webf_sys::close_event::{CloseEvent, CloseEventMethods, CloseEventRustMethods};
use webf_sys::event::{AnyEventRustMethods, Event, EventMethods, EventRustMethods};
use webf_sys::event_type::EventType;
use webf_sys::focus_event::{FocusEvent, FocusEventMethods, FocusEventRustMethods};
use webf_sys::local::LocalEngine;
use webf_sys::ui_event::{UIEventMethods, UIEventRustMethods};
use webf_sys::wire::{OpaquePtr, RustValue, RustValueStatus, METHOD_TABLE_VERSION};

fn event_from(engine: &LocalEngine, value: RustValue<EventRustMethods>) -> Event {
    assert!(!value.value.is_null());
    Event::initialize(value.value, engine.context(), value.method_pointer, value.status)
}

#[test]
fn a_close_event_is_read_through_its_refinement() {
    let mut engine = LocalEngine::new();
    let value = engine.add_close_event("close", 1006, "connection lost", false);
    let event = event_from(&engine, value);
    let close = event.as_close_event(&engine).unwrap();
    assert_eq!(close.code(&engine), 1006);
    assert_eq!(close.reason(&engine), "connection lost");
    assert!(!close.was_clean(&engine));
    assert_eq!(
        event.as_focus_event(&engine).err(),
        Some("The type value of Event does not belong to the FocusEvent type.")
    );
}

#[test]
fn close_event_reports_a_clean_close() {
    let mut engine = LocalEngine::new();
    let value = engine.add_close_event("close", 1000, "", true);
    let event = event_from(&engine, value);
    let close = event.as_close_event(&engine).unwrap();
    assert_eq!(close.code(&engine), 1000);
    assert_eq!(close.reason(&engine), "");
    assert!(close.was_clean(&engine));
}

#[test]
fn downcast_to_the_actual_kind_succeeds_and_reads_alike() {
    let mut engine = LocalEngine::new();
    let value = engine.add_close_event("close", 1001, "going away", true);
    let event = event_from(&engine, value);
    let close = event.as_close_event(&engine).unwrap();
    assert_eq!(close.ptr(), event.ptr());
    assert_eq!(close.context().ptr, event.context().ptr);
    assert_eq!(close.type_(&engine), event.type_(&engine));
    assert_eq!(close.bubbles(&engine), event.bubbles(&engine));
    assert_eq!(close.cancelable(&engine), event.cancelable(&engine));
    assert_eq!(close.default_prevented(&engine), event.default_prevented(&engine));
    assert_eq!(close.time_stamp(&engine), event.time_stamp(&engine));
    assert_eq!(close.as_event().ptr(), event.ptr());
    assert_eq!(close.as_close_event().code(&engine), 1001);
}

#[test]
fn what_one_capability_object_changes_the_other_sees() {
    let mut engine = LocalEngine::new();
    let value = engine.add_event(EventType::MouseEvent, "click", true, true);
    let event = event_from(&engine, value);
    let mouse = event.as_mouse_event(&engine).unwrap();
    let exception_state = engine.context().create_exception_state(&mut engine);
    assert_eq!(mouse.prevent_default(&mut engine, &exception_state), Ok(()));
    assert!(event.default_prevented(&engine));
    assert_eq!(event.stop_propagation(&mut engine, &exception_state), Ok(()));
    assert!(mouse.cancel_bubble(&engine));
}

#[test]
fn downcast_to_every_other_kind_of_a_plain_event_fails() {
    let mut engine = LocalEngine::new();
    let value = engine.add_event(EventType::Event, "plain", false, false);
    let event = event_from(&engine, value);
    assert_eq!(
        event.as_custom_event(&engine).err(),
        Some("The type value of Event does not belong to the CustomEvent type.")
    );
    assert_eq!(
        event.as_animation_event(&engine).err(),
        Some("The type value of Event does not belong to the AnimationEvent type.")
    );
    assert_eq!(
        event.as_close_event(&engine).err(),
        Some("The type value of Event does not belong to the CloseEvent type.")
    );
    assert_eq!(
        event.as_gesture_event(&engine).err(),
        Some("The type value of Event does not belong to the GestureEvent type.")
    );
    assert_eq!(
        event.as_hashchange_event(&engine).err(),
        Some("The type value of Event does not belong to the HashchangeEvent type.")
    );
    assert_eq!(
        event.as_intersection_change_event(&engine).err(),
        Some("The type value of Event does not belong to the IntersectionChangeEvent type.")
    );
    assert_eq!(
        event.as_transition_event(&engine).err(),
        Some("The type value of Event does not belong to the TransitionEvent type.")
    );
    assert_eq!(
        event.as_ui_event(&engine).err(),
        Some("The type value of Event does not belong to the UIEvent type.")
    );
    assert_eq!(
        event.as_focus_event(&engine).err(),
        Some("The type value of Event does not belong to the FocusEvent type.")
    );
    assert_eq!(
        event.as_input_event(&engine).err(),
        Some("The type value of Event does not belong to the InputEvent type.")
    );
    assert_eq!(
        event.as_mouse_event(&engine).err(),
        Some("The type value of Event does not belong to the MouseEvent type.")
    );
    assert_eq!(
        event.as_pointer_event(&engine).err(),
        Some("The type value of Event does not belong to the PointerEvent type.")
    );
}

#[test]
fn each_kind_is_accepted_as_itself() {
    let mut engine = LocalEngine::new();
    let kinds = [
        EventType::CustomEvent,
        EventType::AnimationEvent,
        EventType::CloseEvent,
        EventType::GestureEvent,
        EventType::HashchangeEvent,
        EventType::IntersectionChangeEvent,
        EventType::TransitionEvent,
        EventType::UIEvent,
        EventType::FocusEvent,
        EventType::InputEvent,
        EventType::MouseEvent,
        EventType::PointerEvent,
    ];
    for kind in kinds {
        let value = engine.add_event(kind, "any", false, false);
        let event = event_from(&engine, value);
        let accepted = match kind {
            EventType::Event => true,
            EventType::CustomEvent => event.as_custom_event(&engine).is_ok(),
            EventType::AnimationEvent => event.as_animation_event(&engine).is_ok(),
            EventType::CloseEvent => event.as_close_event(&engine).is_ok(),
            EventType::GestureEvent => event.as_gesture_event(&engine).is_ok(),
            EventType::HashchangeEvent => event.as_hashchange_event(&engine).is_ok(),
            EventType::IntersectionChangeEvent => {
                event.as_intersection_change_event(&engine).is_ok()
            }
            EventType::TransitionEvent => event.as_transition_event(&engine).is_ok(),
            EventType::UIEvent => event.as_ui_event(&engine).is_ok(),
            EventType::FocusEvent => event.as_focus_event(&engine).is_ok(),
            EventType::InputEvent => event.as_input_event(&engine).is_ok(),
            EventType::MouseEvent => event.as_mouse_event(&engine).is_ok(),
            EventType::PointerEvent => event.as_pointer_event(&engine).is_ok(),
        };
        assert!(accepted, "{:?}", kind);
        let reply = event.dynamic_to(&engine, kind);
        assert_eq!(reply.value, event.ptr());
    }
}

#[test]
fn a_pointer_event_is_also_what_it_refines() {
    let mut engine = LocalEngine::new();
    let value = engine.add_event(EventType::PointerEvent, "pointerdown", true, true);
    let event = event_from(&engine, value);
    assert!(event.as_pointer_event(&engine).is_ok());
    assert!(event.as_mouse_event(&engine).is_ok());
    assert!(event.as_ui_event(&engine).is_ok());
    assert!(event.as_focus_event(&engine).is_err());
    assert!(event.as_input_event(&engine).is_err());
    assert!(event.as_close_event(&engine).is_err());
    let pointer = event.as_pointer_event(&engine).unwrap();
    assert_eq!(pointer.mouse_event.ui_event.event.ptr, event.ptr);
    assert_eq!(pointer.type_(&engine), "pointerdown");
}

#[test]
fn a_ui_event_is_no_focus_event() {
    let mut engine = LocalEngine::new();
    let value = engine.add_event(EventType::UIEvent, "resize", false, false);
    let event = event_from(&engine, value);
    let ui = event.as_ui_event(&engine).unwrap();
    assert_eq!(f64::from_bits(ui.detail(&engine)), 0.0);
    assert_eq!(f64::from_bits(ui.which(&engine)), 0.0);
    assert!(ui.view(&engine).ptr().is_null());
    assert!(event.as_focus_event(&engine).is_err());
    assert!(event.as_mouse_event(&engine).is_err());
}

#[test]
fn focus_event_reports_its_related_target() {
    let mut engine = LocalEngine::new();
    let node = engine.add_node();
    let value = engine.add_focus_event("focusin", node.value);
    let event = event_from(&engine, value);
    let focus = event.as_focus_event(&engine).unwrap();
    assert_eq!(focus.related_target(&engine).ptr(), node.value);
    assert_eq!(focus.ptr(), event.ptr());
    assert_eq!(focus.context().ptr, engine.context().ptr);
    assert_eq!(FocusEventMethods::related_target(&focus, &engine).ptr(), node.value);
    assert_eq!(focus.as_focus_event().ptr(), event.ptr());
    assert_eq!(focus.as_ui_event().ptr(), event.ptr());
    assert_eq!(UIEventMethods::detail(&focus, &engine), focus.ui_event.detail(&engine));
    assert_eq!(focus.type_(&engine), "focusin");
    assert!(!focus.bubbles(&engine));
}

#[test]
fn focus_event_without_related_target_reports_null() {
    let mut engine = LocalEngine::new();
    let value = engine.add_focus_event("blur", OpaquePtr::null());
    let event = event_from(&engine, value);
    let focus = event.as_focus_event(&engine).unwrap();
    assert!(focus.related_target(&engine).ptr().is_null());
}

#[test]
fn a_focus_event_cannot_relate_to_an_event() {
    let mut engine = LocalEngine::new();
    let other = engine.add_event(EventType::Event, "x", false, false);
    assert!(engine.add_focus_event("focus", other.value).value.is_null());
    assert!(engine.add_focus_event("focus", OpaquePtr::new(77)).value.is_null());
}

#[test]
fn a_null_reply_is_a_mismatch() {
    let reply = RustValue {
        value: OpaquePtr::null(),
        method_pointer: AnyEventRustMethods::current(EventType::CloseEvent),
        status: RustValueStatus::new(OpaquePtr::null()),
    };
    let context = LocalEngine::new().context();
    assert_eq!(
        CloseEvent::from_dynamic(reply, context).err(),
        Some("The type value of Event does not belong to the CloseEvent type.")
    );
}

#[test]
fn a_reply_with_the_table_of_another_kind_is_a_mismatch() {
    let reply = RustValue {
        value: OpaquePtr::new(16),
        method_pointer: AnyEventRustMethods::current(EventType::FocusEvent),
        status: RustValueStatus::new(OpaquePtr::new(24)),
    };
    let context = LocalEngine::new().context();
    assert!(CloseEvent::from_dynamic(reply, context).is_err());
    let reply = RustValue {
        value: OpaquePtr::new(16),
        method_pointer: AnyEventRustMethods::current(EventType::FocusEvent),
        status: RustValueStatus::new(OpaquePtr::new(24)),
    };
    let focus = FocusEvent::from_dynamic(reply, context).unwrap();
    assert_eq!(focus.ptr(), OpaquePtr::new(16));
    assert_eq!(focus.ui_event.event.status.flag, OpaquePtr::new(24));
    assert_eq!(focus.ui_event.event.context.ptr, context.ptr);
}

#[test]
fn a_refinement_is_built_from_the_tables_embedded_in_its_own() {
    let table = FocusEventRustMethods::current();
    let focus = FocusEvent::initialize(
        OpaquePtr::new(32),
        LocalEngine::new().context(),
        table,
        RustValueStatus::new(OpaquePtr::new(40)),
    );
    assert_eq!(focus.method_pointer, table);
    assert_eq!(focus.ui_event.method_pointer, table.ui_event);
    assert_eq!(focus.ui_event.event.method_pointer, table.ui_event.event);
    assert_eq!(focus.ui_event.event.ptr, OpaquePtr::new(32));
    assert_eq!(focus.ui_event.event.status.flag, OpaquePtr::new(40));
    let close = CloseEvent::initialize(
        OpaquePtr::new(32),
        LocalEngine::new().context(),
        CloseEventRustMethods::current(),
        RustValueStatus::new(OpaquePtr::new(32)),
    );
    assert_eq!(close.event.method_pointer, EventRustMethods::current());
}

#[test]
fn a_table_is_compatible_only_if_every_table_in_it_is() {
    let base = EventRustMethods::new(7);
    let ui = UIEventRustMethods::new(METHOD_TABLE_VERSION, base);
    assert!(!ui.is_compatible());
    assert!(!FocusEventRustMethods::new(METHOD_TABLE_VERSION, ui).is_compatible());
    assert!(!CloseEventRustMethods::new(9, EventRustMethods::current()).is_compatible());
    assert!(!CloseEventRustMethods::new(METHOD_TABLE_VERSION, base).is_compatible());
    assert!(CloseEventRustMethods::new(METHOD_TABLE_VERSION, EventRustMethods::current())
        .is_compatible());
    assert!(CloseEventRustMethods::current().is_compatible());
    assert!(FocusEventRustMethods::current().is_compatible());
    assert_eq!(FocusEventRustMethods::new(9, ui).version, 9);
    assert_eq!(FocusEventRustMethods::new(9, ui).ui_event.event.version, 7);
}

#[test]
fn numbers_and_kinds_match_both_ways() {
    for number in 0..=12 {
        let kind = EventType::from_value(number).unwrap();
        assert_eq!(kind.value(), number);
    }
    assert_eq!(EventType::from_value(13), None);
    assert_eq!(EventType::from_value(-1), None);
    assert_eq!(EventType::from_value(1), Some(EventType::CustomEvent));
    assert_eq!(EventType::from_value(11), Some(EventType::MouseEvent));
}

#[test]
fn refinement_runs_along_the_parents() {
    assert_eq!(EventType::Event.parent(), None);
    assert_eq!(EventType::CloseEvent.parent(), Some(EventType::Event));
    assert_eq!(EventType::FocusEvent.parent(), Some(EventType::UIEvent));
    assert_eq!(EventType::PointerEvent.parent(), Some(EventType::MouseEvent));
    assert!(EventType::PointerEvent.is_a(EventType::UIEvent));
    assert!(EventType::PointerEvent.is_a(EventType::Event));
    assert!(EventType::FocusEvent.is_a(EventType::FocusEvent));
    assert!(!EventType::UIEvent.is_a(EventType::FocusEvent));
    assert!(!EventType::CloseEvent.is_a(EventType::FocusEvent));
    assert!(!EventType::Event.is_a(EventType::CustomEvent));
}

#[test]
fn the_close_event_trait_is_enough_to_read_a_close_event() {
    fn summary<T: CloseEventMethods>(event: &T, engine: &LocalEngine) -> (i64, String, bool, String) {
        (
            event.code(engine),
            event.reason(engine),
            event.was_clean(engine),
            event.type_(engine),
        )
    }
    let mut engine = LocalEngine::new();
    let value = engine.add_close_event("close", 4000, "bye", true);
    let event = event_from(&engine, value);
    let close = event.as_close_event(&engine).unwrap();
    assert_eq!(
        summary(&close, &engine),
        (4000, String::from("bye"), true, String::from("close"))
    );
}
