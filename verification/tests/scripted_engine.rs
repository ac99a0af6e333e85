use webf_sys::close_event::CloseEventRustMethods;
use webf_sys::engine::{Engine, World};
use webf_sys::event::{AnyEventRustMethods, Event, EventMethods, EventRustMethods};
use webf_sys::event_target::EventTargetRustMethods;
use webf_sys::event_type::EventType;
use webf_sys::exception_state::ExceptionState;
use webf_sys::executing_context::ExecutingContext;
use webf_sys::node::{Node, NodeRustMethods};
use webf_sys::window::WindowRustMethods;
use webf_sys::wire::{OpaquePtr, RustValue, RustValueStatus};

/// An engine with one close event behind two handles, which answers flags
/// with numbers other than 0 and 1 and writes down what it is handed.
struct Scripted {
    flag: i32,
    raised: Option<String>,
    raise_next: Option<String>,
    log: Vec<String>,
}

const EVENT: usize = 0x1000;
const CLOSE: usize = 0x2000;
const FLAG: usize = 0x3000;
const EXCEPTION: usize = 0x4000;
const NODE: usize = 0x5000;

impl Scripted {
    fn new(flag: i32) -> Scripted {
        Scripted { flag, raised: None, raise_next: None, log: Vec::new() }
    }

    fn call(&mut self, entry: String) {
        self.log.push(entry);
        if let Some(text) = self.raise_next.take() {
            self.raised = Some(text);
        }
    }

    fn no_target(&self) -> RustValue<EventTargetRustMethods> {
        RustValue {
            value: OpaquePtr::null(),
            method_pointer: EventTargetRustMethods::current(),
            status: RustValueStatus::new(OpaquePtr::null()),
        }
    }

    fn node(&self) -> RustValue<NodeRustMethods> {
        RustValue {
            value: OpaquePtr::new(NODE + 8),
            method_pointer: NodeRustMethods::current(),
            status: RustValueStatus::new(OpaquePtr::new(FLAG)),
        }
    }
}

impl Engine for Scripted {
    fn view(&self) -> World {
        unreachable!()
    }

    fn inv(&self) -> bool {
        unreachable!()
    }

    fn inv_implies_wf(&self) {
        unreachable!()
    }

    fn can_make_exception_state(&self) -> bool {
        unreachable!()
    }

    fn status_disposed(&self, _status: RustValueStatus) -> bool {
        false
    }

    fn event_target_dispatch_event(
        &mut self,
        ptr: OpaquePtr,
        event: OpaquePtr,
        exception_state: OpaquePtr,
    ) -> bool {
        self.call(format!(
            "dispatch_event {:#x} {:#x} {:#x}",
            ptr.addr, event.addr, exception_state.addr
        ));
        self.flag != 0
    }

    fn create_exception_state(&mut self, context: OpaquePtr) -> OpaquePtr {
        self.log.push(format!("create_exception_state {:#x}", context.addr));
        OpaquePtr::new(EXCEPTION)
    }

    fn exception_has_exception(&self, _exception_state: OpaquePtr) -> bool {
        self.raised.is_some()
    }

    fn exception_stringify(&self, _context: OpaquePtr, _exception_state: OpaquePtr) -> String {
        self.raised.clone().unwrap_or_default()
    }

    fn event_bubbles(&self, _ptr: OpaquePtr) -> i32 {
        self.flag
    }

    fn event_cancel_bubble(&self, _ptr: OpaquePtr) -> i32 {
        self.flag
    }

    fn event_set_cancel_bubble(&mut self, ptr: OpaquePtr, value: i32, exception_state: OpaquePtr) {
        self.call(format!(
            "set_cancel_bubble {:#x} {} {:#x}",
            ptr.addr, value, exception_state.addr
        ));
    }

    fn event_cancelable(&self, _ptr: OpaquePtr) -> i32 {
        self.flag
    }

    fn event_current_target(&self, _ptr: OpaquePtr) -> RustValue<EventTargetRustMethods> {
        self.no_target()
    }

    fn event_default_prevented(&self, _ptr: OpaquePtr) -> i32 {
        self.flag
    }

    fn event_src_element(&self, _ptr: OpaquePtr) -> RustValue<EventTargetRustMethods> {
        self.no_target()
    }

    fn event_target(&self, _ptr: OpaquePtr) -> RustValue<EventTargetRustMethods> {
        RustValue {
            value: OpaquePtr::new(NODE),
            method_pointer: EventTargetRustMethods::current(),
            status: RustValueStatus::new(OpaquePtr::new(FLAG + 8)),
        }
    }

    fn event_is_trusted(&self, _ptr: OpaquePtr) -> i32 {
        self.flag
    }

    fn event_time_stamp(&self, _ptr: OpaquePtr) -> u64 {
        1234.5f64.to_bits()
    }

    fn event_type(&self, _ptr: OpaquePtr) -> String {
        String::from("close")
    }

    fn event_init_event(
        &mut self,
        ptr: OpaquePtr,
        type_: &str,
        bubbles: i32,
        cancelable: i32,
        exception_state: OpaquePtr,
    ) {
        self.call(format!(
            "init_event {:#x} {} {} {} {:#x}",
            ptr.addr, type_, bubbles, cancelable, exception_state.addr
        ));
    }

    fn event_prevent_default(&mut self, ptr: OpaquePtr, exception_state: OpaquePtr) {
        self.call(format!("prevent_default {:#x} {:#x}", ptr.addr, exception_state.addr));
    }

    fn event_stop_immediate_propagation(&mut self, ptr: OpaquePtr, exception_state: OpaquePtr) {
        self.call(format!(
            "stop_immediate_propagation {:#x} {:#x}",
            ptr.addr, exception_state.addr
        ));
    }

    fn event_stop_propagation(&mut self, ptr: OpaquePtr, exception_state: OpaquePtr) {
        self.call(format!("stop_propagation {:#x} {:#x}", ptr.addr, exception_state.addr));
    }

    fn event_release(&mut self, ptr: OpaquePtr) {
        self.log.push(format!("release {:#x}", ptr.addr));
    }

    fn event_dynamic_to(&self, _ptr: OpaquePtr, type_: EventType) -> RustValue<AnyEventRustMethods> {
        let value = match type_ {
            EventType::Event => OpaquePtr::new(EVENT),
            EventType::CloseEvent => OpaquePtr::new(CLOSE),
            _ => OpaquePtr::null(),
        };
        RustValue {
            value,
            method_pointer: AnyEventRustMethods::current(type_),
            status: RustValueStatus::new(OpaquePtr::new(FLAG)),
        }
    }

    fn ui_event_detail(&self, _ptr: OpaquePtr) -> u64 {
        0
    }

    fn ui_event_view(&self, _ptr: OpaquePtr) -> RustValue<WindowRustMethods> {
        RustValue {
            value: OpaquePtr::null(),
            method_pointer: WindowRustMethods::current(),
            status: RustValueStatus::new(OpaquePtr::null()),
        }
    }

    fn ui_event_which(&self, _ptr: OpaquePtr) -> u64 {
        0
    }

    fn close_event_code(&self, ptr: OpaquePtr) -> i64 {
        ptr.addr as i64
    }

    fn close_event_reason(&self, _ptr: OpaquePtr) -> String {
        String::from("done")
    }

    fn close_event_was_clean(&self, _ptr: OpaquePtr) -> i32 {
        self.flag
    }

    fn focus_event_related_target(&self, _ptr: OpaquePtr) -> RustValue<EventTargetRustMethods> {
        self.no_target()
    }

    fn node_append_child(
        &mut self,
        self_node: OpaquePtr,
        new_node: OpaquePtr,
        exception_state: OpaquePtr,
    ) -> RustValue<NodeRustMethods> {
        self.call(format!(
            "append_child {:#x} {:#x} {:#x}",
            self_node.addr, new_node.addr, exception_state.addr
        ));
        self.node()
    }

    fn node_remove_node(
        &mut self,
        self_node: OpaquePtr,
        target_node: OpaquePtr,
        exception_state: OpaquePtr,
    ) -> RustValue<NodeRustMethods> {
        self.call(format!(
            "remove_node {:#x} {:#x} {:#x}",
            self_node.addr, target_node.addr, exception_state.addr
        ));
        self.node()
    }
}

fn context() -> ExecutingContext {
    ExecutingContext::initialize(OpaquePtr::new(0x10))
}

fn event() -> Event {
    Event::initialize(
        OpaquePtr::new(EVENT),
        context(),
        EventRustMethods::current(),
        RustValueStatus::new(OpaquePtr::new(FLAG)),
    )
}

fn node(addr: usize) -> Node {
    Node::initialize(
        OpaquePtr::new(addr),
        context(),
        NodeRustMethods::current(),
        RustValueStatus::new(OpaquePtr::new(FLAG)),
    )
}

#[test]
fn every_number_but_zero_is_a_true_flag() {
    for flag in [1, 2, -1, 7, i32::MIN, i32::MAX] {
        let engine = Scripted::new(flag);
        let event = event();
        assert!(event.bubbles(&engine));
        assert!(event.cancel_bubble(&engine));
        assert!(event.cancelable(&engine));
        assert!(event.default_prevented(&engine));
        assert!(event.is_trusted(&engine));
        assert!(event.as_close_event(&engine).unwrap().was_clean(&engine));
    }
    let engine = Scripted::new(0);
    let event = event();
    assert!(!event.bubbles(&engine));
    assert!(!event.cancel_bubble(&engine));
    assert!(!event.cancelable(&engine));
    assert!(!event.default_prevented(&engine));
    assert!(!event.is_trusted(&engine));
    assert!(!event.as_close_event(&engine).unwrap().was_clean(&engine));
}

#[test]
fn flags_go_to_the_engine_as_zero_or_one() {
    let mut engine = Scripted::new(0);
    let event = event();
    let state = context().create_exception_state(&mut engine);
    assert_eq!(event.set_cancel_bubble(&mut engine, true, &state), Ok(()));
    assert_eq!(event.set_cancel_bubble(&mut engine, false, &state), Ok(()));
    assert_eq!(event.init_event(&mut engine, "tap", true, false, &state), Ok(()));
    assert_eq!(event.init_event(&mut engine, "tap", false, true, &state), Ok(()));
    assert_eq!(
        engine.log,
        vec![
            "create_exception_state 0x10",
            "set_cancel_bubble 0x1000 1 0x4000",
            "set_cancel_bubble 0x1000 0 0x4000",
            "init_event 0x1000 tap 1 0 0x4000",
            "init_event 0x1000 tap 0 1 0x4000",
        ]
    );
}

#[test]
fn each_operation_makes_the_one_call_it_stands_for() {
    let mut engine = Scripted::new(0);
    let event = event();
    let state = ExceptionState::initialize(OpaquePtr::new(EXCEPTION));
    event.prevent_default(&mut engine, &state).unwrap();
    event.stop_immediate_propagation(&mut engine, &state).unwrap();
    event.stop_propagation(&mut engine, &state).unwrap();
    event.bubbles(&engine);
    event.type_(&engine);
    event.release(&mut engine);
    assert_eq!(
        engine.log,
        vec![
            "prevent_default 0x1000 0x4000",
            "stop_immediate_propagation 0x1000 0x4000",
            "stop_propagation 0x1000 0x4000",
            "release 0x1000",
        ]
    );
}

#[test]
fn the_refinement_calls_through_the_handle_the_dispatcher_gave() {
    let mut engine = Scripted::new(0);
    let event = event();
    let close = event.as_close_event(&engine).unwrap();
    assert_eq!(close.ptr(), OpaquePtr::new(CLOSE));
    assert_eq!(close.code(&engine), CLOSE as i64);
    assert_eq!(close.reason(&engine), "done");
    assert_eq!(close.event.status.flag, OpaquePtr::new(FLAG));
    assert_eq!(close.event.context, context());
    assert_eq!(close.method_pointer, CloseEventRustMethods::current());
    let state = ExceptionState::initialize(OpaquePtr::new(EXCEPTION));
    close.prevent_default(&mut engine, &state).unwrap();
    close.release(&mut engine);
    event.release(&mut engine);
    assert_eq!(
        engine.log,
        vec!["prevent_default 0x2000 0x4000", "release 0x2000", "release 0x1000"]
    );
    assert!(event_is_not(EventType::FocusEvent));
}

fn event_is_not(type_: EventType) -> bool {
    let engine = Scripted::new(0);
    event().dynamic_to(&engine, type_).value.is_null()
}

#[test]
fn what_the_engine_raises_comes_back_as_the_failure() {
    let mut engine = Scripted::new(0);
    let event = event();
    let state = ExceptionState::initialize(OpaquePtr::new(EXCEPTION));
    engine.raise_next = Some(String::from("InvalidStateError: too late"));
    assert_eq!(
        event.prevent_default(&mut engine, &state),
        Err(String::from("InvalidStateError: too late"))
    );
    assert!(!event.default_prevented(&engine));
    assert_eq!(engine.log, vec!["prevent_default 0x1000 0x4000"]);
}

#[test]
fn time_stamp_and_targets_come_back_as_the_engine_gave_them() {
    let engine = Scripted::new(0);
    let event = event();
    assert_eq!(f64::from_bits(event.time_stamp(&engine)), 1234.5);
    let target = event.target(&engine);
    assert_eq!(target.ptr, OpaquePtr::new(NODE));
    assert_eq!(target.status.flag, OpaquePtr::new(FLAG + 8));
    assert_eq!(target.context, context());
    assert!(event.current_target(&engine).ptr.is_null());
    assert!(event.src_element(&engine).ptr.is_null());
}

#[test]
fn an_edit_hands_both_handles_over_and_takes_what_comes_back() {
    let mut engine = Scripted::new(0);
    let parent = node(NODE);
    let child = node(NODE + 16);
    let state = ExceptionState::initialize(OpaquePtr::new(EXCEPTION));
    let attached: Node = parent.append_child(&mut engine, &child, &state).unwrap();
    assert_eq!(attached.ptr(), OpaquePtr::new(NODE + 8));
    assert_eq!(attached.event_target.context, context());
    let detached: Node = parent.remove_child(&mut engine, &child, &state).unwrap();
    assert_eq!(detached.ptr(), OpaquePtr::new(NODE + 8));
    engine.raise_next = Some(String::from("NotFoundError"));
    let outcome: Result<Node, String> = parent.remove_child(&mut engine, &child, &state);
    assert_eq!(outcome.err(), Some(String::from("NotFoundError")));
    assert_eq!(
        engine.log,
        vec![
            "append_child 0x5000 0x5010 0x4000",
            "remove_node 0x5000 0x5010 0x4000",
            "remove_node 0x5000 0x5010 0x4000",
        ]
    );
}

#[test]
fn the_context_is_handed_over_when_an_exception_state_is_made() {
    let mut engine = Scripted::new(0);
    let state = context().create_exception_state(&mut engine);
    assert_eq!(state.ptr, OpaquePtr::new(EXCEPTION));
    assert_eq!(engine.log, vec!["create_exception_state 0x10"]);
}

#[test]
fn a_dispatch_hands_target_and_event_over_and_returns_the_answer() {
    let mut engine = Scripted::new(1);
    let state = ExceptionState::initialize(OpaquePtr::new(EXCEPTION));
    let target = node(NODE);
    assert!(target.event_target.dispatch_event(&mut engine, &event(), &state));
    engine.flag = 0;
    assert!(!target.event_target.dispatch_event(&mut engine, &event(), &state));
    assert_eq!(
        engine.log,
        vec!["dispatch_event 0x5000 0x1000 0x4000", "dispatch_event 0x5000 0x1000 0x4000"]
    );
}
