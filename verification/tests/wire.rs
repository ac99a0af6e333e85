use webf_sys::event_type::EventType;
use webf_sys::wire::{flag_from_wire, flag_to_wire, OpaquePtr};

#[test]
fn flags_are_zero_or_one_on_the_way_out() {
    assert_eq!(flag_to_wire(true), 1);
    assert_eq!(flag_to_wire(false), 0);
}

#[test]
fn any_nonzero_flag_is_true_on_the_way_in() {
    assert!(flag_from_wire(1));
    assert!(flag_from_wire(-1));
    assert!(flag_from_wire(7));
    assert!(!flag_from_wire(0));
}

#[test]
fn null_is_the_zero_address() {
    assert!(OpaquePtr::null().is_null());
    assert!(!OpaquePtr::new(8).is_null());
}

#[test]
fn event_type_numbers_are_stable() {
    assert_eq!(EventType::Event.value(), 0);
    assert_eq!(EventType::CloseEvent.value(), 3);
    assert_eq!(EventType::UIEvent.value(), 8);
    assert_eq!(EventType::FocusEvent.value(), 9);
    assert_eq!(EventType::PointerEvent.value(), 12);
}
