//! Bindings for objects that live in a foreign rendering engine.
//!
//! A capability object ([`event::Event`], [`close_event::CloseEvent`],
//! [`node::Node`], ...) is a handle, a context, a method table and a disposal
//! status. Every operation on it crosses the boundary through
//! [`engine::Engine`], whose contract is all the bindings know of the far
//! side. [`local::LocalEngine`] is an engine inside this process that keeps
//! that contract, and [`laws`] holds what follows from it for the bindings.
//!
//! The operations are defined for capability objects that can be used:
//! bound to tables of the right version, with a context, and not disposed.
//! [`fault`] tells what is wrong with one that cannot; to stop on a fault is
//! for the caller. A capability object is given up with `release`, which
//! consumes it. What owns one has to call it on every way out of its scope.

pub mod animation_event;
pub mod close_event;
pub mod custom_event;
pub mod engine;
pub mod event;
pub mod event_target;
pub mod event_type;
pub mod exception_state;
pub mod executing_context;
pub mod fault;
pub mod focus_event;
pub mod gesture_event;
pub mod hashchange_event;
pub mod input_event;
pub mod intersection_change_event;
pub mod laws;
pub mod local;
pub mod mouse_event;
pub mod node;
pub mod pointer_event;
pub mod transition_event;
pub mod ui_event;
pub mod window;
pub mod wire;
