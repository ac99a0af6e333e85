//! The channel through which a failure on the engine's side comes back.

use crate::engine::{Engine, World};
use crate::executing_context::ExecutingContext;
use crate::wire::OpaquePtr;
use vstd::prelude::*;

verus! {

/// A handle to an exception state of the engine. It is handed to every call
/// that may fail there, and asked right after the call whether it did.
#[derive(Debug)]
pub struct ExceptionState {
    pub ptr: OpaquePtr,
}

impl ExceptionState {
    /// The engine knows the exception state.
    pub open spec fn wf(&self, world: World) -> bool {
        world.is_exception_state(self.ptr)
    }

    /// What a call that may fail returns, given the engine's state right after
    /// it: success where the exception state holds no exception, else the
    /// exception's text, which is not empty.
    pub open spec fn reports(&self, world: World, outcome: Result<(), String>) -> bool {
        match outcome {
            Ok(_) => !world.has_exception(self.ptr),
            Err(message) => {
                &&& world.has_exception(self.ptr)
                &&& message@ == world.exception_text(self.ptr)
                &&& message@.len() > 0
            },
        }
    }

    pub fn initialize(ptr: OpaquePtr) -> (s: ExceptionState)
        ensures
            s.ptr == ptr,
    {
        ExceptionState { ptr }
    }

    pub fn has_exception<E: Engine>(&self, engine: &E) -> (r: bool)
        requires
            engine.inv(),
            self.wf(engine@),
        ensures
            r == engine@.has_exception(self.ptr),
    {
        engine.exception_has_exception(self.ptr)
    }

    /// The text of the exception, rendered with the help of the context.
    pub fn stringify<E: Engine>(&self, engine: &E, context: &ExecutingContext) -> (r: String)
        requires
            engine.inv(),
            self.wf(engine@),
        ensures
            engine@.has_exception(self.ptr) ==> r@ == engine@.exception_text(self.ptr) && r@.len()
                > 0,
    {
        proof {
            engine.inv_implies_wf();
        }
        engine.exception_stringify(context.ptr, self.ptr)
    }

    /// Asks the exception state how the last call went.
    pub fn check<E: Engine>(&self, engine: &E, context: &ExecutingContext) -> (r: Result<
        (),
        String,
    >)
        requires
            engine.inv(),
            self.wf(engine@),
        ensures
            self.reports(engine@, r),
    {
        if self.has_exception(engine) {
            Err(self.stringify(engine, context))
        } else {
            Ok(())
        }
    }
}

} // verus!
