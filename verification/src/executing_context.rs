//! The context every capability object was made under.

use crate::engine::Engine;
use crate::exception_state::ExceptionState;
use crate::wire::OpaquePtr;
use vstd::prelude::*;

verus! {

/// A handle to the session on the engine's side. It owns nothing: the session
/// is made before any capability object and outlives them all.
#[derive(Clone, Copy, PartialEq, Eq, Structural, Debug)]
pub struct ExecutingContext {
    pub ptr: OpaquePtr,
}

impl ExecutingContext {
    pub open spec fn spec_is_null(&self) -> bool {
        self.ptr.is_null()
    }

    pub fn initialize(ptr: OpaquePtr) -> (c: ExecutingContext)
        ensures
            c.ptr == ptr,
    {
        ExecutingContext { ptr }
    }

    #[verifier::when_used_as_spec(spec_is_null)]
    pub fn is_null(&self) -> (r: bool)
        ensures
            r == self.spec_is_null(),
    {
        self.ptr.is_null()
    }

    pub fn ptr(&self) -> (p: OpaquePtr)
        ensures
            p == self.ptr,
    {
        self.ptr
    }

    /// Asks the engine, under this context, for the exception state of one
    /// sequence of calls. What comes back is new and holds no exception, and
    /// nothing else in the engine changes. Its handle is null exactly where
    /// the engine can make none.
    pub fn create_exception_state<E: Engine>(&self, engine: &mut E) -> (r: ExceptionState)
        requires
            old(engine).inv(),
            !self.is_null(),
        ensures
            final(engine).inv(),
            r.ptr.is_null() <==> !old(engine).can_make_exception_state(),
            !old(engine)@.is_exception_state(r.ptr),
            final(engine)@ == old(engine)@.with_exception_state(self.ptr, r.ptr),
            !r.ptr.is_null() ==> r.wf(final(engine)@) && !final(engine)@.has_exception(r.ptr),
    {
        ExceptionState::initialize(engine.create_exception_state(self.ptr))
    }
}

} // verus!
