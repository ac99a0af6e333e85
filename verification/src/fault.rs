//! Why a capability object cannot be used.
//!
//! The operations of the bindings are defined only for capability objects
//! that can be used. To call one on another is a fault of the caller, for which
//! there is no recovery: what holds the object has to stop, and say why. The
//! bindings decide whether to stop and what to say; to stop is for the caller.

use vstd::prelude::*;

verus! {

/// What is wrong with a capability object that cannot be used.
#[derive(Clone, Copy, PartialEq, Eq, Structural, Debug)]
pub enum Fault {
    /// The engine has destroyed the object behind the handle.
    Disposed,
    /// The capability object has no context.
    NullContext,
    /// A method table is not of the version the bindings were written for.
    IncompatibleTable,
}

impl Fault {
    /// What to say when stopping.
    pub open spec fn spec_message(self) -> Seq<char> {
        match self {
            Fault::Disposed => "The underline C++ impl of this ptr had been disposed"@,
            Fault::NullContext => "Context PTR must not be null"@,
            Fault::IncompatibleTable => "The method table is not of the version of the bindings"@,
        }
    }

    pub fn message(self) -> (m: &'static str)
        ensures
            m@ == self.spec_message(),
            m@.len() > 0,
    {
        proof {
            message_is_not_empty(self);
        }
        match self {
            Fault::Disposed => "The underline C++ impl of this ptr had been disposed",
            Fault::NullContext => "Context PTR must not be null",
            Fault::IncompatibleTable => "The method table is not of the version of the bindings",
        }
    }
}

/// Every fault has something to say.
pub proof fn message_is_not_empty(fault: Fault)
    ensures
        fault.spec_message().len() > 0,
{
    reveal_strlit("The underline C++ impl of this ptr had been disposed");
    reveal_strlit("Context PTR must not be null");
    reveal_strlit("The method table is not of the version of the bindings");
}

} // verus!
