//! The plain values that cross the boundary: addresses, flags, and the triple
//! the engine hands over when it vends an object.

use crate::engine::Engine;
use vstd::prelude::*;

verus! {

/// The version every method table must carry: the bit pattern of the double `1.0`.
pub const METHOD_TABLE_VERSION: u64 = 0x3FF0_0000_0000_0000;

/// An address inside the engine. The bindings never look behind it; they only
/// hand it back.
#[derive(Clone, Copy, PartialEq, Eq, Structural, Debug)]
pub struct OpaquePtr {
    pub addr: usize,
}

impl OpaquePtr {
    pub open spec fn spec_is_null(self) -> bool {
        self.addr == 0
    }

    pub fn new(addr: usize) -> (p: OpaquePtr)
        ensures
            p.addr == addr,
    {
        OpaquePtr { addr }
    }

    pub fn null() -> (p: OpaquePtr)
        ensures
            p.addr == 0,
            p.spec_is_null(),
    {
        OpaquePtr { addr: 0 }
    }

    #[verifier::when_used_as_spec(spec_is_null)]
    pub fn is_null(self) -> (r: bool)
        ensures
            r == self.spec_is_null(),
    {
        self.addr == 0
    }
}

/// Where the engine keeps the liveness flag of one of its objects. The flag is
/// the engine's; every capability object for that object shares it.
#[derive(Clone, Copy, PartialEq, Eq, Structural, Debug)]
pub struct RustValueStatus {
    pub flag: OpaquePtr,
}

impl RustValueStatus {
    pub fn new(flag: OpaquePtr) -> (s: RustValueStatus)
        ensures
            s.flag == flag,
    {
        RustValueStatus { flag }
    }

    /// Reads the flag: whether the engine has destroyed the object. A
    /// capability object whose flag is set must not be used any more.
    pub fn disposed<E: Engine>(&self, engine: &E) -> (r: bool)
        requires
            engine.inv(),
            engine@.is_status(*self),
        ensures
            r == engine@.disposed(*self),
            r == !engine@.is_live(*self),
    {
        engine.status_disposed(*self)
    }
}

/// What the engine returns when it vends an object: the handle (null for "no
/// object"), the method table for the type it was asked for, and the object's
/// disposal status.
#[derive(Debug)]
pub struct RustValue<T> {
    pub value: OpaquePtr,
    pub method_pointer: T,
    pub status: RustValueStatus,
}

/// What a 32-bit flag from the engine means: zero is false, all else is true.
pub open spec fn spec_flag_from_wire(value: i32) -> bool {
    value != 0
}

/// The 32-bit flag sent to the engine for a boolean: 1 for true, 0 for false.
pub open spec fn spec_flag_to_wire(value: bool) -> i32 {
    if value {
        1
    } else {
        0
    }
}

#[verifier::when_used_as_spec(spec_flag_from_wire)]
pub fn flag_from_wire(value: i32) -> (r: bool)
    ensures
        r == spec_flag_from_wire(value),
{
    value != 0
}

#[verifier::when_used_as_spec(spec_flag_to_wire)]
pub fn flag_to_wire(value: bool) -> (r: i32)
    ensures
        r == spec_flag_to_wire(value),
{
    if value {
        1
    } else {
        0
    }
}

/// A boolean survives the trip to the engine and back.
pub proof fn flag_round_trip(value: bool)
    ensures
        flag_from_wire(flag_to_wire(value)) == value,
{
}

/// Reading a flag and sending it again yields 0 or 1, whatever came in, and
/// keeps its meaning.
pub proof fn flag_normalized(value: i32)
    ensures
        flag_to_wire(flag_from_wire(value)) == 0 || flag_to_wire(flag_from_wire(value)) == 1,
        flag_to_wire(flag_from_wire(value)) == 0 <==> value == 0,
        flag_from_wire(flag_to_wire(flag_from_wire(value))) == flag_from_wire(value),
{
}

} // verus!
