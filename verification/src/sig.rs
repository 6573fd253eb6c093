//! Native function signatures and their raw-memory classification.
//!
//! A signature mirrors the parameter and return types of one native entry
//! point. A signature is classified as "has raw-memory parameters" when any
//! parameter is a raw pointer; that classification decides whether the
//! generated accessor must carry an unsafe-acknowledgment requirement.

use vstd::prelude::*;

verus! {

/// The type of one native parameter or return value, as it appears in the
/// native header.
#[derive(Clone, Copy, PartialEq, Eq, Structural, Debug)]
pub enum ParamType {
    /// No value at all (only meaningful as a return type).
    Void,
    /// A signed machine integer.
    Int,
    /// An unsigned machine integer.
    UnsignedInt,
    /// A boolean.
    Bool,
    /// A double-precision number (carried opaquely; never computed on here).
    Double,
    /// A raw pointer to a character buffer.
    CharPtr,
    /// A raw pointer to an untyped memory region.
    VoidPtr,
    /// A raw pointer to an integer output slot.
    IntPtr,
    /// A raw pointer to a double-precision output slot.
    DoublePtr,
    /// A raw pointer to a boolean output slot.
    BoolPtr,
    /// A raw pointer to a host object (project, track, window, ...).
    ObjectPtr,
}

impl ParamType {
    /// Whether a parameter of this type gives the native function access to
    /// caller-provided raw memory.
    pub open spec fn spec_is_raw_memory(self) -> bool {
        match self {
            ParamType::CharPtr => true,
            ParamType::VoidPtr => true,
            ParamType::IntPtr => true,
            ParamType::DoublePtr => true,
            ParamType::BoolPtr => true,
            ParamType::ObjectPtr => true,
            _ => false,
        }
    }

    /// Executable raw-memory classification of a single parameter type.
    pub fn is_raw_memory(self) -> (r: bool)
        ensures
            r == self.spec_is_raw_memory(),
    {
        match self {
            ParamType::CharPtr => true,
            ParamType::VoidPtr => true,
            ParamType::IntPtr => true,
            ParamType::DoublePtr => true,
            ParamType::BoolPtr => true,
            ParamType::ObjectPtr => true,
            _ => false,
        }
    }
}

/// The signature of one native entry point: its ordered parameter types and
/// its return type, mirrored exactly from the native header.
#[derive(Debug)]
pub struct FunctionSignature {
    /// Parameter types, in declaration order.
    pub params: Vec<ParamType>,
    /// Return type.
    pub ret: ParamType,
}

impl FunctionSignature {
    /// Whether any parameter is a raw pointer. This is a pure function of the
    /// parameter types alone; the return type plays no role.
    pub open spec fn spec_has_raw_memory_params(self) -> bool {
        exists|i: int| 0 <= i < self.params@.len() && self.params@[i].spec_is_raw_memory()
    }

    /// Executable raw-memory classification of a whole signature.
    pub fn has_raw_memory_params(&self) -> (r: bool)
        ensures
            r == self.spec_has_raw_memory_params(),
    {
        let mut i: usize = 0;
        while i < self.params.len()
            invariant
                0 <= i <= self.params@.len(),
                forall|j: int| 0 <= j < i ==> !self.params@[j].spec_is_raw_memory(),
            decreases self.params@.len() - i,
        {
            if self.params[i].is_raw_memory() {
                return true;
            }
            i += 1;
        }
        false
    }
}

} // verus!
