//! A verified model of an LLVM-backed shader compiler backend.
//!
//! The library captures the decision logic of the backend — handle ownership
//! and disposal order, the instruction builder's attach/detach state machine,
//! the unverified-to-verified module transition, type construction with
//! vector-length scaling, and the compiler driver's target-selection and
//! JIT-planning decisions — as verified functions over plain values. The
//! native code-generation engine itself is driven from outside the library:
//! a host program performs each engine action that a verified decision calls
//! for and hands the engine's answer back as a plain value.

pub mod builder;
pub mod config;
pub mod context;
pub mod driver;
pub mod module;
pub mod types;
pub mod values;

use vstd::prelude::*;

verus! {

/// Names handed to the engine are embedded in terminator-delimited storage,
/// so an embedded terminator character in one is a caller bug.
pub open spec fn no_nul(s: Seq<char>) -> bool {
    forall|i: int| 0 <= i < s.len() ==> s[i] != '\0'
}

} // verus!
