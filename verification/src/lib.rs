//! Expression trees over IEEE-754 binary64 values, with a tree-walking
//! evaluator and a lowering pipeline that compiles a tree into a small SSA
//! program for a native code generator.
//!
//! Binary64 values are carried as their bit patterns (`u64`), so that the
//! structural logic — construction, arity analysis, evaluation order, shape
//! checking and lowering — is verified, while the floating-point primitives
//! themselves stand behind a small trusted scalar layer.

use vstd::prelude::*;

pub mod emit;
pub mod errors;
pub mod eval;
pub mod expr;
pub mod functions;
pub mod ir;
pub mod scalar;
pub mod variable_state;
pub mod variables;

verus! {

/// The number of bytes a binary64 value occupies in memory.
pub const BINARY64_BYTES: usize = 8;

} // verus!
