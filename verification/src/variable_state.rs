//! A variable as it moves through its lifecycle: named first, and usable
//! once it has been associated with an index into the variable vector.

use vstd::prelude::*;

use crate::variables::{InitializedVariable, UninitializedVariable};

verus! {

/// A variable in an expression: either already associated with the index
/// that looks its value up during evaluation, or still only a name.
#[derive(Debug, Clone, PartialEq)]
pub enum Variable {
    /// A variable that has been initialized with an index.
    Initialized(InitializedVariable),
    /// A variable that has not yet been initialized with an index.
    Uninitialized(UninitializedVariable),
}

} // verus!
