//! Error values returned by the evaluator, the batch evaluator and the
//! compilation drivers. Every public operation reports failure through one of
//! these types; nothing in this crate panics on user input.

use vstd::prelude::*;

verus! {

/// Raised by the batch evaluator when the rows it was handed do not all have
/// the same width. Carries the width of every row, in order.
#[derive(Debug)]
pub struct LengthMismatchError {
    /// The width of each input row, in the order the rows were given.
    pub lengths: Vec<usize>,
}

impl LengthMismatchError {
    /// Record the row widths that disagreed.
    pub fn new(lengths: Vec<usize>) -> (r: LengthMismatchError)
        ensures
            r.lengths == lengths,
    {
        LengthMismatchError { lengths }
    }
}

/// Raised by the batch evaluator when no rows at all were supplied.
#[derive(Debug)]
pub struct NoVariableError {}

impl NoVariableError {
    /// Make the empty-input marker.
    pub fn new() -> (r: NoVariableError)
        ensures
            r == (NoVariableError {}),
    {
        NoVariableError {}
    }
}

/// Raised while turning user input into an expression tree; carries the row
/// widths that could not be reconciled.
#[derive(Debug)]
pub struct ExprParsingError {
    /// The width of each input row, in the order the rows were given.
    pub lengths: Vec<usize>,
}

impl ExprParsingError {
    /// Record the row widths that could not be parsed into an expression.
    pub fn new(lengths: Vec<usize>) -> (r: ExprParsingError)
        ensures
            r.lengths == lengths,
    {
        ExprParsingError { lengths }
    }
}

/// Raised when a host binding hands over a value of a scalar type this
/// library does not work on; the library is fixed at binary64.
#[derive(Debug)]
pub struct UnsupportedTypeError {}

impl UnsupportedTypeError {
    /// Make the unsupported-type marker.
    pub fn new() -> (r: UnsupportedTypeError)
        ensures
            r == (UnsupportedTypeError {}),
    {
        UnsupportedTypeError {}
    }
}

/// Everything that can go wrong when evaluating an expression tree.
#[derive(Debug)]
pub enum ExpressionError {
    /// The tree reads a variable index at or beyond the width of the
    /// variable vector it was evaluated against.
    IndexOutOfRange { index: usize, arity_provided: usize },
    /// The rows given to the batch evaluator have differing widths.
    LengthMismatch(LengthMismatchError),
    /// The batch evaluator was given no rows at all.
    EmptyInput(NoVariableError),
}

/// Everything the compilation drivers report. The fixed-arity shapes refuse a
/// tree whose arity exceeds the shape's capacity.
#[derive(Debug)]
pub enum CompileError {
    /// The tree needs `needed` variables but the chosen shape passes only
    /// `shape` scalar parameters.
    ShapeMismatch { needed: usize, shape: usize },
}

} // verus!
