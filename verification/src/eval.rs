//! The tree-walk evaluator: the reference semantics of an expression tree.
//!
//! `eval_expr` is the mathematical meaning of a tree against a vector of
//! variable bit patterns: primitive operations applied in left-to-right
//! post-order, with no reassociation or simplification. The executable
//! evaluator is proved to return exactly that value whenever the vector is
//! wide enough, and an index-out-of-range error otherwise.

use vstd::prelude::*;

use crate::errors::{ExpressionError, LengthMismatchError, NoVariableError};
use crate::expr::{arity, uses_var, BinaryOp, Expr, UnaryOp};
use crate::scalar::{
    add_bits, cos_bits, div_bits, exp_bits, ln_bits, mul_bits, neg_bits, pow_bits, sin_bits,
    spec_add_bits, spec_cos_bits, spec_div_bits, spec_exp_bits, spec_ln_bits, spec_mul_bits,
    spec_neg_bits, spec_pow_bits, spec_sin_bits, spec_sqrt_bits, spec_sub_bits, sqrt_bits,
    sub_bits,
};
use crate::scalar::lemma_neg_bits_involution;

verus! {

/// The meaning of one unary operator on a binary64 bit pattern.
pub open spec fn eval_unary(op: UnaryOp, x: u64) -> u64 {
    match op {
        UnaryOp::Negate => spec_neg_bits(x),
        UnaryOp::Sqrt => spec_sqrt_bits(x),
        UnaryOp::Sin => spec_sin_bits(x),
        UnaryOp::Cos => spec_cos_bits(x),
        UnaryOp::Exp => spec_exp_bits(x),
        UnaryOp::Ln => spec_ln_bits(x),
    }
}

/// The meaning of one binary operator on two binary64 bit patterns. The
/// base-`y` logarithm of `x` is `ln(x) / ln(y)`.
pub open spec fn eval_binary(op: BinaryOp, x: u64, y: u64) -> u64 {
    match op {
        BinaryOp::Add => spec_add_bits(x, y),
        BinaryOp::Subtract => spec_sub_bits(x, y),
        BinaryOp::Multiply => spec_mul_bits(x, y),
        BinaryOp::Frac => spec_div_bits(x, y),
        BinaryOp::Pow => spec_pow_bits(x, y),
        BinaryOp::Log => spec_div_bits(spec_ln_bits(x), spec_ln_bits(y)),
    }
}

/// The value of a tree against a vector of variable bit patterns: each
/// primitive applied to the values of the children, left child before right.
/// Meaningful when the vector is at least as wide as the tree's arity.
pub open spec fn eval_expr(e: Expr, vars: Seq<u64>) -> u64
    decreases e,
{
    match e {
        Expr::Constant(bits) => bits,
        Expr::Variable(i) => vars[i as int],
        Expr::Unary(op, inner) => eval_unary(op, eval_expr(*inner, vars)),
        Expr::Binary(op, left, right) => eval_binary(
            op,
            eval_expr(*left, vars),
            eval_expr(*right, vars),
        ),
    }
}

/// Apply one unary operator to a binary64 bit pattern.
pub fn apply_unary(op: UnaryOp, x: u64) -> (r: u64)
    ensures
        r == eval_unary(op, x),
{
    match op {
        UnaryOp::Negate => neg_bits(x),
        UnaryOp::Sqrt => sqrt_bits(x),
        UnaryOp::Sin => sin_bits(x),
        UnaryOp::Cos => cos_bits(x),
        UnaryOp::Exp => exp_bits(x),
        UnaryOp::Ln => ln_bits(x),
    }
}

/// Apply one binary operator to two binary64 bit patterns.
pub fn apply_binary(op: BinaryOp, x: u64, y: u64) -> (r: u64)
    ensures
        r == eval_binary(op, x, y),
{
    match op {
        BinaryOp::Add => add_bits(x, y),
        BinaryOp::Subtract => sub_bits(x, y),
        BinaryOp::Multiply => mul_bits(x, y),
        BinaryOp::Frac => div_bits(x, y),
        BinaryOp::Pow => pow_bits(x, y),
        BinaryOp::Log => {
            let ln_x = ln_bits(x);
            let ln_y = ln_bits(y);
            div_bits(ln_x, ln_y)
        },
    }
}

/// The width of every row, in order.
pub open spec fn row_widths(rows: Seq<Vec<u64>>) -> Seq<usize> {
    rows.map_values(|row: Vec<u64>| row.len())
}

/// True when every row is as wide as the first one.
pub open spec fn widths_equal(rows: Seq<Vec<u64>>) -> bool {
    forall|i: int| 0 <= i < rows.len() ==> #[trigger] rows[i]@.len() == rows[0]@.len()
}

impl Expr {
    /// Evaluate the tree against one vector of variable bit patterns.
    ///
    /// Succeeds with the post-order value exactly when the vector is at
    /// least as wide as the tree's arity; otherwise reports the out-of-range
    /// variable index it ran into, and the width that was provided.
    pub fn evaluate(&self, variables: &Vec<u64>) -> (r: Result<u64, ExpressionError>)
        ensures
            arity(*self) <= variables@.len() ==> r == Ok::<u64, ExpressionError>(
                eval_expr(*self, variables@),
            ),
            arity(*self) > variables@.len() ==> (r matches Err(
                ExpressionError::IndexOutOfRange { index, arity_provided },
            ) && arity_provided == variables@.len() && index >= variables@.len() && uses_var(
                *self,
                index,
            )),
        decreases *self,
    {
        match self {
            Expr::Constant(bits) => Ok(*bits),
            Expr::Variable(i) => {
                if *i < variables.len() {
                    Ok(variables[*i])
                } else {
                    Err(
                        ExpressionError::IndexOutOfRange {
                            index: *i,
                            arity_provided: variables.len(),
                        },
                    )
                }
            },
            Expr::Unary(op, inner) => {
                match inner.evaluate(variables) {
                    Ok(x) => Ok(apply_unary(*op, x)),
                    Err(e) => Err(e),
                }
            },
            Expr::Binary(op, left, right) => {
                match left.evaluate(variables) {
                    Ok(x) => {
                        match right.evaluate(variables) {
                            Ok(y) => Ok(apply_binary(*op, x, y)),
                            Err(e) => Err(e),
                        }
                    },
                    Err(e) => Err(e),
                }
            },
        }
    }

    /// Evaluate the tree once per row of a batch.
    ///
    /// With no rows at all the batch is refused as empty input; with rows of
    /// differing widths it is refused with every width recorded; otherwise
    /// every row is evaluated in order, and nothing is returned unless every
    /// row succeeds.
    pub fn evaluate_vec(&self, variables: &Vec<Vec<u64>>) -> (r: Result<
        Vec<u64>,
        ExpressionError,
    >)
        ensures
            variables@.len() == 0 ==> (r matches Err(ExpressionError::EmptyInput(_))),
            variables@.len() > 0 && !widths_equal(variables@) ==> (r matches Err(
                ExpressionError::LengthMismatch(e),
            ) && e.lengths@ == row_widths(variables@)),
            variables@.len() > 0 && widths_equal(variables@) && arity(*self)
                <= variables@[0]@.len() ==> (r matches Ok(out) && out@.len() == variables@.len()
                && (forall|i: int|
                0 <= i < variables@.len() ==> out@[i] == eval_expr(*self, variables@[i]@))),
            variables@.len() > 0 && widths_equal(variables@) && arity(*self)
                > variables@[0]@.len() ==> (r matches Err(
                ExpressionError::IndexOutOfRange { index, arity_provided },
            ) && arity_provided == variables@[0]@.len() && uses_var(*self, index)),
    {
        // Record the width of every row up front.
        let mut lengths: Vec<usize> = Vec::new();
        let row_count = variables.len();
        for idx in 0..row_count
            invariant
                row_count == variables@.len(),
                lengths@.len() == idx,
                forall|j: int| 0 <= j < idx ==> lengths@[j] == variables@[j]@.len(),
        {
            lengths.push(variables[idx].len());
        }

        // An empty batch is refused outright.
        if row_count == 0 {
            return Err(ExpressionError::EmptyInput(NoVariableError::new()));
        }
        let first_length = lengths[0];

        // Every row must be as wide as the first; the batch is refused
        // before any row is evaluated.
        for idx in 0..row_count
            invariant
                row_count == variables@.len(),
                row_count > 0,
                lengths@.len() == row_count,
                forall|j: int| 0 <= j < row_count ==> lengths@[j] == variables@[j]@.len(),
                first_length == variables@[0]@.len(),
                forall|j: int|
                    0 <= j < idx ==> (#[trigger] variables@[j])@.len() == variables@[0]@.len(),
        {
            if lengths[idx] != first_length {
                assert(lengths@ =~= row_widths(variables@));
                return Err(ExpressionError::LengthMismatch(LengthMismatchError::new(lengths)));
            }
        }

        // The widths agree, so evaluate row by row; the first failure stops
        // the batch.
        let mut results: Vec<u64> = Vec::new();
        for idx in 0..row_count
            invariant
                row_count == variables@.len(),
                row_count > 0,
                widths_equal(variables@),
                first_length == variables@[0]@.len(),
                results@.len() == idx,
                forall|j: int| 0 <= j < idx ==> results@[j] == eval_expr(*self, variables@[j]@),
                idx > 0 ==> arity(*self) <= variables@[0]@.len(),
        {
            assert(variables@[idx as int]@.len() == variables@[0]@.len());
            match self.evaluate(&variables[idx]) {
                Ok(value) => results.push(value),
                Err(e) => {
                    return Err(e);
                },
            }
        }
        Ok(results)
    }
}

/// Negating a tree twice evaluates to exactly what the tree itself does, on
/// every variable vector and every bit pattern, NaN payloads and signed
/// zeros included.
pub proof fn lemma_double_negation(e: Expr, vars: Seq<u64>)
    ensures
        eval_expr(
            Expr::Unary(UnaryOp::Negate, Box::new(Expr::Unary(UnaryOp::Negate, Box::new(e)))),
            vars,
        ) == eval_expr(e, vars),
{
    let mid = Expr::Unary(UnaryOp::Negate, Box::new(e));
    let outer = Expr::Unary(UnaryOp::Negate, Box::new(mid));
    assert(eval_expr(mid, vars) == spec_neg_bits(eval_expr(e, vars)));
    assert(eval_expr(outer, vars) == spec_neg_bits(eval_expr(mid, vars)));
    lemma_neg_bits_involution(eval_expr(e, vars));
}

} // verus!
