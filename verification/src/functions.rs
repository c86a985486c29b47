//! Combinator functions that build expression trees.
//!
//! Construction is purely structural: no combinator folds constants, checks a
//! domain or simplifies anything. A constant is given by the bit pattern of
//! the binary64 value it stands for.

use vstd::prelude::*;

use crate::expr::{BinaryOp, Expr, UnaryOp};

verus! {

/// A constant leaf carrying the given binary64 bit pattern. Any bit pattern
/// is allowed, NaN and infinities included.
pub fn constant(value_bits: u64) -> (r: Expr)
    ensures
        r == Expr::Constant(value_bits),
{
    Expr::Constant(value_bits)
}

/// A variable leaf referring to the zero-based `index` into the variable
/// vector.
pub fn variable(index: usize) -> (r: Expr)
    ensures
        r == Expr::Variable(index),
{
    Expr::Variable(index)
}

/// The negation of the given expression.
pub fn neg(expr: Expr) -> (r: Expr)
    ensures
        (r matches Expr::Unary(op, inner) && op == UnaryOp::Negate && *inner == expr),
{
    Expr::Unary(UnaryOp::Negate, Box::new(expr))
}

/// The square root of the given expression.
pub fn sqrt(expr: Expr) -> (r: Expr)
    ensures
        (r matches Expr::Unary(op, inner) && op == UnaryOp::Sqrt && *inner == expr),
{
    Expr::Unary(UnaryOp::Sqrt, Box::new(expr))
}

/// The sine of the given expression.
pub fn sin(expr: Expr) -> (r: Expr)
    ensures
        (r matches Expr::Unary(op, inner) && op == UnaryOp::Sin && *inner == expr),
{
    Expr::Unary(UnaryOp::Sin, Box::new(expr))
}

/// The cosine of the given expression.
pub fn cos(expr: Expr) -> (r: Expr)
    ensures
        (r matches Expr::Unary(op, inner) && op == UnaryOp::Cos && *inner == expr),
{
    Expr::Unary(UnaryOp::Cos, Box::new(expr))
}

/// The natural exponential of the given expression.
pub fn exp(expr: Expr) -> (r: Expr)
    ensures
        (r matches Expr::Unary(op, inner) && op == UnaryOp::Exp && *inner == expr),
{
    Expr::Unary(UnaryOp::Exp, Box::new(expr))
}

/// The natural logarithm of the given expression.
pub fn ln(expr: Expr) -> (r: Expr)
    ensures
        (r matches Expr::Unary(op, inner) && op == UnaryOp::Ln && *inner == expr),
{
    Expr::Unary(UnaryOp::Ln, Box::new(expr))
}

/// The sum of the two expressions; `a` is the left operand.
pub fn add(a: Expr, b: Expr) -> (r: Expr)
    ensures
        (r matches Expr::Binary(op, l, rr) && op == BinaryOp::Add && *l == a && *rr == b),
{
    Expr::Binary(BinaryOp::Add, Box::new(a), Box::new(b))
}

/// The difference of the two expressions; `a` is the left operand.
pub fn sub(a: Expr, b: Expr) -> (r: Expr)
    ensures
        (r matches Expr::Binary(op, l, rr) && op == BinaryOp::Subtract && *l == a && *rr == b),
{
    Expr::Binary(BinaryOp::Subtract, Box::new(a), Box::new(b))
}

/// The product of the two expressions; `a` is the left operand.
pub fn mul(a: Expr, b: Expr) -> (r: Expr)
    ensures
        (r matches Expr::Binary(op, l, rr) && op == BinaryOp::Multiply && *l == a && *rr == b),
{
    Expr::Binary(BinaryOp::Multiply, Box::new(a), Box::new(b))
}

/// The quotient of the two expressions; `a` is the numerator.
pub fn div(a: Expr, b: Expr) -> (r: Expr)
    ensures
        (r matches Expr::Binary(op, l, rr) && op == BinaryOp::Frac && *l == a && *rr == b),
{
    Expr::Binary(BinaryOp::Frac, Box::new(a), Box::new(b))
}

/// `base` raised to the power `exponent`.
pub fn pow(base: Expr, exponent: Expr) -> (r: Expr)
    ensures
        (r matches Expr::Binary(op, l, rr) && op == BinaryOp::Pow && *l == base && *rr
            == exponent),
{
    Expr::Binary(BinaryOp::Pow, Box::new(base), Box::new(exponent))
}

/// The logarithm of `argument` in the base `base`: the first operand is the
/// argument and the second the base, so `log(x, b)` is the base-`b` logarithm
/// of `x`, computed as `ln(x) / ln(b)`.
pub fn log(argument: Expr, base: Expr) -> (r: Expr)
    ensures
        (r matches Expr::Binary(op, l, rr) && op == BinaryOp::Log && *l == argument && *rr
            == base),
{
    Expr::Binary(BinaryOp::Log, Box::new(argument), Box::new(base))
}

} // verus!
