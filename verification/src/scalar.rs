//! The scalar layer: the IEEE-754 binary64 primitives, on bit patterns.
//!
//! Every function here takes and returns the 64-bit pattern of a binary64
//! value. The arithmetic itself is done by the host: each executable function
//! converts the bits to a native binary64 value through
//! `cranelift_codegen::ir::immediates::Ieee64` (a plain bit-pattern wrapper),
//! applies one host operation, and returns the result's bits. What each
//! operation returns is deterministic in its arguments, so each result is
//! given an uninterpreted name that the evaluator's contracts are stated
//! over. Negation alone is defined outright: IEEE-754 negation is exactly a
//! flip of the sign bit.

use vstd::prelude::*;

use cranelift_codegen::ir::immediates::Ieee64;

verus! {

/// The sign bit of a binary64 value.
pub const SIGN_BIT: u64 = 0x8000_0000_0000_0000;

/// The bits of the IEEE-754 sum of the two binary64 values the arguments
/// encode.
pub uninterp spec fn spec_add_bits(a: u64, b: u64) -> u64;

/// The bits of the IEEE-754 difference of the two binary64 values the
/// arguments encode.
pub uninterp spec fn spec_sub_bits(a: u64, b: u64) -> u64;

/// The bits of the IEEE-754 product of the two binary64 values the arguments
/// encode.
pub uninterp spec fn spec_mul_bits(a: u64, b: u64) -> u64;

/// The bits of the IEEE-754 quotient of the two binary64 values the
/// arguments encode.
pub uninterp spec fn spec_div_bits(a: u64, b: u64) -> u64;

/// The bits of the square root of the binary64 value the argument encodes.
pub uninterp spec fn spec_sqrt_bits(a: u64) -> u64;

/// The bits of the host's sine of the binary64 value the argument encodes.
pub uninterp spec fn spec_sin_bits(a: u64) -> u64;

/// The bits of the host's cosine of the binary64 value the argument encodes.
pub uninterp spec fn spec_cos_bits(a: u64) -> u64;

/// The bits of the host's natural exponential of the binary64 value the
/// argument encodes.
pub uninterp spec fn spec_exp_bits(a: u64) -> u64;

/// The bits of the host's natural logarithm of the binary64 value the
/// argument encodes.
pub uninterp spec fn spec_ln_bits(a: u64) -> u64;

/// The bits of the host's `pow` of the binary64 values the arguments encode:
/// the first argument is the base, the second the exponent.
pub uninterp spec fn spec_pow_bits(base: u64, exponent: u64) -> u64;

/// IEEE-754 negation of the binary64 value the argument encodes: the sign
/// bit flips and every other bit is kept, for every value, NaN included.
pub open spec fn spec_neg_bits(a: u64) -> u64 {
    a ^ SIGN_BIT
}

/// Relies on the host's binary64 `+` operator (IEEE-754 addition, round to
/// nearest even).
#[verifier::external_body]
pub fn add_bits(a: u64, b: u64) -> (r: u64)
    ensures
        r == spec_add_bits(a, b),
{
    (Ieee64::with_bits(a).as_f64() + Ieee64::with_bits(b).as_f64()).to_bits()
}

/// Relies on the host's binary64 `-` operator (IEEE-754 subtraction, round
/// to nearest even).
#[verifier::external_body]
pub fn sub_bits(a: u64, b: u64) -> (r: u64)
    ensures
        r == spec_sub_bits(a, b),
{
    (Ieee64::with_bits(a).as_f64() - Ieee64::with_bits(b).as_f64()).to_bits()
}

/// Relies on the host's binary64 `*` operator (IEEE-754 multiplication,
/// round to nearest even).
#[verifier::external_body]
pub fn mul_bits(a: u64, b: u64) -> (r: u64)
    ensures
        r == spec_mul_bits(a, b),
{
    (Ieee64::with_bits(a).as_f64() * Ieee64::with_bits(b).as_f64()).to_bits()
}

/// Relies on the host's binary64 `/` operator (IEEE-754 division, round to
/// nearest even; division by zero yields an infinity or NaN, never a panic).
#[verifier::external_body]
pub fn div_bits(a: u64, b: u64) -> (r: u64)
    ensures
        r == spec_div_bits(a, b),
{
    (Ieee64::with_bits(a).as_f64() / Ieee64::with_bits(b).as_f64()).to_bits()
}

/// Negation, done on the bits themselves: IEEE-754 negation flips the sign
/// bit and keeps every other bit.
pub fn neg_bits(a: u64) -> (r: u64)
    ensures
        r == spec_neg_bits(a),
{
    a ^ SIGN_BIT
}

/// Relies on the standard library's binary64 `sqrt` (IEEE-754 square root; a
/// negative argument gives NaN, never a panic).
#[verifier::external_body]
pub fn sqrt_bits(a: u64) -> (r: u64)
    ensures
        r == spec_sqrt_bits(a),
{
    Ieee64::with_bits(a).as_f64().sqrt().to_bits()
}

/// Relies on the standard library's binary64 `sin`; total on every bit
/// pattern.
#[verifier::external_body]
pub fn sin_bits(a: u64) -> (r: u64)
    ensures
        r == spec_sin_bits(a),
{
    Ieee64::with_bits(a).as_f64().sin().to_bits()
}

/// Relies on the standard library's binary64 `cos`; total on every bit
/// pattern.
#[verifier::external_body]
pub fn cos_bits(a: u64) -> (r: u64)
    ensures
        r == spec_cos_bits(a),
{
    Ieee64::with_bits(a).as_f64().cos().to_bits()
}

/// Relies on the standard library's binary64 `exp`; total on every bit
/// pattern.
#[verifier::external_body]
pub fn exp_bits(a: u64) -> (r: u64)
    ensures
        r == spec_exp_bits(a),
{
    Ieee64::with_bits(a).as_f64().exp().to_bits()
}

/// Relies on the standard library's binary64 `ln` (domain errors give NaN or
/// an infinity, never a panic).
#[verifier::external_body]
pub fn ln_bits(a: u64) -> (r: u64)
    ensures
        r == spec_ln_bits(a),
{
    Ieee64::with_bits(a).as_f64().ln().to_bits()
}

/// Relies on the standard library's binary64 `powf`; total on every pair of
/// bit patterns.
#[verifier::external_body]
pub fn pow_bits(base: u64, exponent: u64) -> (r: u64)
    ensures
        r == spec_pow_bits(base, exponent),
{
    Ieee64::with_bits(base).as_f64().powf(Ieee64::with_bits(exponent).as_f64()).to_bits()
}

/// Negating twice gives back the starting bit pattern exactly, NaN payloads
/// and signed zeros included.
pub proof fn lemma_neg_bits_involution(a: u64)
    ensures
        spec_neg_bits(spec_neg_bits(a)) == a,
{
    assert((a ^ 0x8000_0000_0000_0000u64) ^ 0x8000_0000_0000_0000u64 == a) by (bit_vector);
}

} // verus!
