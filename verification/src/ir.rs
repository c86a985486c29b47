//! Lowering: from an expression tree to a small SSA program.
//!
//! A program is a straight-line list of instructions; each instruction's
//! operands name earlier instructions, and the last instruction is the
//! program's result. The lowering walks the tree once in post-order, so the
//! emitted program applies the same primitives in the same order as the
//! tree-walk evaluator; that agreement is proved below, for every variable
//! vector wide enough for the tree.
//!
//! There are four compile shapes. The fixed-arity shapes pass one, two or
//! three scalar parameters and refuse a tree whose arity exceeds the shape;
//! the N-D shape reads every variable out of a pointed-to array, with no
//! bound on the arity.

use vstd::prelude::*;

use crate::errors::CompileError;
use crate::eval::{eval_binary, eval_expr, eval_unary};
use crate::expr::{arity, lemma_uses_below_arity, uses_var, BinaryOp, Expr, UnaryOp};
use crate::scalar::spec_ln_bits;

verus! {

/// The input signature a tree is compiled for: one, two or three scalar
/// parameters, or a pointer to an array of scalars together with its length.
#[derive(Debug, Clone, Copy, PartialEq, Eq, Structural)]
pub enum Shape {
    /// One scalar parameter.
    OneD,
    /// Two scalar parameters.
    TwoD,
    /// Three scalar parameters.
    ThreeD,
    /// A pointer to contiguous scalars, plus a length that the emitted code
    /// never checks.
    ND,
}

/// How many scalar parameters a fixed-arity shape passes; the N-D shape
/// passes none.
pub open spec fn shape_params(shape: Shape) -> nat {
    match shape {
        Shape::OneD => 1,
        Shape::TwoD => 2,
        Shape::ThreeD => 3,
        Shape::ND => 0,
    }
}

/// One SSA instruction. Operands are indices of earlier instructions.
#[derive(Debug, Clone, Copy, PartialEq, Eq, Structural)]
pub enum IrInst {
    /// A constant binary64 value, given by its bits.
    Const(u64),
    /// The scalar parameter with the given index; only in fixed-arity
    /// shapes.
    Param(usize),
    /// A load of the variable with the given index from the pointed-to
    /// array; only in the N-D shape.
    Load(usize),
    /// A unary operator applied to the value of an earlier instruction.
    Unary(UnaryOp, usize),
    /// A binary operator applied to the values of two earlier instructions.
    /// A well-formed program never holds the base-`b` logarithm: lowering
    /// splits it into two natural logarithms and a division, so that every
    /// instruction is one the code generator takes directly or as one call.
    Binary(BinaryOp, usize, usize),
}

/// Well-formedness of one instruction at position `i`: operands name earlier
/// instructions, parameters stay within the shape, loads appear only in the
/// N-D shape, and the base-`b` logarithm does not appear at all.
pub open spec fn inst_wf(inst: IrInst, i: int, shape: Shape) -> bool {
    match inst {
        IrInst::Const(_) => true,
        IrInst::Param(k) => shape != Shape::ND && (k as nat) < shape_params(shape),
        IrInst::Load(_) => shape == Shape::ND,
        IrInst::Unary(_, a) => a < i,
        IrInst::Binary(op, a, b) => a < i && b < i && op != BinaryOp::Log,
    }
}

/// Well-formedness of a whole program for a shape.
pub open spec fn insts_wf(insts: Seq<IrInst>, shape: Shape) -> bool {
    forall|i: int| 0 <= i < insts.len() ==> inst_wf(#[trigger] insts[i], i, shape)
}

/// The value the instruction at position `i` computes, against a vector of
/// variable bit patterns. Both scalar parameters and loaded array elements
/// are the corresponding entries of the vector. Meaningful for well-formed
/// programs; an out-of-order operand yields zero.
pub open spec fn inst_value(insts: Seq<IrInst>, i: int, vars: Seq<u64>) -> u64
    decreases i,
{
    if 0 <= i < insts.len() {
        match insts[i] {
            IrInst::Const(bits) => bits,
            IrInst::Param(k) => vars[k as int],
            IrInst::Load(k) => vars[k as int],
            IrInst::Unary(op, a) => if a < i {
                eval_unary(op, inst_value(insts, a as int, vars))
            } else {
                0
            },
            IrInst::Binary(op, a, b) => if a < i && b < i {
                eval_binary(
                    op,
                    inst_value(insts, a as int, vars),
                    inst_value(insts, b as int, vars),
                )
            } else {
                0
            },
        }
    } else {
        0
    }
}

/// Appending instructions to a well-formed program does not change the value
/// of any instruction already in it.
pub proof fn lemma_inst_value_extend(
    s1: Seq<IrInst>,
    s2: Seq<IrInst>,
    shape: Shape,
    i: int,
    vars: Seq<u64>,
)
    requires
        insts_wf(s1, shape),
        0 <= i < s1.len(),
        s1.len() <= s2.len(),
        forall|j: int| 0 <= j < s1.len() ==> s1[j] == #[trigger] s2[j],
    ensures
        inst_value(s2, i, vars) == inst_value(s1, i, vars),
    decreases i,
{
    match s1[i] {
        IrInst::Unary(_, a) => {
            lemma_inst_value_extend(s1, s2, shape, a as int, vars);
        },
        IrInst::Binary(_, a, b) => {
            lemma_inst_value_extend(s1, s2, shape, a as int, vars);
            lemma_inst_value_extend(s1, s2, shape, b as int, vars);
        },
        _ => {},
    }
}

/// Lower one tree node in post-order: append the instructions for the
/// subtree and return the index of the instruction holding its value. The
/// appended program computes exactly what the evaluator computes on the
/// subtree, loads appear only for variables the subtree really uses, and
/// everything already in the program is left untouched.
fn lower_node(e: &Expr, shape: Shape, insts: &mut Vec<IrInst>) -> (idx: usize)
    requires
        shape == Shape::ND || arity(*e) <= shape_params(shape),
        insts_wf(old(insts)@, shape),
    ensures
        final(insts)@.len() > old(insts)@.len(),
        idx == final(insts)@.len() - 1,
        forall|j: int|
            0 <= j < old(insts)@.len() ==> old(insts)@[j] == #[trigger] final(insts)@[j],
        insts_wf(final(insts)@, shape),
        forall|vars: Seq<u64>|
            arity(*e) <= vars.len() ==> inst_value(final(insts)@, idx as int, vars) == eval_expr(
                *e,
                vars,
            ),
        forall|j: int|
            old(insts)@.len() <= j < final(insts)@.len() ==> ((#[trigger] final(insts)@[j]) matches
                IrInst::Load(k) ==> uses_var(*e, k)),
    decreases *e,
{
    match e {
        Expr::Constant(bits) => {
            insts.push(IrInst::Const(*bits));
            insts.len() - 1
        },
        Expr::Variable(i) => {
            match shape {
                Shape::ND => insts.push(IrInst::Load(*i)),
                _ => insts.push(IrInst::Param(*i)),
            }
            insts.len() - 1
        },
        Expr::Unary(op, inner) => {
            let a = lower_node(inner, shape, insts);
            let ghost after_inner = insts@;
            insts.push(IrInst::Unary(*op, a));
            let idx = insts.len() - 1;
            proof {
                assert forall|vars: Seq<u64>| arity(*e) <= vars.len() implies inst_value(
                    insts@,
                    idx as int,
                    vars,
                ) == eval_expr(*e, vars) by {
                    lemma_inst_value_extend(after_inner, insts@, shape, a as int, vars);
                    assert(inst_value(after_inner, a as int, vars) == eval_expr(**inner, vars));
                }
            }
            idx
        },
        Expr::Binary(op, left, right) => {
            let a = lower_node(left, shape, insts);
            let ghost after_left = insts@;
            let b = lower_node(right, shape, insts);
            let ghost after_right = insts@;
            match op {
                BinaryOp::Log => {
                    // The generator has no logarithm instruction of its own:
                    // emit ln of the argument, ln of the base, and their
                    // quotient, exactly the evaluator's meaning of the node.
                    insts.push(IrInst::Unary(UnaryOp::Ln, a));
                    let ln_a = insts.len() - 1;
                    insts.push(IrInst::Unary(UnaryOp::Ln, b));
                    let ln_b = insts.len() - 1;
                    insts.push(IrInst::Binary(BinaryOp::Frac, ln_a, ln_b));
                    let idx = insts.len() - 1;
                    proof {
                        assert forall|vars: Seq<u64>| arity(*e) <= vars.len() implies inst_value(
                            insts@,
                            idx as int,
                            vars,
                        ) == eval_expr(*e, vars) by {
                            lemma_inst_value_extend(after_left, after_right, shape, a as int, vars);
                            lemma_inst_value_extend(after_right, insts@, shape, a as int, vars);
                            lemma_inst_value_extend(after_right, insts@, shape, b as int, vars);
                            assert(inst_value(after_left, a as int, vars) == eval_expr(
                                **left,
                                vars,
                            ));
                            assert(inst_value(after_right, b as int, vars) == eval_expr(
                                **right,
                                vars,
                            ));
                            assert(inst_value(insts@, a as int, vars) == eval_expr(**left, vars));
                            assert(inst_value(insts@, b as int, vars) == eval_expr(**right, vars));
                            assert(inst_value(insts@, ln_a as int, vars) == spec_ln_bits(
                                eval_expr(**left, vars),
                            ));
                            assert(inst_value(insts@, ln_b as int, vars) == spec_ln_bits(
                                eval_expr(**right, vars),
                            ));
                        }
                    }
                    idx
                },
                _ => {
                    insts.push(IrInst::Binary(*op, a, b));
                    let idx = insts.len() - 1;
                    proof {
                        assert forall|vars: Seq<u64>| arity(*e) <= vars.len() implies inst_value(
                            insts@,
                            idx as int,
                            vars,
                        ) == eval_expr(*e, vars) by {
                            lemma_inst_value_extend(after_left, after_right, shape, a as int, vars);
                            lemma_inst_value_extend(after_right, insts@, shape, a as int, vars);
                            lemma_inst_value_extend(after_right, insts@, shape, b as int, vars);
                            assert(inst_value(after_left, a as int, vars) == eval_expr(
                                **left,
                                vars,
                            ));
                            assert(inst_value(after_right, b as int, vars) == eval_expr(
                                **right,
                                vars,
                            ));
                            assert(inst_value(insts@, a as int, vars) == eval_expr(**left, vars));
                            assert(inst_value(insts@, b as int, vars) == eval_expr(**right, vars));
                        }
                    }
                    idx
                },
            }
        },
    }
}

/// A compiled program: the shape it was compiled for and its instructions.
/// The value of the last instruction is the program's result.
pub struct IrFunction {
    /// The input signature the program was compiled for.
    pub shape: Shape,
    /// The instructions, in SSA order; the last one holds the result.
    pub insts: Vec<IrInst>,
}

impl IrFunction {
    /// The program is non-empty and well-formed for its shape.
    pub open spec fn wf(&self) -> bool {
        &&& self.insts@.len() > 0
        &&& insts_wf(self.insts@, self.shape)
    }

    /// The program's result against a vector of variable bit patterns.
    pub open spec fn spec_result(&self, vars: Seq<u64>) -> u64 {
        inst_value(self.insts@, self.insts@.len() - 1, vars)
    }

    /// True when no instruction reads the pointed-to array: the compiled
    /// code never touches the input pointer.
    pub open spec fn no_loads(&self) -> bool {
        forall|j: int| 0 <= j < self.insts@.len() ==> !((#[trigger] self.insts@[j]) matches IrInst::Load(_))
    }

    /// True when every load reads a variable index strictly below `bound`:
    /// the emitted code touches the pointed-to array only below that many
    /// elements.
    pub open spec fn loads_below(&self, bound: nat) -> bool {
        forall|j: int|
            0 <= j < self.insts@.len() ==> ((#[trigger] self.insts@[j]) matches IrInst::Load(k)
                ==> (k as nat) < bound)
    }

    /// How many instructions the program holds.
    pub fn len(&self) -> (n: usize)
        ensures
            n == self.insts@.len(),
    {
        self.insts.len()
    }
}

/// Lower a whole tree for a shape whose requirements it meets.
fn lower_function(e: &Expr, shape: Shape) -> (f: IrFunction)
    requires
        shape == Shape::ND || arity(*e) <= shape_params(shape),
    ensures
        f.wf(),
        f.shape == shape,
        forall|vars: Seq<u64>|
            arity(*e) <= vars.len() ==> f.spec_result(vars) == eval_expr(*e, vars),
        forall|j: int|
            0 <= j < f.insts@.len() ==> ((#[trigger] f.insts@[j]) matches IrInst::Load(k)
                ==> uses_var(*e, k)),
{
    let mut insts: Vec<IrInst> = Vec::new();
    let _idx = lower_node(e, shape, &mut insts);
    IrFunction { shape, insts }
}

impl Expr {
    /// Compile the tree for the one-parameter shape.
    ///
    /// Fails with a shape mismatch exactly when the tree's arity exceeds
    /// one; otherwise the returned program computes, on every wide-enough
    /// variable vector, exactly what the evaluator computes.
    pub fn compile_1d(&self) -> (r: Result<IrFunction, CompileError>)
        requires
            arity(*self) <= usize::MAX,
        ensures
            arity(*self) <= 1 ==> (r matches Ok(f) && f.wf() && f.shape == Shape::OneD && forall|
                vars: Seq<u64>,
            |
                arity(*self) <= vars.len() ==> f.spec_result(vars) == eval_expr(*self, vars)),
            arity(*self) > 1 ==> (r matches Err(CompileError::ShapeMismatch { needed, shape })
                && needed == arity(*self) && shape == 1),
    {
        let needed = self.num_variables();
        if needed > 1 {
            return Err(CompileError::ShapeMismatch { needed, shape: 1 });
        }
        Ok(lower_function(self, Shape::OneD))
    }

    /// Compile the tree for the two-parameter shape.
    ///
    /// Fails with a shape mismatch exactly when the tree's arity exceeds
    /// two; otherwise the returned program computes, on every wide-enough
    /// variable vector, exactly what the evaluator computes.
    pub fn compile_2d(&self) -> (r: Result<IrFunction, CompileError>)
        requires
            arity(*self) <= usize::MAX,
        ensures
            arity(*self) <= 2 ==> (r matches Ok(f) && f.wf() && f.shape == Shape::TwoD && forall|
                vars: Seq<u64>,
            |
                arity(*self) <= vars.len() ==> f.spec_result(vars) == eval_expr(*self, vars)),
            arity(*self) > 2 ==> (r matches Err(CompileError::ShapeMismatch { needed, shape })
                && needed == arity(*self) && shape == 2),
    {
        let needed = self.num_variables();
        if needed > 2 {
            return Err(CompileError::ShapeMismatch { needed, shape: 2 });
        }
        Ok(lower_function(self, Shape::TwoD))
    }

    /// Compile the tree for the three-parameter shape.
    ///
    /// Fails with a shape mismatch exactly when the tree's arity exceeds
    /// three; otherwise the returned program computes, on every wide-enough
    /// variable vector, exactly what the evaluator computes.
    pub fn compile_3d(&self) -> (r: Result<IrFunction, CompileError>)
        requires
            arity(*self) <= usize::MAX,
        ensures
            arity(*self) <= 3 ==> (r matches Ok(f) && f.wf() && f.shape == Shape::ThreeD && forall|
                vars: Seq<u64>,
            |
                arity(*self) <= vars.len() ==> f.spec_result(vars) == eval_expr(*self, vars)),
            arity(*self) > 3 ==> (r matches Err(CompileError::ShapeMismatch { needed, shape })
                && needed == arity(*self) && shape == 3),
    {
        let needed = self.num_variables();
        if needed > 3 {
            return Err(CompileError::ShapeMismatch { needed, shape: 3 });
        }
        Ok(lower_function(self, Shape::ThreeD))
    }

    /// Compile the tree for the pointer-and-length shape. Never fails: the
    /// shape puts no bound on the arity.
    ///
    /// The returned program computes, on every wide-enough variable vector,
    /// exactly what the evaluator computes. Every load in it is of a
    /// variable the tree really uses, so the emitted code reads the
    /// pointed-to array only below the tree's arity — the caller's safety
    /// obligation is exactly that many elements — and a tree without
    /// variables compiles to a program that never reads the array at all.
    pub fn compile_nd(&self) -> (r: Result<IrFunction, CompileError>)
        ensures
            (r matches Ok(f) && f.wf() && f.shape == Shape::ND && (forall|vars: Seq<u64>|
                arity(*self) <= vars.len() ==> f.spec_result(vars) == eval_expr(*self, vars)) && (
            forall|j: int|
                0 <= j < f.insts@.len() ==> ((#[trigger] f.insts@[j]) matches IrInst::Load(k)
                    ==> uses_var(*self, k))) && f.loads_below(arity(*self)) && (arity(*self) == 0
                ==> f.no_loads())),
    {
        let f = lower_function(self, Shape::ND);
        proof {
            assert forall|j: int| 0 <= j < f.insts@.len() implies ((#[trigger] f.insts@[j])
                matches IrInst::Load(k) ==> (k as nat) < arity(*self)) by {
                match f.insts@[j] {
                    IrInst::Load(k) => {
                        lemma_uses_below_arity(*self, k);
                    },
                    _ => {},
                }
            }
            if arity(*self) == 0 {
                assert forall|j: int| 0 <= j < f.insts@.len() implies !((#[trigger] f.insts@[j])
                    matches IrInst::Load(_)) by {
                    match f.insts@[j] {
                        IrInst::Load(k) => {
                            lemma_uses_below_arity(*self, k);
                        },
                        _ => {},
                    }
                }
            }
        }
        Ok(f)
    }
}

} // verus!
