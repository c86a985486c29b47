//! Emission: replaying a lowered program into a native code generator.
//!
//! The code generator's builder is held inside [`EmitBuilder`], together
//! with a ghost model of it: the stage the function under construction is
//! at, and the trace of instructions appended so far. Every trusted wrapper
//! requires the stage in which its call is legal — the generator panics on
//! an instruction outside a block, or on a second instruction after the
//! return — and promises exactly which instruction it appends. On top of
//! those wrappers, [`emit_ir`] is verified to append one generator
//! instruction per program instruction, in program order, and to return the
//! SSA value of the program's result.
//!
//! Operators the generator has no instruction for — sine, cosine, the
//! exponential and `pow` — are emitted as calls to the host math library
//! through function references the caller declared in its module; the
//! base-`b` logarithm never reaches a well-formed program, because lowering
//! already split it into two natural logarithms and a division.

use vstd::prelude::*;

use cranelift_codegen::ir::immediates::Ieee64;
use cranelift_codegen::ir::types;
use cranelift_codegen::ir::FuncRef;
use cranelift_codegen::ir::InstBuilder;
use cranelift_codegen::ir::MemFlagsData;
use cranelift_codegen::ir::Value;
use cranelift_codegen::isa::TargetFrontendConfig;
use cranelift_frontend::FunctionBuilder;

use crate::expr::{BinaryOp, UnaryOp};
use crate::ir::{inst_wf, shape_params, IrFunction, IrInst, Shape};

verus! {

/// The SSA value handle of the code generator.
#[verifier::external_type_specification]
#[verifier::external_body]
pub struct ExValue(Value);

/// A reference to a function declared in the caller's code generator module.
#[verifier::external_type_specification]
#[verifier::external_body]
pub struct ExFuncRef(FuncRef);

/// The code generator's function builder.
#[verifier::external_type_specification]
#[verifier::external_body]
pub struct ExFunctionBuilder<'a>(FunctionBuilder<'a>);

/// The target configuration the builder needs when it is concluded.
#[verifier::external_type_specification]
#[verifier::external_body]
pub struct ExTargetFrontendConfig(TargetFrontendConfig);

/// The largest variable index the pointer-and-length shape can read: the
/// byte offset of a loaded element must fit the code generator's 32-bit
/// signed load offset.
pub const MAX_LOAD_INDEX: usize = 0x0fff_ffff;

/// The stage the function under construction is at: no block yet, inside
/// the entry block, or ended by its return.
#[derive(PartialEq, Eq, Structural)]
pub enum BuildStage {
    /// The builder is fresh: no block has been created or entered.
    Fresh,
    /// The entry block is current; instructions may be appended.
    Open,
    /// The return has been emitted; the function is complete.
    Closed,
}

/// One instruction appended to the function under construction, as the
/// model records it: the operation, its operand values, and the SSA value
/// it defined.
pub enum EmitOp {
    /// A constant with the given binary64 bits.
    Const(u64, Value),
    /// A binary64 load from the base address at the given byte offset.
    Load(Value, i32, Value),
    /// IEEE-754 negation.
    Fneg(Value, Value),
    /// IEEE-754 square root.
    Sqrt(Value, Value),
    /// IEEE-754 addition.
    Fadd(Value, Value, Value),
    /// IEEE-754 subtraction.
    Fsub(Value, Value, Value),
    /// IEEE-754 multiplication.
    Fmul(Value, Value, Value),
    /// IEEE-754 division.
    Fdiv(Value, Value, Value),
    /// A call of the host `sin`.
    CallSin(Value, Value),
    /// A call of the host `cos`.
    CallCos(Value, Value),
    /// A call of the host `exp`.
    CallExp(Value, Value),
    /// A call of the host natural logarithm.
    CallLn(Value, Value),
    /// A call of the host `pow`.
    CallPow(Value, Value, Value),
    /// The function's return of the given value.
    Return(Value),
}

/// References to the host math functions the emitted code may call.
///
/// They can only be gathered through [`MathFuncRefs::new`], which records
/// the caller's declaration promise in the `wf` token the emission wrappers
/// require.
pub struct MathFuncRefs {
    sin: FuncRef,
    cos: FuncRef,
    exp: FuncRef,
    ln: FuncRef,
    pow: FuncRef,
    declared: Ghost<bool>,
}

impl MathFuncRefs {
    /// Records that the references were handed over through `new`, under
    /// its declaration promise.
    pub closed spec fn wf(&self) -> bool {
        self.declared@
    }

    /// Gather the host math function references.
    ///
    /// The caller promises that each reference names a function declared in
    /// the same module as the function under construction, taking binary64
    /// parameters — one for `sin`, `cos`, `exp` and `ln` (the natural
    /// logarithm), two for `pow` — and returning exactly one binary64
    /// result. The emission wrappers' reliance on each call having one
    /// result rests on that promise, which `wf` records.
    pub fn new(sin: FuncRef, cos: FuncRef, exp: FuncRef, ln: FuncRef, pow: FuncRef) -> (r:
        MathFuncRefs)
        ensures
            r.wf(),
    {
        MathFuncRefs { sin, cos, exp, ln, pow, declared: Ghost(true) }
    }
}

/// The code generator's function builder, together with the model the
/// emission contracts are stated over: the build stage and the trace of
/// appended instructions.
pub struct EmitBuilder<'a> {
    inner: FunctionBuilder<'a>,
    stage: Ghost<BuildStage>,
    ops: Ghost<Seq<EmitOp>>,
}

impl<'a> EmitBuilder<'a> {
    /// The stage the function under construction is at.
    pub closed spec fn build_stage(&self) -> BuildStage {
        self.stage@
    }

    /// The instructions appended so far, in order.
    pub closed spec fn emitted(&self) -> Seq<EmitOp> {
        self.ops@
    }

    /// Wrap a function builder for emission.
    ///
    /// Hand the builder over exactly as `FunctionBuilder::new` returns it,
    /// before any block has been created or entered: the stage starts at
    /// `Fresh`, and the trusted wrappers' freedom from panics rests on that
    /// starting point.
    pub fn new(inner: FunctionBuilder<'a>) -> (r: EmitBuilder<'a>)
        ensures
            r.build_stage() == BuildStage::Fresh,
            r.emitted() === Seq::<EmitOp>::empty(),
    {
        EmitBuilder { inner, stage: Ghost(BuildStage::Fresh), ops: Ghost(Seq::empty()) }
    }

    /// Relies on `FunctionBuilder::{create_block,
    /// append_block_params_for_function_params, switch_to_block, seal_block,
    /// block_params}`: creates the entry block with one parameter per
    /// parameter of the function's signature, enters and seals it, and hands
    /// the block's parameter values back. On a fresh builder this sequence
    /// cannot panic; the stage moves to `Open`.
    #[verifier::external_body]
    pub fn open_entry_block(&mut self) -> (params: Vec<Value>)
        requires
            old(self).build_stage() == BuildStage::Fresh,
        ensures
            final(self).build_stage() == BuildStage::Open,
            final(self).emitted() == old(self).emitted(),
    {
        let entry_block = self.inner.create_block();
        self.inner.append_block_params_for_function_params(entry_block);
        self.inner.switch_to_block(entry_block);
        self.inner.seal_block(entry_block);
        self.inner.block_params(entry_block).to_vec()
    }

    /// Relies on `FunctionBuilder::ins` and `InstBuilder::f64const`: inside
    /// the open block, appends an instruction materializing the constant
    /// with the given bits and returns its SSA value.
    #[verifier::external_body]
    fn push_const(&mut self, bits: u64) -> (r: Value)
        requires
            old(self).build_stage() == BuildStage::Open,
        ensures
            final(self).build_stage() == BuildStage::Open,
            final(self).emitted() == old(self).emitted().push(EmitOp::Const(bits, r)),
    {
        self.inner.ins().f64const(Ieee64::with_bits(bits))
    }

    /// Relies on `InstBuilder::load`: inside the open block, appends a
    /// binary64 load from the address in `base` at the given byte offset and
    /// returns the loaded SSA value. The emitted code checks no bound; the
    /// caller of the finished function guarantees the pointed-to array is
    /// wide enough.
    #[verifier::external_body]
    fn push_load(&mut self, base: Value, offset: i32) -> (r: Value)
        requires
            old(self).build_stage() == BuildStage::Open,
        ensures
            final(self).build_stage() == BuildStage::Open,
            final(self).emitted() == old(self).emitted().push(EmitOp::Load(base, offset, r)),
    {
        self.inner.ins().load(types::F64, MemFlagsData::new(), base, offset)
    }

    /// Relies on `InstBuilder::fneg`: inside the open block, appends an
    /// IEEE-754 negation and returns the result's SSA value.
    #[verifier::external_body]
    fn push_fneg(&mut self, x: Value) -> (r: Value)
        requires
            old(self).build_stage() == BuildStage::Open,
        ensures
            final(self).build_stage() == BuildStage::Open,
            final(self).emitted() == old(self).emitted().push(EmitOp::Fneg(x, r)),
    {
        self.inner.ins().fneg(x)
    }

    /// Relies on `InstBuilder::sqrt`: inside the open block, appends an
    /// IEEE-754 square root and returns the result's SSA value.
    #[verifier::external_body]
    fn push_sqrt(&mut self, x: Value) -> (r: Value)
        requires
            old(self).build_stage() == BuildStage::Open,
        ensures
            final(self).build_stage() == BuildStage::Open,
            final(self).emitted() == old(self).emitted().push(EmitOp::Sqrt(x, r)),
    {
        self.inner.ins().sqrt(x)
    }

    /// Relies on `InstBuilder::fadd`: inside the open block, appends an
    /// IEEE-754 addition and returns the result's SSA value.
    #[verifier::external_body]
    fn push_fadd(&mut self, x: Value, y: Value) -> (r: Value)
        requires
            old(self).build_stage() == BuildStage::Open,
        ensures
            final(self).build_stage() == BuildStage::Open,
            final(self).emitted() == old(self).emitted().push(EmitOp::Fadd(x, y, r)),
    {
        self.inner.ins().fadd(x, y)
    }

    /// Relies on `InstBuilder::fsub`: inside the open block, appends an
    /// IEEE-754 subtraction and returns the result's SSA value.
    #[verifier::external_body]
    fn push_fsub(&mut self, x: Value, y: Value) -> (r: Value)
        requires
            old(self).build_stage() == BuildStage::Open,
        ensures
            final(self).build_stage() == BuildStage::Open,
            final(self).emitted() == old(self).emitted().push(EmitOp::Fsub(x, y, r)),
    {
        self.inner.ins().fsub(x, y)
    }

    /// Relies on `InstBuilder::fmul`: inside the open block, appends an
    /// IEEE-754 multiplication and returns the result's SSA value.
    #[verifier::external_body]
    fn push_fmul(&mut self, x: Value, y: Value) -> (r: Value)
        requires
            old(self).build_stage() == BuildStage::Open,
        ensures
            final(self).build_stage() == BuildStage::Open,
            final(self).emitted() == old(self).emitted().push(EmitOp::Fmul(x, y, r)),
    {
        self.inner.ins().fmul(x, y)
    }

    /// Relies on `InstBuilder::fdiv`: inside the open block, appends an
    /// IEEE-754 division and returns the result's SSA value.
    #[verifier::external_body]
    fn push_fdiv(&mut self, x: Value, y: Value) -> (r: Value)
        requires
            old(self).build_stage() == BuildStage::Open,
        ensures
            final(self).build_stage() == BuildStage::Open,
            final(self).emitted() == old(self).emitted().push(EmitOp::Fdiv(x, y, r)),
    {
        self.inner.ins().fdiv(x, y)
    }

    /// Relies on `InstBuilder::call` and `FunctionBuilder::inst_results`,
    /// and on the promise `MathFuncRefs::new` records: inside the open
    /// block, appends a call of the host `sin` and returns the SSA value of
    /// its single result, which exists by that promise.
    #[verifier::external_body]
    fn call_sin(&mut self, math: &MathFuncRefs, x: Value) -> (r: Value)
        requires
            old(self).build_stage() == BuildStage::Open,
            math.wf(),
        ensures
            final(self).build_stage() == BuildStage::Open,
            final(self).emitted() == old(self).emitted().push(EmitOp::CallSin(x, r)),
    {
        let call = self.inner.ins().call(math.sin, &[x]);
        self.inner.inst_results(call)[0]
    }

    /// Relies on `InstBuilder::call` and `FunctionBuilder::inst_results`,
    /// and on the promise `MathFuncRefs::new` records: inside the open
    /// block, appends a call of the host `cos` and returns the SSA value of
    /// its single result.
    #[verifier::external_body]
    fn call_cos(&mut self, math: &MathFuncRefs, x: Value) -> (r: Value)
        requires
            old(self).build_stage() == BuildStage::Open,
            math.wf(),
        ensures
            final(self).build_stage() == BuildStage::Open,
            final(self).emitted() == old(self).emitted().push(EmitOp::CallCos(x, r)),
    {
        let call = self.inner.ins().call(math.cos, &[x]);
        self.inner.inst_results(call)[0]
    }

    /// Relies on `InstBuilder::call` and `FunctionBuilder::inst_results`,
    /// and on the promise `MathFuncRefs::new` records: inside the open
    /// block, appends a call of the host `exp` and returns the SSA value of
    /// its single result.
    #[verifier::external_body]
    fn call_exp(&mut self, math: &MathFuncRefs, x: Value) -> (r: Value)
        requires
            old(self).build_stage() == BuildStage::Open,
            math.wf(),
        ensures
            final(self).build_stage() == BuildStage::Open,
            final(self).emitted() == old(self).emitted().push(EmitOp::CallExp(x, r)),
    {
        let call = self.inner.ins().call(math.exp, &[x]);
        self.inner.inst_results(call)[0]
    }

    /// Relies on `InstBuilder::call` and `FunctionBuilder::inst_results`,
    /// and on the promise `MathFuncRefs::new` records: inside the open
    /// block, appends a call of the host natural logarithm and returns the
    /// SSA value of its single result.
    #[verifier::external_body]
    fn call_ln(&mut self, math: &MathFuncRefs, x: Value) -> (r: Value)
        requires
            old(self).build_stage() == BuildStage::Open,
            math.wf(),
        ensures
            final(self).build_stage() == BuildStage::Open,
            final(self).emitted() == old(self).emitted().push(EmitOp::CallLn(x, r)),
    {
        let call = self.inner.ins().call(math.ln, &[x]);
        self.inner.inst_results(call)[0]
    }

    /// Relies on `InstBuilder::call` and `FunctionBuilder::inst_results`,
    /// and on the promise `MathFuncRefs::new` records: inside the open
    /// block, appends a call of the host `pow` and returns the SSA value of
    /// its single result.
    #[verifier::external_body]
    fn call_pow(&mut self, math: &MathFuncRefs, x: Value, y: Value) -> (r: Value)
        requires
            old(self).build_stage() == BuildStage::Open,
            math.wf(),
        ensures
            final(self).build_stage() == BuildStage::Open,
            final(self).emitted() == old(self).emitted().push(EmitOp::CallPow(x, y, r)),
    {
        let call = self.inner.ins().call(math.pow, &[x, y]);
        self.inner.inst_results(call)[0]
    }

    /// Relies on `InstBuilder::return_`: inside the open block, appends the
    /// function's return of the given value. The block is thereby filled, so
    /// the stage moves to `Closed` and nothing more can be appended.
    #[verifier::external_body]
    pub fn emit_return(&mut self, value: Value)
        requires
            old(self).build_stage() == BuildStage::Open,
        ensures
            final(self).build_stage() == BuildStage::Closed,
            final(self).emitted() == old(self).emitted().push(EmitOp::Return(value)),
    {
        self.inner.ins().return_(&[value]);
    }

    /// Relies on `FunctionBuilder::finalize`: concludes the function under
    /// construction. Its single block has been filled by the return, which
    /// is what the generator's final checks expect.
    #[verifier::external_body]
    pub fn finish(self, config: TargetFrontendConfig)
        requires
            self.build_stage() == BuildStage::Closed,
    {
        let EmitBuilder { inner, .. } = self;
        inner.finalize(config)
    }
}

impl IrFunction {
    /// True when every load index is small enough for its byte offset to fit
    /// the code generator's 32-bit signed load offset.
    pub open spec fn loads_fit(&self) -> bool {
        forall|j: int|
            0 <= j < self.insts@.len() ==> ((#[trigger] self.insts@[j]) matches IrInst::Load(k)
                ==> k <= MAX_LOAD_INDEX)
    }

    /// Check that every load index is small enough for emission.
    pub fn loads_ok(&self) -> (b: bool)
        ensures
            b == self.loads_fit(),
    {
        let count = self.insts.len();
        for i in 0..count
            invariant
                count == self.insts@.len(),
                forall|j: int|
                    0 <= j < i ==> ((#[trigger] self.insts@[j]) matches IrInst::Load(k) ==> k
                        <= MAX_LOAD_INDEX),
        {
            match self.insts[i] {
                IrInst::Load(k) => {
                    if k > MAX_LOAD_INDEX {
                        return false;
                    }
                },
                _ => {},
            }
        }
        true
    }
}

/// The generator instruction one program instruction turns into, given the
/// entry parameters and the SSA value `vals[j]` of every program
/// instruction: a parameter reference appends nothing, everything else
/// appends exactly one instruction. A well-formed program never holds the
/// base-`b` logarithm; that arm only keeps the function total, with the
/// division its lowering would end in.
pub open spec fn inst_ops(inst: IrInst, params: Seq<Value>, vals: Seq<Value>, i: int) -> Seq<
    EmitOp,
> {
    match inst {
        IrInst::Const(bits) => seq![EmitOp::Const(bits, vals[i])],
        IrInst::Param(_) => Seq::empty(),
        IrInst::Load(k) => seq![
            EmitOp::Load(params[0], ((k * crate::BINARY64_BYTES) as i32), vals[i]),
        ],
        IrInst::Unary(op, a) => match op {
            UnaryOp::Negate => seq![EmitOp::Fneg(vals[a as int], vals[i])],
            UnaryOp::Sqrt => seq![EmitOp::Sqrt(vals[a as int], vals[i])],
            UnaryOp::Sin => seq![EmitOp::CallSin(vals[a as int], vals[i])],
            UnaryOp::Cos => seq![EmitOp::CallCos(vals[a as int], vals[i])],
            UnaryOp::Exp => seq![EmitOp::CallExp(vals[a as int], vals[i])],
            UnaryOp::Ln => seq![EmitOp::CallLn(vals[a as int], vals[i])],
        },
        IrInst::Binary(op, a, b) => match op {
            BinaryOp::Add => seq![EmitOp::Fadd(vals[a as int], vals[b as int], vals[i])],
            BinaryOp::Subtract => seq![EmitOp::Fsub(vals[a as int], vals[b as int], vals[i])],
            BinaryOp::Multiply => seq![EmitOp::Fmul(vals[a as int], vals[b as int], vals[i])],
            BinaryOp::Frac => seq![EmitOp::Fdiv(vals[a as int], vals[b as int], vals[i])],
            BinaryOp::Pow => seq![EmitOp::CallPow(vals[a as int], vals[b as int], vals[i])],
            BinaryOp::Log => seq![EmitOp::Fdiv(vals[a as int], vals[b as int], vals[i])],
        },
    }
}

/// The code the first `n` program instructions append on replay.
pub open spec fn replay_ops(
    insts: Seq<IrInst>,
    params: Seq<Value>,
    vals: Seq<Value>,
    n: int,
) -> Seq<EmitOp>
    decreases n,
{
    if n <= 0 {
        Seq::empty()
    } else {
        replay_ops(insts, params, vals, n - 1) + inst_ops(insts[n - 1], params, vals, n - 1)
    }
}

/// What replaying a whole program does: `ops_new` extends `ops_old` by
/// exactly the program's code, where `vals[j]` is the SSA value program
/// instruction `j` ended up holding — a parameter reference holds the entry
/// parameter itself — and `r` is the value of the program's result.
pub open spec fn replay_of(
    insts: Seq<IrInst>,
    params: Seq<Value>,
    vals: Seq<Value>,
    ops_old: Seq<EmitOp>,
    ops_new: Seq<EmitOp>,
    r: Value,
) -> bool {
    &&& vals.len() == insts.len()
    &&& (forall|j: int|
        0 <= j < insts.len() ==> ((#[trigger] insts[j]) matches IrInst::Param(k) ==> vals[j]
            == params[k as int]))
    &&& ops_new == ops_old + replay_ops(insts, params, vals, insts.len() as int)
    &&& (insts.len() > 0 ==> r == vals[insts.len() - 1])
}

/// The replay code of the first `n` instructions reads only the first `n`
/// values, so extending the value list does not change it.
proof fn lemma_replay_ops_grow(
    insts: Seq<IrInst>,
    shape: Shape,
    params: Seq<Value>,
    vals1: Seq<Value>,
    vals2: Seq<Value>,
    n: int,
)
    requires
        crate::ir::insts_wf(insts, shape),
        0 <= n <= vals1.len(),
        n <= insts.len(),
        vals1.len() <= vals2.len(),
        forall|j: int| 0 <= j < vals1.len() ==> vals1[j] == #[trigger] vals2[j],
    ensures
        replay_ops(insts, params, vals1, n) == replay_ops(insts, params, vals2, n),
    decreases n,
{
    if n > 0 {
        lemma_replay_ops_grow(insts, shape, params, vals1, vals2, n - 1);
        assert(inst_wf(insts[n - 1], n - 1, shape));
        assert(inst_ops(insts[n - 1], params, vals1, n - 1) == inst_ops(
            insts[n - 1],
            params,
            vals2,
            n - 1,
        ));
    }
}

/// Replay a lowered program into the code generator, one instruction at a
/// time, and return the SSA value holding the program's result.
///
/// For the fixed-arity shapes, `params` holds the entry block's scalar
/// parameters; for the pointer-and-length shape its first element is the
/// base pointer. The appended code is exactly the program's, in program
/// order: one generator instruction per program instruction, none for a
/// parameter reference.
pub fn emit_ir<'a>(
    b: &mut EmitBuilder<'a>,
    params: &Vec<Value>,
    math: &MathFuncRefs,
    f: &IrFunction,
) -> (r: Value)
    requires
        old(b).build_stage() == BuildStage::Open,
        math.wf(),
        f.wf(),
        f.loads_fit(),
        f.shape == Shape::ND ==> params@.len() >= 1,
        f.shape != Shape::ND ==> params@.len() >= shape_params(f.shape),
    ensures
        final(b).build_stage() == BuildStage::Open,
        exists|vals: Seq<Value>|
            #[trigger] replay_of(f.insts@, params@, vals, old(b).emitted(), final(b).emitted(), r),
{
    let ghost ops0 = b.emitted();
    let count = f.insts.len();
    let mut values: Vec<Value> = Vec::new();
    for i in 0..count
        invariant
            count == f.insts@.len(),
            values@.len() == i,
            b.build_stage() == BuildStage::Open,
            math.wf(),
            f.wf(),
            f.loads_fit(),
            f.shape == Shape::ND ==> params@.len() >= 1,
            f.shape != Shape::ND ==> params@.len() >= shape_params(f.shape),
            forall|j: int|
                0 <= j < i ==> ((#[trigger] f.insts@[j]) matches IrInst::Param(k) ==> values@[j]
                    == params@[k as int]),
            b.emitted() == ops0 + replay_ops(f.insts@, params@, values@, i as int),
    {
        proof {
            assert(inst_wf(f.insts@[i as int], i as int, f.shape));
        }
        let ghost values_before = values@;
        let value = match f.insts[i] {
            IrInst::Const(bits) => b.push_const(bits),
            IrInst::Param(k) => params[k],
            IrInst::Load(k) => b.push_load(params[0], (k * crate::BINARY64_BYTES) as i32),
            IrInst::Unary(op, a) => {
                let x = values[a];
                match op {
                    UnaryOp::Negate => b.push_fneg(x),
                    UnaryOp::Sqrt => b.push_sqrt(x),
                    UnaryOp::Sin => b.call_sin(math, x),
                    UnaryOp::Cos => b.call_cos(math, x),
                    UnaryOp::Exp => b.call_exp(math, x),
                    UnaryOp::Ln => b.call_ln(math, x),
                }
            },
            IrInst::Binary(op, a, bb) => {
                let x = values[a];
                let y = values[bb];
                match op {
                    BinaryOp::Add => b.push_fadd(x, y),
                    BinaryOp::Subtract => b.push_fsub(x, y),
                    BinaryOp::Multiply => b.push_fmul(x, y),
                    BinaryOp::Frac => b.push_fdiv(x, y),
                    BinaryOp::Pow => b.call_pow(math, x, y),
                    BinaryOp::Log => unreached(),
                }
            },
        };
        values.push(value);
        proof {
            lemma_replay_ops_grow(f.insts@, f.shape, params@, values_before, values@, i as int);
            let expected = inst_ops(f.insts@[i as int], params@, values@, i as int);
            assert(replay_ops(f.insts@, params@, values@, i + 1) == replay_ops(
                f.insts@,
                params@,
                values@,
                i as int,
            ) + expected);
            if f.insts@[i as int] matches IrInst::Param(k) {
                assert(expected =~= Seq::<EmitOp>::empty());
                assert(b.emitted() =~= ops0 + replay_ops(f.insts@, params@, values@, i + 1));
            } else {
                assert(expected.len() == 1);
                assert(b.emitted() =~= ops0 + replay_ops(f.insts@, params@, values@, i + 1));
            }
        }
    }
    let result = values[count - 1];
    proof {
        assert(replay_of(f.insts@, params@, values@, ops0, b.emitted(), result));
    }
    result
}

} // verus!
