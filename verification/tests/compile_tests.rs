// Compiling a tree lowers it to a straight-line SSA program; these tests run
// that program with a small interpreter and hold the result against the
// tree-walk evaluator, bit for bit where only arithmetic is involved.

use oxphys_numerics::errors::CompileError;
use oxphys_numerics::expr::{BinaryOp, Expr, UnaryOp};
use oxphys_numerics::ir::{IrFunction, IrInst};

fn interp(f: &IrFunction, vars: &[f64]) -> f64 {
    let mut values: Vec<f64> = Vec::new();
    for inst in f.insts.iter() {
        let value = match *inst {
            IrInst::Const(bits) => f64::from_bits(bits),
            IrInst::Param(k) => vars[k],
            IrInst::Load(k) => vars[k],
            IrInst::Unary(op, a) => {
                let x = values[a];
                match op {
                    UnaryOp::Negate => -x,
                    UnaryOp::Sqrt => x.sqrt(),
                    UnaryOp::Sin => x.sin(),
                    UnaryOp::Cos => x.cos(),
                    UnaryOp::Exp => x.exp(),
                    UnaryOp::Ln => x.ln(),
                }
            },
            IrInst::Binary(op, a, b) => {
                let x = values[a];
                let y = values[b];
                match op {
                    BinaryOp::Add => x + y,
                    BinaryOp::Subtract => x - y,
                    BinaryOp::Multiply => x * y,
                    BinaryOp::Frac => x / y,
                    BinaryOp::Pow => x.powf(y),
                    BinaryOp::Log => x.ln() / y.ln(),
                }
            },
        };
        values.push(value);
    }
    *values.last().unwrap()
}

fn bits_of(vars: &[f64]) -> Vec<u64> {
    vars.iter().map(|v| v.to_bits()).collect()
}

fn eval_f64(expr: &Expr, vars: &[f64]) -> f64 {
    f64::from_bits(expr.evaluate(&bits_of(vars)).unwrap())
}

#[test]
fn test_compiled_add() {
    let tree = oxphys_numerics::functions::add(
        oxphys_numerics::functions::variable(0),
        oxphys_numerics::functions::variable(1),
    );
    let f = tree.compile_nd().unwrap();

    let values = vec![1.0, 2.0];
    assert_eq!(interp(&f, &values), 3.0);
}

#[test]
fn test_compiled_multiply() {
    let tree = oxphys_numerics::functions::mul(
        oxphys_numerics::functions::variable(0),
        oxphys_numerics::functions::variable(1),
    );
    let f = tree.compile_nd().unwrap();

    let values = vec![3.0, 4.0];
    assert_eq!(interp(&f, &values), 12.0);
}

#[test]
fn test_compiled_frac() {
    let tree = oxphys_numerics::functions::div(
        oxphys_numerics::functions::variable(0),
        oxphys_numerics::functions::variable(1),
    );
    let f = tree.compile_nd().unwrap();

    let values = vec![3.0, 4.0];
    assert_eq!(interp(&f, &values), 0.75);
}

#[test]
fn test_compiled_negate() {
    let variables = vec![15.0];

    let tree = oxphys_numerics::functions::neg(oxphys_numerics::functions::variable(0));
    let f = tree.compile_nd().unwrap();

    assert_eq!(interp(&f, &variables), -15.0);
}

#[test]
fn test_compiled_sqrt() {
    let variables = vec![16.0];

    let tree = oxphys_numerics::functions::sqrt(oxphys_numerics::functions::variable(0));
    let f = tree.compile_nd().unwrap();

    assert_eq!(interp(&f, &variables), 4.0);
}

#[test]
fn leaf_node_test_expression_1_variable() {
    let tree = oxphys_numerics::functions::variable(0);
    let f = tree.compile_nd().unwrap();

    let values_1 = vec![1.0];
    let values_2 = vec![2.0];
    let values_3 = vec![3.0];

    assert_eq!(interp(&f, &values_1), 1.0);
    assert_eq!(interp(&f, &values_2), 2.0);
    assert_eq!(interp(&f, &values_3), 3.0);
}

#[test]
fn leaf_node_test_expression_constant() {
    let tree = oxphys_numerics::functions::constant(2.0f64.to_bits());
    let f = tree.compile_nd().unwrap();
    assert_eq!(interp(&f, &[]), 2.0);
}

#[test]
fn initialized_leaf_test_expression_1_variable() {
    // A variable handed over with a name is compiled by its index.
    let named = oxphys_numerics::variables::InitializedVariable::new(
        oxphys_numerics::variables::UninitializedVariable::new("name".to_string()),
        0,
    );
    let tree = oxphys_numerics::functions::variable(named.index());
    let f = tree.compile_nd().unwrap();

    let values_1 = vec![1.0];
    let values_2 = vec![2.0];
    let values_3 = vec![3.0];

    assert_eq!(interp(&f, &values_1), 1.0);
    assert_eq!(interp(&f, &values_2), 2.0);
    assert_eq!(interp(&f, &values_3), 3.0);
}

#[test]
fn initialized_leaf_test_expression_constant() {
    let tree = oxphys_numerics::functions::constant(2.0f64.to_bits());
    let f = tree.compile_nd().unwrap();
    assert_eq!(interp(&f, &[]), 2.0);
}

#[test]
fn test_shape_mismatch_needed_four_shape_two() {
    // variable(3) needs four inputs; the two-parameter shape refuses it.
    let tree = oxphys_numerics::functions::variable(3);
    match tree.compile_2d() {
        Err(CompileError::ShapeMismatch { needed, shape }) => {
            assert_eq!(needed, 4);
            assert_eq!(shape, 2);
        },
        _ => panic!("expected a shape mismatch"),
    }
}

#[test]
fn test_shape_mismatch_exactly_when_arity_exceeds_shape() {
    let tree = oxphys_numerics::functions::add(
        oxphys_numerics::functions::variable(0),
        oxphys_numerics::functions::variable(2),
    );
    // Arity three: too wide for one or two parameters, fine for three.
    assert!(tree.compile_1d().is_err());
    assert!(tree.compile_2d().is_err());
    assert!(tree.compile_3d().is_ok());
    assert!(tree.compile_nd().is_ok());
}

#[test]
fn test_compile_1d_identity() {
    // variable(0) under the one-parameter shape returns its input unchanged.
    let tree = oxphys_numerics::functions::variable(0);
    let f = tree.compile_1d().unwrap();
    for x in [0.0, -1.5, 3.25, f64::INFINITY] {
        assert_eq!(interp(&f, &[x]).to_bits(), x.to_bits());
    }
}

#[test]
fn test_constant_tree_never_loads() {
    // A pure-constant tree compiled for the pointer shape never reads the
    // pointed-to array: its program holds no load at all.
    let tree = oxphys_numerics::functions::mul(
        oxphys_numerics::functions::constant(3.0f64.to_bits()),
        oxphys_numerics::functions::constant(0.5f64.to_bits()),
    );
    let f = tree.compile_nd().unwrap();
    assert!(!f.insts.iter().any(|inst| matches!(inst, IrInst::Load(_))));
    assert_eq!(interp(&f, &[]), 1.5);
}

#[test]
fn test_compiled_function_is_stable_across_calls() {
    let tree = oxphys_numerics::functions::pow(
        oxphys_numerics::functions::variable(0),
        oxphys_numerics::functions::constant(10.0f64.to_bits()),
    );
    let f = tree.compile_1d().unwrap();
    let first = interp(&f, &[2.0]);
    let second = interp(&f, &[2.0]);
    assert_eq!(first.to_bits(), second.to_bits());
    assert_eq!(first, 1024.0);
}

#[test]
fn test_program_outlives_its_tree() {
    let tree = oxphys_numerics::functions::add(
        oxphys_numerics::functions::variable(0),
        oxphys_numerics::functions::constant(1.0f64.to_bits()),
    );
    let f = tree.compile_1d().unwrap();
    drop(tree);
    for _ in 0..100 {
        assert_eq!(interp(&f, &[41.0]), 42.0);
    }
}

#[test]
fn test_evaluator_and_compiled_agree_add() {
    let tree = oxphys_numerics::functions::add(
        oxphys_numerics::functions::variable(0),
        oxphys_numerics::functions::variable(1),
    );
    let vars = [1.0, 2.0];
    let expected = eval_f64(&tree, &vars);
    assert_eq!(expected, 3.0);
    let nd = tree.compile_nd().unwrap();
    let two = tree.compile_2d().unwrap();
    assert_eq!(interp(&nd, &vars).to_bits(), expected.to_bits());
    assert_eq!(interp(&two, &vars).to_bits(), expected.to_bits());
}

#[test]
fn test_evaluator_and_compiled_agree_multiply() {
    let tree = oxphys_numerics::functions::mul(
        oxphys_numerics::functions::variable(0),
        oxphys_numerics::functions::variable(1),
    );
    let vars = [3.0, 4.0];
    let expected = eval_f64(&tree, &vars);
    assert_eq!(expected, 12.0);
    let nd = tree.compile_nd().unwrap();
    assert_eq!(interp(&nd, &vars).to_bits(), expected.to_bits());
}

#[test]
fn test_evaluator_and_compiled_agree_frac() {
    let tree = oxphys_numerics::functions::div(
        oxphys_numerics::functions::variable(0),
        oxphys_numerics::functions::variable(1),
    );
    let vars = [3.0, 4.0];
    let expected = eval_f64(&tree, &vars);
    assert_eq!(expected, 0.75);
    let nd = tree.compile_nd().unwrap();
    assert_eq!(interp(&nd, &vars).to_bits(), expected.to_bits());
}

#[test]
fn test_evaluator_and_compiled_agree_negate() {
    let tree = oxphys_numerics::functions::neg(oxphys_numerics::functions::variable(0));
    let vars = [15.0];
    let expected = eval_f64(&tree, &vars);
    assert_eq!(expected, -15.0);
    let nd = tree.compile_nd().unwrap();
    let one = tree.compile_1d().unwrap();
    assert_eq!(interp(&nd, &vars).to_bits(), expected.to_bits());
    assert_eq!(interp(&one, &vars).to_bits(), expected.to_bits());
}

#[test]
fn test_evaluator_and_compiled_agree_sqrt() {
    let tree = oxphys_numerics::functions::sqrt(oxphys_numerics::functions::variable(0));
    let vars = [16.0];
    let expected = eval_f64(&tree, &vars);
    assert_eq!(expected, 4.0);
    let nd = tree.compile_nd().unwrap();
    assert_eq!(interp(&nd, &vars).to_bits(), expected.to_bits());
}

#[test]
fn test_scaled_root_expression_end_to_end() {
    // sqrt(pi / y) * y at y = 2: about 2.506628274631.
    let pi = oxphys_numerics::functions::constant(std::f64::consts::PI.to_bits());
    let y = oxphys_numerics::functions::variable(1);
    let tree = oxphys_numerics::functions::mul(
        oxphys_numerics::functions::sqrt(oxphys_numerics::functions::div(pi, y)),
        oxphys_numerics::functions::variable(1),
    );
    let vars = [1.0, 2.0];
    let expected = (std::f64::consts::PI / 2.0).sqrt() * 2.0;
    let evaluated = eval_f64(&tree, &vars);
    assert!((evaluated - 2.506628274631).abs() < 1e-9);
    assert_eq!(evaluated.to_bits(), expected.to_bits());
    let two = tree.compile_2d().unwrap();
    assert!((interp(&two, &vars) - expected).abs() <= expected * 1e-15);
}

#[test]
fn test_log_lowers_to_quotient_of_logarithms() {
    // log base 2 of 8, compiled: ln(8) / ln(2), exactly as evaluated. The
    // program itself holds the split — two natural logarithms and one
    // division, never a logarithm instruction of its own.
    let tree = oxphys_numerics::functions::log(
        oxphys_numerics::functions::variable(0),
        oxphys_numerics::functions::constant(2.0f64.to_bits()),
    );
    let vars = [8.0];
    let expected = 8.0f64.ln() / 2.0f64.ln();
    assert_eq!(eval_f64(&tree, &vars).to_bits(), expected.to_bits());
    let f = tree.compile_1d().unwrap();
    assert_eq!(interp(&f, &vars).to_bits(), expected.to_bits());
    let ln_count = f
        .insts
        .iter()
        .filter(|inst| matches!(inst, IrInst::Unary(UnaryOp::Ln, _)))
        .count();
    assert_eq!(ln_count, 2);
    assert!(f.insts.iter().any(|inst| matches!(inst, IrInst::Binary(BinaryOp::Frac, _, _))));
    assert!(!f.insts.iter().any(|inst| matches!(inst, IrInst::Binary(BinaryOp::Log, _, _))));
}

#[test]
fn test_nd_program_loads_only_below_the_arity() {
    // The pointer shape reads the array only at the variables the tree
    // uses: every load index lies below the arity.
    let tree = oxphys_numerics::functions::add(
        oxphys_numerics::functions::variable(5),
        oxphys_numerics::functions::constant(1.0f64.to_bits()),
    );
    let f = tree.compile_nd().unwrap();
    assert!(f.loads_ok());
    let arity = tree.num_variables();
    for inst in f.insts.iter() {
        if let IrInst::Load(k) = inst {
            assert!(*k < arity);
        }
    }
    let values = vec![0.0, 0.0, 0.0, 0.0, 0.0, 41.0];
    assert_eq!(interp(&f, &values), 42.0);
}

#[test]
fn test_transcendentals_compile_and_agree() {
    let x = 0.7f64;
    let trees = [
        oxphys_numerics::functions::sin(oxphys_numerics::functions::variable(0)),
        oxphys_numerics::functions::cos(oxphys_numerics::functions::variable(0)),
        oxphys_numerics::functions::exp(oxphys_numerics::functions::variable(0)),
        oxphys_numerics::functions::ln(oxphys_numerics::functions::variable(0)),
    ];
    for tree in trees.iter() {
        let expected = eval_f64(tree, &[x]);
        let f = tree.compile_1d().unwrap();
        assert_eq!(interp(&f, &[x]).to_bits(), expected.to_bits());
    }
}
