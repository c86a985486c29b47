// Construction and introspection of expression trees: the combinators build
// exactly the node asked for, the children read back structurally, and the
// arity is the smallest width of variable vector the tree accepts.

use oxphys_numerics::expr::{BinaryOp, Expr, UnaryOp};
use oxphys_numerics::functions::{add, constant, log, mul, neg, pow, sqrt, sub, variable};

#[test]
fn test_add_children_read_back() {
    let tree = add(variable(0), constant(2.5f64.to_bits()));
    assert_eq!(tree.binary_op(), Some(BinaryOp::Add));
    assert!(matches!(tree.left(), Some(Expr::Variable(0))));
    match tree.right() {
        Some(Expr::Constant(bits)) => assert_eq!(f64::from_bits(*bits), 2.5),
        _ => panic!("expected the constant child back"),
    }
}

#[test]
fn test_unary_child_reads_back() {
    let tree = neg(variable(3));
    assert_eq!(tree.unary_op(), Some(UnaryOp::Negate));
    assert!(matches!(tree.left(), Some(Expr::Variable(3))));
    assert!(tree.right().is_none());
}

#[test]
fn test_leaf_queries() {
    let c = constant(1.5f64.to_bits());
    let v = variable(2);
    let s = sqrt(variable(0));
    assert!(c.is_leaf());
    assert!(v.is_leaf());
    assert!(!s.is_leaf());
    assert_eq!(c.as_constant(), Some(1.5f64.to_bits()));
    assert_eq!(v.as_constant(), None);
    assert!(v.binary_op().is_none());
    assert!(c.unary_op().is_none());
}

#[test]
fn test_num_variables_is_max_index_plus_one() {
    assert_eq!(constant(0.0f64.to_bits()).num_variables(), 0);
    assert_eq!(variable(0).num_variables(), 1);
    assert_eq!(variable(7).num_variables(), 8);
    assert_eq!(add(variable(1), variable(4)).num_variables(), 5);
    assert_eq!(neg(mul(variable(2), constant(1.0f64.to_bits()))).num_variables(), 3);
}

#[test]
fn test_pow_and_log_store_operands_in_order() {
    let p = pow(variable(0), variable(1));
    assert_eq!(p.binary_op(), Some(BinaryOp::Pow));
    assert!(matches!(p.left(), Some(Expr::Variable(0))));
    assert!(matches!(p.right(), Some(Expr::Variable(1))));

    // log(argument, base): the argument is the left child, the base the
    // right one.
    let l = log(variable(0), variable(1));
    assert_eq!(l.binary_op(), Some(BinaryOp::Log));
    assert!(matches!(l.left(), Some(Expr::Variable(0))));
    assert!(matches!(l.right(), Some(Expr::Variable(1))));
}

#[test]
fn test_sub_keeps_operand_order() {
    let tree = sub(variable(1), variable(0));
    assert_eq!(tree.binary_op(), Some(BinaryOp::Subtract));
    assert!(matches!(tree.left(), Some(Expr::Variable(1))));
    assert!(matches!(tree.right(), Some(Expr::Variable(0))));
}

#[test]
fn test_clone_is_structural() {
    let tree = mul(sqrt(variable(1)), constant(2.0f64.to_bits()));
    let copy = tree.clone();
    assert_eq!(copy.num_variables(), tree.num_variables());
    let vars = vec![1.0f64.to_bits(), 9.0f64.to_bits()];
    assert_eq!(copy.evaluate(&vars).unwrap(), tree.evaluate(&vars).unwrap());
}

#[test]
fn test_arity_fits_rejects_only_the_largest_index() {
    assert!(variable(0).arity_fits());
    assert!(variable(usize::MAX - 1).arity_fits());
    assert!(!variable(usize::MAX).arity_fits());
}
