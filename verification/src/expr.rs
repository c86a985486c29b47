//! The expression tree: an immutable AST of arithmetic and elementary-function
//! nodes over positional variables, together with its arity analysis.
//!
//! A constant leaf carries the bit pattern of the binary64 value it stands
//! for, so the tree itself is plain data; the floating-point meaning of those
//! bits only enters through the scalar layer when a tree is evaluated.

use vstd::prelude::*;

verus! {

/// The operators of nodes with one child.
#[derive(Debug, Clone, Copy, PartialEq, Eq, Structural)]
pub enum UnaryOp {
    /// IEEE-754 negation (sign-bit flip).
    Negate,
    /// Square root.
    Sqrt,
    /// Sine.
    Sin,
    /// Cosine.
    Cos,
    /// Natural exponential.
    Exp,
    /// Natural logarithm.
    Ln,
}

/// The operators of nodes with two children.
#[derive(Debug, Clone, Copy, PartialEq, Eq, Structural)]
pub enum BinaryOp {
    /// IEEE-754 addition.
    Add,
    /// IEEE-754 subtraction.
    Subtract,
    /// IEEE-754 multiplication.
    Multiply,
    /// IEEE-754 division.
    Frac,
    /// The left operand raised to the power of the right operand.
    Pow,
    /// The logarithm of the left operand in the base given by the right
    /// operand, computed as `ln(left) / ln(right)`.
    Log,
}

/// A node of the expression tree. Internal nodes own their children; trees
/// are finite, acyclic and never shared.
pub enum Expr {
    /// A literal, carried as the bit pattern of a binary64 value.
    Constant(u64),
    /// A positional input, identified by its zero-based index into the
    /// variable vector.
    Variable(usize),
    /// An operator applied to one child tree.
    Unary(UnaryOp, Box<Expr>),
    /// An operator applied to two child trees; the left child is always
    /// evaluated before the right one.
    Binary(BinaryOp, Box<Expr>, Box<Expr>),
}

impl Clone for Expr {
    /// Cloning an expression yields a structurally identical tree.
    fn clone(&self) -> (r: Self)
        ensures
            r == *self,
        decreases *self,
    {
        match self {
            Expr::Constant(bits) => Expr::Constant(*bits),
            Expr::Variable(i) => Expr::Variable(*i),
            Expr::Unary(op, inner) => Expr::Unary(*op, Box::new((**inner).clone())),
            Expr::Binary(op, left, right) => Expr::Binary(
                *op,
                Box::new((**left).clone()),
                Box::new((**right).clone()),
            ),
        }
    }
}

/// The least width of variable vector the tree can be evaluated against: one
/// more than the largest variable index used, or zero if no variable occurs.
pub open spec fn arity(e: Expr) -> nat
    decreases e,
{
    match e {
        Expr::Constant(_) => 0,
        Expr::Variable(i) => i as nat + 1,
        Expr::Unary(_, inner) => arity(*inner),
        Expr::Binary(_, left, right) => if arity(*left) >= arity(*right) {
            arity(*left)
        } else {
            arity(*right)
        },
    }
}

/// True exactly when a `Variable(i)` leaf occurs somewhere in the tree.
pub open spec fn uses_var(e: Expr, i: usize) -> bool
    decreases e,
{
    match e {
        Expr::Constant(_) => false,
        Expr::Variable(j) => j == i,
        Expr::Unary(_, inner) => uses_var(*inner, i),
        Expr::Binary(_, left, right) => uses_var(*left, i) || uses_var(*right, i),
    }
}

/// Building a binary node and reading its children back yields exactly the
/// two trees it was built from, structurally.
pub proof fn lemma_binary_children(op: BinaryOp, a: Expr, b: Expr)
    ensures
        (Expr::Binary(op, Box::new(a), Box::new(b)) matches Expr::Binary(o, l, r) && o == op && *l
            == a && *r == b),
{
}

/// Building a unary node and reading its child back yields exactly the tree
/// it was built from, structurally.
pub proof fn lemma_unary_child(op: UnaryOp, a: Expr)
    ensures
        (Expr::Unary(op, Box::new(a)) matches Expr::Unary(o, inner) && o == op && *inner == a),
{
}

/// Every variable index that occurs in the tree lies strictly below its
/// arity.
pub proof fn lemma_uses_below_arity(e: Expr, i: usize)
    ensures
        uses_var(e, i) ==> (i as nat) < arity(e),
    decreases e,
{
    match e {
        Expr::Constant(_) => {},
        Expr::Variable(_) => {},
        Expr::Unary(_, inner) => {
            lemma_uses_below_arity(*inner, i);
        },
        Expr::Binary(_, left, right) => {
            lemma_uses_below_arity(*left, i);
            lemma_uses_below_arity(*right, i);
        },
    }
}

/// A tree of positive arity really contains a variable with the index just
/// below its arity.
pub proof fn lemma_arity_attained(e: Expr)
    ensures
        arity(e) > 0 ==> uses_var(e, (arity(e) - 1) as usize),
    decreases e,
{
    match e {
        Expr::Constant(_) => {},
        Expr::Variable(_) => {},
        Expr::Unary(_, inner) => {
            lemma_arity_attained(*inner);
        },
        Expr::Binary(_, left, right) => {
            lemma_arity_attained(*left);
            lemma_arity_attained(*right);
        },
    }
}

/// The arity is exactly `max(i + 1)` over the variable indices that occur in
/// the tree, and zero when none does: every used index lies below the arity,
/// a tree of positive arity really uses the index just below it, and a tree
/// of arity zero uses no variable at all.
pub proof fn lemma_arity_characterizes_uses(e: Expr)
    ensures
        forall|i: usize| uses_var(e, i) ==> (i as nat) < arity(e),
        arity(e) > 0 ==> uses_var(e, (arity(e) - 1) as usize),
        arity(e) == 0 ==> forall|i: usize| !uses_var(e, i),
{
    assert forall|i: usize| uses_var(e, i) implies (i as nat) < arity(e) by {
        lemma_uses_below_arity(e, i);
    }
    lemma_arity_attained(e);
    if arity(e) == 0 {
        assert forall|i: usize| !uses_var(e, i) by {
            lemma_uses_below_arity(e, i);
        }
    }
}

impl Expr {
    /// Compute the arity of the tree: one more than the largest variable
    /// index used, or zero when the tree holds no variable.
    pub fn num_variables(&self) -> (n: usize)
        requires
            arity(*self) <= usize::MAX,
        ensures
            n == arity(*self),
        decreases *self,
    {
        match self {
            Expr::Constant(_) => 0,
            Expr::Variable(i) => *i + 1,
            Expr::Unary(_, inner) => inner.num_variables(),
            Expr::Binary(_, left, right) => {
                let l = left.num_variables();
                let r = right.num_variables();
                if l >= r {
                    l
                } else {
                    r
                }
            },
        }
    }

    /// Whether the arity fits the machine word, so that `num_variables` can
    /// return it. Only a tree holding the very largest variable index fails.
    pub fn arity_fits(&self) -> (b: bool)
        ensures
            b == (arity(*self) <= usize::MAX),
        decreases *self,
    {
        match self {
            Expr::Constant(_) => true,
            Expr::Variable(i) => *i < usize::MAX,
            Expr::Unary(_, inner) => inner.arity_fits(),
            Expr::Binary(_, left, right) => left.arity_fits() && right.arity_fits(),
        }
    }

    /// True when the tree is a leaf: a constant or a variable.
    pub fn is_leaf(&self) -> (b: bool)
        ensures
            b == (*self matches Expr::Constant(_) || *self matches Expr::Variable(_)),
    {
        match self {
            Expr::Constant(_) => true,
            Expr::Variable(_) => true,
            Expr::Unary(_, _) => false,
            Expr::Binary(_, _, _) => false,
        }
    }

    /// The bit pattern of the constant this tree is, if it is a constant
    /// leaf.
    pub fn as_constant(&self) -> (r: Option<u64>)
        ensures
            (r matches Some(bits) ==> *self == Expr::Constant(bits)),
            (r is None ==> !(*self matches Expr::Constant(_))),
    {
        match self {
            Expr::Constant(bits) => Some(*bits),
            _ => None,
        }
    }

    /// The left child of a binary node, or the only child of a unary node.
    pub fn left(&self) -> (r: Option<&Expr>)
        ensures
            (match *self {
                Expr::Binary(_, l, _) => r matches Some(c) && *c == *l,
                Expr::Unary(_, inner) => r matches Some(c) && *c == *inner,
                _ => r is None,
            }),
    {
        match self {
            Expr::Binary(_, l, _) => Some(l),
            Expr::Unary(_, inner) => Some(inner),
            _ => None,
        }
    }

    /// The right child of a binary node.
    pub fn right(&self) -> (r: Option<&Expr>)
        ensures
            (match *self {
                Expr::Binary(_, _, rc) => r matches Some(c) && *c == *rc,
                _ => r is None,
            }),
    {
        match self {
            Expr::Binary(_, _, rc) => Some(rc),
            _ => None,
        }
    }

    /// The operator of a binary node.
    pub fn binary_op(&self) -> (r: Option<BinaryOp>)
        ensures
            (match *self {
                Expr::Binary(op, _, _) => r == Some(op),
                _ => r is None,
            }),
    {
        match self {
            Expr::Binary(op, _, _) => Some(*op),
            _ => None,
        }
    }

    /// The operator of a unary node.
    pub fn unary_op(&self) -> (r: Option<UnaryOp>)
        ensures
            (match *self {
                Expr::Unary(op, _) => r == Some(op),
                _ => r is None,
            }),
    {
        match self {
            Expr::Unary(op, _) => Some(*op),
            _ => None,
        }
    }
}

} // verus!
