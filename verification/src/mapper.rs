use crate::palette::{binary_op, binary_op_spec, unary_op, unary_op_spec, BinaryOp, UnaryOp};
use crate::prob::{
    binary_rescale_spec, bucket_spec, first_half_spec, half_high_spec, half_low_spec, leaf_first_spec,
    leave_spec, rest_spec, unary_rescale_spec, unary_spec, Prob,
};
use vstd::prelude::*;

verus! {

/// The expression tree that one probability seed selects. Evaluating it on
/// a pair of scalars `(a, b)` works bottom up: `LeafA` is `a`, `LeafB` is
/// `b`, `Unary(op, e)` applies `op` to the value of `e`, `BinaryLeft(op, e)`
/// applies `op` to the value of `e` and `b` in that order, and
/// `BinaryRight(op, e)` applies `op` to `a` and the value of `e`.
#[derive(Debug)]
pub enum Expr {
    LeafA,
    LeafB,
    Unary(UnaryOp, Box<Expr>),
    BinaryLeft(BinaryOp, Box<Expr>),
    BinaryRight(BinaryOp, Box<Expr>),
}

/// How many transforms stand on the longest path of the tree.
pub open spec fn depth(e: Expr) -> nat
    decreases e,
{
    match e {
        Expr::LeafA => 0,
        Expr::LeafB => 0,
        Expr::Unary(_, sub) => 1 + depth(*sub),
        Expr::BinaryLeft(_, sub) => 1 + depth(*sub),
        Expr::BinaryRight(_, sub) => 1 + depth(*sub),
    }
}

/// True when `e` is exactly the tree that the probability numerator `n`
/// selects: the terminal bucket yields a leaf, the unary bucket yields the
/// bucketed unary transform over the tree of the rescaled value, and the
/// two binary half-buckets yield the bucketed binary transform with the
/// recursive tree standing left or right.
pub open spec fn is_expr_of(n: int, e: Expr) -> bool
    decreases e,
{
    if leave_spec(n) {
        if leaf_first_spec(n) {
            e == Expr::LeafA
        } else {
            e == Expr::LeafB
        }
    } else {
        let q1 = rest_spec(n);
        if unary_spec(q1) {
            let q2 = unary_rescale_spec(q1);
            match e {
                Expr::Unary(op, sub) => op == unary_op_spec(bucket_spec(q2, 6)) && is_expr_of(
                    q2,
                    *sub,
                ),
                _ => false,
            }
        } else {
            let q2 = binary_rescale_spec(q1);
            if first_half_spec(q2) {
                let q3 = half_low_spec(q2);
                match e {
                    Expr::BinaryLeft(op, sub) => op == binary_op_spec(bucket_spec(q3, 4))
                        && is_expr_of(q3, *sub),
                    _ => false,
                }
            } else {
                let q3 = half_high_spec(q2);
                match e {
                    Expr::BinaryRight(op, sub) => op == binary_op_spec(bucket_spec(q3, 4))
                        && is_expr_of(q3, *sub),
                    _ => false,
                }
            }
        }
    }
}

/// True when the tree of the probability numerator `n` closes within `fuel`
/// transform levels.
pub open spec fn fits(n: int, fuel: nat) -> bool
    decreases fuel,
{
    if leave_spec(n) {
        true
    } else if fuel == 0 {
        false
    } else {
        let q1 = rest_spec(n);
        if unary_spec(q1) {
            fits(unary_rescale_spec(q1), (fuel - 1) as nat)
        } else {
            let q2 = binary_rescale_spec(q1);
            if first_half_spec(q2) {
                fits(half_low_spec(q2), (fuel - 1) as nat)
            } else {
                fits(half_high_spec(q2), (fuel - 1) as nat)
            }
        }
    }
}

/// Builds the expression tree that the seed selects, spending one unit of
/// fuel per transform level; yields nothing exactly when the tree does not
/// close within `fuel` levels. The terminal bucket `[0, 1/100)` splits in
/// half: its lower half yields the first-argument leaf, its upper half the
/// second-argument leaf.
pub fn map_expr(p: &Prob, fuel: u32) -> (r: Option<Expr>)
    requires
        p.wf(),
    ensures
        r matches Some(e) ==> is_expr_of(p@, e) && depth(e) <= fuel,
        r is Some <==> fits(p@, fuel as nat),
        leave_spec(p@) && leaf_first_spec(p@) ==> r == Some(Expr::LeafA),
        leave_spec(p@) && !leaf_first_spec(p@) ==> r == Some(Expr::LeafB),
    decreases fuel,
{
    if p.leave() {
        if p.leaf_first() {
            Some(Expr::LeafA)
        } else {
            Some(Expr::LeafB)
        }
    } else if fuel == 0 {
        None
    } else {
        let q1 = p.rescale_rest();
        if q1.unary() {
            let q2 = q1.rescale_unary();
            let op = unary_op(q2.bucket(6));
            match map_expr(&q2, fuel - 1) {
                Some(sub) => Some(Expr::Unary(op, Box::new(sub))),
                None => None,
            }
        } else {
            let q2 = q1.rescale_binary();
            if q2.first_half() {
                let q3 = q2.rescale_half_low();
                let op = binary_op(q3.bucket(4));
                match map_expr(&q3, fuel - 1) {
                    Some(sub) => Some(Expr::BinaryLeft(op, Box::new(sub))),
                    None => None,
                }
            } else {
                let q3 = q2.rescale_half_high();
                let op = binary_op(q3.bucket(4));
                match map_expr(&q3, fuel - 1) {
                    Some(sub) => Some(Expr::BinaryRight(op, Box::new(sub))),
                    None => None,
                }
            }
        }
    }
}

/// Builds the pair of expression trees for the two transform seeds: the
/// first tree maps a point's coordinates taken in order, the second maps
/// them swapped, giving the two output channels of the point transform.
/// Yields nothing exactly when either tree fails to close within `fuel`
/// levels.
pub fn map_expr_pair(p1: &Prob, p2: &Prob, fuel: u32) -> (r: Option<(Expr, Expr)>)
    requires
        p1.wf(),
        p2.wf(),
    ensures
        r matches Some(pair) ==> is_expr_of(p1@, pair.0) && is_expr_of(p2@, pair.1),
        r is Some <==> fits(p1@, fuel as nat) && fits(p2@, fuel as nat),
{
    match (map_expr(p1, fuel), map_expr(p2, fuel)) {
        (Some(e1), Some(e2)) => Some((e1, e2)),
        _ => None,
    }
}

/// A probability seed selects one tree only: two trees that both match the
/// same numerator are equal. With `map_expr` pinned to `is_expr_of`, runs
/// from equal seeds therefore build equal trees.
pub proof fn lemma_expr_unique(n: int, e1: Expr, e2: Expr)
    requires
        is_expr_of(n, e1),
        is_expr_of(n, e2),
    ensures
        e1 == e2,
    decreases e1,
{
    if leave_spec(n) {
    } else {
        let q1 = rest_spec(n);
        if unary_spec(q1) {
            let q2 = unary_rescale_spec(q1);
            match e1 {
                Expr::Unary(op1, sub1) => {
                    match e2 {
                        Expr::Unary(op2, sub2) => {
                            lemma_expr_unique(q2, *sub1, *sub2);
                        },
                        _ => {},
                    }
                },
                _ => {},
            }
        } else {
            let q2 = binary_rescale_spec(q1);
            if first_half_spec(q2) {
                let q3 = half_low_spec(q2);
                match e1 {
                    Expr::BinaryLeft(op1, sub1) => {
                        match e2 {
                            Expr::BinaryLeft(op2, sub2) => {
                                lemma_expr_unique(q3, *sub1, *sub2);
                            },
                            _ => {},
                        }
                    },
                    _ => {},
                }
            } else {
                let q3 = half_high_spec(q2);
                match e1 {
                    Expr::BinaryRight(op1, sub1) => {
                        match e2 {
                            Expr::BinaryRight(op2, sub2) => {
                                lemma_expr_unique(q3, *sub1, *sub2);
                            },
                            _ => {},
                        }
                    },
                    _ => {},
                }
            }
        }
    }
}

} // verus!
