//! Laws of constant folding and of cost.

use vstd::prelude::*;

use crate::analysis::{fold_shape, folded, is_goal, node_cost, StoData};
use crate::arith::lemma_wrap;
use crate::expr::{expr_at, Expr, PatternShape};
use crate::math::{operands_below, Op, Shape};
use crate::semantics::{law_closed_value_holds_everywhere, nothing_known, value64};

verus! {

/// The nodes of an expression, as nodes of a pattern without variables.
pub open spec fn as_pattern(shapes: Seq<Shape>) -> Seq<PatternShape> {
    shapes.map_values(|shape: Shape| PatternShape::Node(shape))
}

/// Operands come before the node they belong to, and the data of every node is
/// what it folds to from the data of its operands.
pub open spec fn is_analyzed(shapes: Seq<Shape>, analysis: Seq<StoData>) -> bool {
    &&& shapes.len() == analysis.len()
    &&& forall|i: int|
        0 <= i < shapes.len() ==> {
            &&& operands_below(#[trigger] shapes[i], i)
            &&& analysis[i].constant == fold_shape(shapes[i], analysis)
        }
}

/// Folding from the operands up computes, for every node, the value of the
/// expression below it where no symbol has a value.
pub proof fn law_constant_is_closed_value(shapes: Seq<Shape>, analysis: Seq<StoData>, i: int)
    requires
        is_analyzed(shapes, analysis),
        0 <= i < shapes.len(),
    ensures
        analysis[i].constant == value64(expr_at(as_pattern(shapes), i), nothing_known()),
    decreases i,
{
    assert(operands_below(shapes[i], i));
    match shapes[i] {
        Shape::Not(a) => {
            law_constant_is_closed_value(shapes, analysis, a);
        },
        Shape::Binary(_, a, b) => {
            law_constant_is_closed_value(shapes, analysis, a);
            law_constant_is_closed_value(shapes, analysis, b);
        },
        _ => {},
    }
}

/// Where a node has a constant, the expression below it has that value whatever
/// the symbols in it stand for.
pub proof fn law_constant_holds_everywhere(
    shapes: Seq<Shape>,
    analysis: Seq<StoData>,
    i: int,
    env: spec_fn(Seq<char>) -> Option<i64>,
)
    requires
        is_analyzed(shapes, analysis),
        0 <= i < shapes.len(),
        analysis[i].constant is Some,
    ensures
        value64(expr_at(as_pattern(shapes), i), env) == analysis[i].constant,
{
    law_constant_is_closed_value(shapes, analysis, i);
    law_closed_value_holds_everywhere(expr_at(as_pattern(shapes), i), env);
}

/// Folding a node leaves the data of every node right.
pub proof fn law_modify_keeps_analysis(
    shapes: Seq<Shape>,
    analysis: Seq<StoData>,
    pos: int,
    c: i64,
)
    requires
        is_analyzed(shapes, analysis),
        0 <= pos < shapes.len(),
        folded(shapes[pos], analysis[pos]) == Some(c),
    ensures
        is_analyzed(shapes.update(pos, Shape::Constant(c)), analysis),
{
    let after = shapes.update(pos, Shape::Constant(c));
    assert forall|i: int| 0 <= i < after.len() implies {
        &&& operands_below(#[trigger] after[i], i)
        &&& analysis[i].constant == fold_shape(after[i], analysis)
    } by {
        assert(operands_below(shapes[i], i));
    }
}

/// Folding a node changes the value of no node.
pub proof fn law_modify_keeps_values(
    shapes: Seq<Shape>,
    analysis: Seq<StoData>,
    pos: int,
    c: i64,
    i: int,
    env: spec_fn(Seq<char>) -> Option<i64>,
)
    requires
        is_analyzed(shapes, analysis),
        0 <= pos < shapes.len(),
        folded(shapes[pos], analysis[pos]) == Some(c),
        0 <= i < shapes.len(),
    ensures
        value64(expr_at(as_pattern(shapes.update(pos, Shape::Constant(c))), i), env) == value64(
            expr_at(as_pattern(shapes), i),
            env,
        ),
    decreases i,
{
    let after = shapes.update(pos, Shape::Constant(c));
    assert(operands_below(shapes[i], i));
    if i == pos {
        law_constant_holds_everywhere(shapes, analysis, i, env);
    } else {
        match shapes[i] {
            Shape::Not(a) => {
                law_modify_keeps_values(shapes, analysis, pos, c, a, env);
            },
            Shape::Binary(_, a, b) => {
                law_modify_keeps_values(shapes, analysis, pos, c, a, env);
                law_modify_keeps_values(shapes, analysis, pos, c, b, env);
            },
            _ => {},
        }
        assert(as_pattern(after)[i] == as_pattern(shapes)[i]);
    }
}

/// Folding settles a node: what it was folded to is not folded again.
pub proof fn law_modify_settles(shape: Shape, data: StoData, c: i64)
    requires
        folded(shape, data) == Some(c),
    ensures
        folded(Shape::Constant(c), data) is None,
{
}

/// Only the proof goals cost nothing.
pub proof fn law_only_goals_are_free(shape: Shape, children_cost: Seq<u64>)
    ensures
        node_cost(shape, children_cost) == 0 <==> is_goal(shape),
{
}

/// Folding never makes a node dearer.
pub proof fn law_folding_is_no_dearer(
    shape: Shape,
    analysis: Seq<StoData>,
    data: StoData,
    c: i64,
    children_cost: Seq<u64>,
)
    requires
        data.constant == fold_shape(shape, analysis),
        folded(shape, data) == Some(c),
    ensures
        node_cost(Shape::Constant(c), children_cost) <= node_cost(shape, children_cost),
{
}

/// The operators that compare or connect.
pub open spec fn is_test(op: Op) -> bool {
    match op {
        Op::Add | Op::Sub | Op::Mul | Op::Div | Op::Mod | Op::Max | Op::Min => false,
        _ => true,
    }
}

/// A comparison or connective of constants folds to a proof goal, and so does a
/// negation.
pub proof fn law_tests_fold_to_goals(shape: Shape, analysis: Seq<StoData>)
    requires
        match shape {
            Shape::Not(_) => true,
            Shape::Binary(op, _, _) => is_test(op),
            _ => false,
        },
    ensures
        fold_shape(shape, analysis) matches Some(c) ==> is_goal(Shape::Constant(c)),
{
    lemma_wrap(0);
    lemma_wrap(1);
}

/// How many nodes of an expression are not proof goals.
pub open spec fn expr_cost(e: Expr) -> nat
    decreases e,
{
    match e {
        Expr::Var(_) => 1,
        Expr::Const(c) => if c == 0 || c == 1 {
            0
        } else {
            1
        },
        Expr::Sym(_) => 1,
        Expr::Not(x) => 1 + expr_cost(*x),
        Expr::Bin(_, x, y) => 1 + expr_cost(*x) + expr_cost(*y),
    }
}

/// Where every node has its cost, the cost of a node is the number of nodes in
/// the expression below it that are not proof goals.
pub proof fn law_cost_counts_nodes(shapes: Seq<Shape>, costs: Seq<u64>, i: int)
    requires
        shapes.len() == costs.len(),
        forall|j: int|
            0 <= j < shapes.len() ==> {
                &&& operands_below(#[trigger] shapes[j], j)
                &&& costs[j] == node_cost(shapes[j], costs)
            },
        0 <= i < shapes.len(),
    ensures
        costs[i] == expr_cost(expr_at(as_pattern(shapes), i)),
    decreases i,
{
    assert(operands_below(shapes[i], i));
    match shapes[i] {
        Shape::Not(a) => {
            law_cost_counts_nodes(shapes, costs, a);
        },
        Shape::Binary(_, a, b) => {
            law_cost_counts_nodes(shapes, costs, a);
            law_cost_counts_nodes(shapes, costs, b);
        },
        _ => {},
    }
}

} // verus!
