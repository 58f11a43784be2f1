//! What each operator folds to, and what each node costs, whatever comes with its
//! operands.

use vstd::arithmetic::div_mod::lemma_mod_multiples_basic;
use vstd::prelude::*;

use crate::analysis::{
    fold_shape, folded, folds_safely, folds_within, is_goal, lemma_quot_fits, node_cost, StoData,
};
use crate::arith::{apply64, fits, lemma_quot_rem, lemma_wrap, quot, rem, wrap};
use crate::expr::{expr_at, Expr, PatternShape};
use crate::folding::{
    as_pattern, expr_cost, is_analyzed, law_constant_is_closed_value, law_cost_counts_nodes,
};
use crate::math::{operands, operands_below, Id, Math, Op, Shape};
use crate::semantics::{nothing_known, value64};
use crate::words::{lemma_wrap_distance, lemma_wrap_inside, span};

verus! {

/// A word differs from the number that wraps to it by turns around the word.
proof fn lemma_wrap_is_congruent(x: int)
    ensures
        (wrap(x) - x) % 0x1_0000_0000_0000_0000 == 0,
        fits(x) ==> wrap(x) == x,
{
    let k = lemma_wrap_distance(x);
    lemma_mod_multiples_basic(k, span());
    assert(span() * k == k * span()) by (nonlinear_arith);
    if fits(x) {
        lemma_wrap(x);
    }
}

/// Sums, differences and products fold to the word that is congruent to them modulo
/// two to the 64, which is the number itself where it is in range.
pub proof fn law_sums_fold(ab: [Id; 2], analysis: Seq<StoData>, x: i64, y: i64)
    requires
        ab[0] < analysis.len(),
        ab[1] < analysis.len(),
        analysis[ab[0] as int].constant == Some(x),
        analysis[ab[1] as int].constant == Some(y),
    ensures
        fold_shape(Math::Add(ab)@, analysis) matches Some(r)
            && (r - (x + y)) % 0x1_0000_0000_0000_0000 == 0,
        i64::MIN <= x + y <= i64::MAX
            ==> fold_shape(Math::Add(ab)@, analysis) == Some((x + y) as i64),
        fold_shape(Math::Sub(ab)@, analysis) matches Some(r)
            && (r - (x - y)) % 0x1_0000_0000_0000_0000 == 0,
        i64::MIN <= x - y <= i64::MAX
            ==> fold_shape(Math::Sub(ab)@, analysis) == Some((x - y) as i64),
        fold_shape(Math::Mul(ab)@, analysis) matches Some(r)
            && (r - (x * y)) % 0x1_0000_0000_0000_0000 == 0,
        i64::MIN <= x * y <= i64::MAX
            ==> fold_shape(Math::Mul(ab)@, analysis) == Some((x * y) as i64),
{
    lemma_wrap_is_congruent(x + y);
    lemma_wrap_is_congruent(x - y);
    lemma_wrap_is_congruent(x * y);
}

/// A quotient and its remainder make up the dividend; the remainder is smaller than
/// the divisor and does not have the sign opposite to the dividend's.
pub proof fn law_quotients_fold(ab: [Id; 2], analysis: Seq<StoData>, x: i64, y: i64)
    requires
        ab[0] < analysis.len(),
        ab[1] < analysis.len(),
        analysis[ab[0] as int].constant == Some(x),
        analysis[ab[1] as int].constant == Some(y),
        y != 0,
        !(x == i64::MIN && y == -1),
    ensures
        fold_shape(Math::Div(ab)@, analysis) is Some,
        fold_shape(Math::Mod(ab)@, analysis) is Some,
        x == fold_shape(Math::Div(ab)@, analysis)->0 * y + fold_shape(Math::Mod(ab)@, analysis)->0,
        -y < fold_shape(Math::Mod(ab)@, analysis)->0 < y
            || y < fold_shape(Math::Mod(ab)@, analysis)->0 < -y,
        x >= 0 ==> fold_shape(Math::Mod(ab)@, analysis)->0 >= 0,
        x <= 0 ==> fold_shape(Math::Mod(ab)@, analysis)->0 <= 0,
{
    lemma_quot_fits(x, y);
    lemma_quot_rem(x as int, y as int);
    lemma_wrap(quot(x as int, y as int));
    lemma_wrap(rem(x as int, y as int));
}

/// Nothing folds that divides by zero.
pub proof fn law_division_by_zero_does_not_fold(ab: [Id; 2], analysis: Seq<StoData>)
    requires
        ab[0] < analysis.len(),
        ab[1] < analysis.len(),
        analysis[ab[1] as int].constant == Some(0i64),
    ensures
        fold_shape(Math::Div(ab)@, analysis) is None,
        fold_shape(Math::Mod(ab)@, analysis) is None,
{
}

/// The larger and the smaller of two constants bound both, and are one of them.
pub proof fn law_extremes_fold(ab: [Id; 2], analysis: Seq<StoData>, x: i64, y: i64)
    requires
        ab[0] < analysis.len(),
        ab[1] < analysis.len(),
        analysis[ab[0] as int].constant == Some(x),
        analysis[ab[1] as int].constant == Some(y),
    ensures
        fold_shape(Math::Max(ab)@, analysis) matches Some(m) && m >= x && m >= y && (m == x || m
            == y),
        fold_shape(Math::Min(ab)@, analysis) matches Some(m) && m <= x && m <= y && (m == x || m
            == y),
{
    lemma_wrap(x as int);
    lemma_wrap(y as int);
}

/// A comparison folds to one where it holds, and else to zero.
pub proof fn law_comparisons_fold(ab: [Id; 2], analysis: Seq<StoData>, x: i64, y: i64)
    requires
        ab[0] < analysis.len(),
        ab[1] < analysis.len(),
        analysis[ab[0] as int].constant == Some(x),
        analysis[ab[1] as int].constant == Some(y),
    ensures
        fold_shape(Math::Lt(ab)@, analysis) == Some(1i64) <==> x < y,
        fold_shape(Math::Lt(ab)@, analysis) == Some(0i64) <==> x >= y,
        fold_shape(Math::Gt(ab)@, analysis) == Some(1i64) <==> x > y,
        fold_shape(Math::Gt(ab)@, analysis) == Some(0i64) <==> x <= y,
        fold_shape(Math::Let(ab)@, analysis) == Some(1i64) <==> x <= y,
        fold_shape(Math::Let(ab)@, analysis) == Some(0i64) <==> x > y,
        fold_shape(Math::Get(ab)@, analysis) == Some(1i64) <==> x >= y,
        fold_shape(Math::Get(ab)@, analysis) == Some(0i64) <==> x < y,
        fold_shape(Math::Eq(ab)@, analysis) == Some(1i64) <==> x == y,
        fold_shape(Math::Eq(ab)@, analysis) == Some(0i64) <==> x != y,
        fold_shape(Math::IEq(ab)@, analysis) == Some(1i64) <==> x != y,
        fold_shape(Math::IEq(ab)@, analysis) == Some(0i64) <==> x == y,
{
    lemma_wrap(0);
    lemma_wrap(1);
}

/// A conjunction folds to one where neither side is zero and else to zero; a
/// disjunction folds to one where a side is one and else to zero.
pub proof fn law_connectives_fold(ab: [Id; 2], analysis: Seq<StoData>, x: i64, y: i64)
    requires
        ab[0] < analysis.len(),
        ab[1] < analysis.len(),
        analysis[ab[0] as int].constant == Some(x),
        analysis[ab[1] as int].constant == Some(y),
    ensures
        fold_shape(Math::And(ab)@, analysis) == Some(1i64) <==> (x != 0 && y != 0),
        fold_shape(Math::And(ab)@, analysis) == Some(0i64) <==> (x == 0 || y == 0),
        fold_shape(Math::Or(ab)@, analysis) == Some(1i64) <==> (x == 1 || y == 1),
        fold_shape(Math::Or(ab)@, analysis) == Some(0i64) <==> (x != 1 && y != 1),
{
    lemma_wrap(0);
    lemma_wrap(1);
}

/// The negation of zero folds to one, and that of every other constant to zero.
pub proof fn law_negation_folds(a: Id, analysis: Seq<StoData>)
    requires
        a < analysis.len(),
    ensures
        fold_shape(Math::Not(a)@, analysis) == Some(1i64) <==> analysis[a as int].constant == Some(
            0i64,
        ),
        fold_shape(Math::Not(a)@, analysis) == Some(0i64) <==> (
        analysis[a as int].constant matches Some(x) && x != 0),
        fold_shape(Math::Not(a)@, analysis) is None <==> analysis[a as int].constant is None,
{
}

/// A constant folds to itself, and a symbol does not fold.
pub proof fn law_leaves_fold(c: i64, s: String, analysis: Seq<StoData>)
    ensures
        fold_shape(Math::Constant(c)@, analysis) == Some(c),
        fold_shape(Math::Symbol(s)@, analysis) is None,
{
}

/// Nothing folds of which an operand has no constant.
pub proof fn law_unknown_operands_do_not_fold(ab: [Id; 2], analysis: Seq<StoData>)
    requires
        analysis[ab[0] as int].constant is None || analysis[ab[1] as int].constant is None,
    ensures
        fold_shape(Math::Add(ab)@, analysis) is None,
        fold_shape(Math::Sub(ab)@, analysis) is None,
        fold_shape(Math::Mul(ab)@, analysis) is None,
        fold_shape(Math::Div(ab)@, analysis) is None,
        fold_shape(Math::Mod(ab)@, analysis) is None,
        fold_shape(Math::Max(ab)@, analysis) is None,
        fold_shape(Math::Min(ab)@, analysis) is None,
        fold_shape(Math::Lt(ab)@, analysis) is None,
        fold_shape(Math::Gt(ab)@, analysis) is None,
        fold_shape(Math::Let(ab)@, analysis) is None,
        fold_shape(Math::Get(ab)@, analysis) is None,
        fold_shape(Math::Eq(ab)@, analysis) is None,
        fold_shape(Math::IEq(ab)@, analysis) is None,
        fold_shape(Math::And(ab)@, analysis) is None,
        fold_shape(Math::Or(ab)@, analysis) is None,
{
}

/// Everything folds of which both operands have a constant, but a division by zero.
pub proof fn law_known_operands_fold(ab: [Id; 2], analysis: Seq<StoData>, x: i64, y: i64)
    requires
        ab[0] < analysis.len(),
        ab[1] < analysis.len(),
        analysis[ab[0] as int].constant == Some(x),
        analysis[ab[1] as int].constant == Some(y),
    ensures
        fold_shape(Math::Add(ab)@, analysis) is Some,
        fold_shape(Math::Sub(ab)@, analysis) is Some,
        fold_shape(Math::Mul(ab)@, analysis) is Some,
        fold_shape(Math::Max(ab)@, analysis) is Some,
        fold_shape(Math::Min(ab)@, analysis) is Some,
        fold_shape(Math::Lt(ab)@, analysis) is Some,
        fold_shape(Math::Gt(ab)@, analysis) is Some,
        fold_shape(Math::Let(ab)@, analysis) is Some,
        fold_shape(Math::Get(ab)@, analysis) is Some,
        fold_shape(Math::Eq(ab)@, analysis) is Some,
        fold_shape(Math::IEq(ab)@, analysis) is Some,
        fold_shape(Math::And(ab)@, analysis) is Some,
        fold_shape(Math::Or(ab)@, analysis) is Some,
        fold_shape(Math::Div(ab)@, analysis) is Some <==> y != 0,
        fold_shape(Math::Mod(ab)@, analysis) is Some <==> y != 0,
{
}

/// Operators that are symmetric, and comparisons that mirror each other, fold to the
/// same with their operands exchanged.
pub proof fn law_exchanged_operands_fold(ab: [Id; 2], ba: [Id; 2], analysis: Seq<StoData>)
    requires
        ba[0] == ab[1],
        ba[1] == ab[0],
    ensures
        fold_shape(Math::Gt(ab)@, analysis) == fold_shape(Math::Lt(ba)@, analysis),
        fold_shape(Math::Get(ab)@, analysis) == fold_shape(Math::Let(ba)@, analysis),
        fold_shape(Math::Eq(ab)@, analysis) == fold_shape(Math::Eq(ba)@, analysis),
        fold_shape(Math::IEq(ab)@, analysis) == fold_shape(Math::IEq(ba)@, analysis),
        fold_shape(Math::Add(ab)@, analysis) == fold_shape(Math::Add(ba)@, analysis),
        fold_shape(Math::Mul(ab)@, analysis) == fold_shape(Math::Mul(ba)@, analysis),
        fold_shape(Math::Max(ab)@, analysis) == fold_shape(Math::Max(ba)@, analysis),
        fold_shape(Math::Min(ab)@, analysis) == fold_shape(Math::Min(ba)@, analysis),
        fold_shape(Math::And(ab)@, analysis) == fold_shape(Math::And(ba)@, analysis),
        fold_shape(Math::Or(ab)@, analysis) == fold_shape(Math::Or(ba)@, analysis),
{
    if let (Some(x), Some(y)) = (
        analysis[ab[0] as int].constant,
        analysis[ab[1] as int].constant,
    ) {
        assert(x * y == y * x) by (nonlinear_arith);
    }
}

/// Of a comparison and its opposite one folds to one and the other to zero, and
/// exactly one of less, equal and greater folds to one.
pub proof fn law_opposite_comparisons_fold(ab: [Id; 2], analysis: Seq<StoData>, x: i64, y: i64)
    requires
        ab[0] < analysis.len(),
        ab[1] < analysis.len(),
        analysis[ab[0] as int].constant == Some(x),
        analysis[ab[1] as int].constant == Some(y),
    ensures
        fold_shape(Math::Lt(ab)@, analysis)->0 + fold_shape(Math::Get(ab)@, analysis)->0 == 1,
        fold_shape(Math::Gt(ab)@, analysis)->0 + fold_shape(Math::Let(ab)@, analysis)->0 == 1,
        fold_shape(Math::Eq(ab)@, analysis)->0 + fold_shape(Math::IEq(ab)@, analysis)->0 == 1,
        fold_shape(Math::Lt(ab)@, analysis)->0 + fold_shape(Math::Eq(ab)@, analysis)->0
            + fold_shape(Math::Gt(ab)@, analysis)->0 == 1,
{
    lemma_wrap(0);
    lemma_wrap(1);
}

/// Subtraction undoes addition, although both wrap around.
pub proof fn law_subtraction_undoes_addition(
    ab: [Id; 2],
    sb: [Id; 2],
    analysis: Seq<StoData>,
    x: i64,
    y: i64,
)
    requires
        ab[0] < analysis.len(),
        ab[1] < analysis.len(),
        analysis[ab[0] as int].constant == Some(x),
        analysis[ab[1] as int].constant == Some(y),
        sb[0] < analysis.len(),
        sb[1] == ab[1],
        analysis[sb[0] as int].constant == fold_shape(Math::Add(ab)@, analysis),
    ensures
        fold_shape(Math::Sub(sb)@, analysis) == Some(x),
{
    lemma_wrap(x as int);
    lemma_wrap(y as int);
    lemma_wrap_inside(x + y, y as int);
}

/// The larger and the smaller of two constants add up to what the constants do.
pub proof fn law_extremes_add_up(
    ab: [Id; 2],
    mm: [Id; 2],
    analysis: Seq<StoData>,
    x: i64,
    y: i64,
)
    requires
        ab[0] < analysis.len(),
        ab[1] < analysis.len(),
        analysis[ab[0] as int].constant == Some(x),
        analysis[ab[1] as int].constant == Some(y),
        mm[0] < analysis.len(),
        mm[1] < analysis.len(),
        analysis[mm[0] as int].constant == fold_shape(Math::Max(ab)@, analysis),
        analysis[mm[1] as int].constant == fold_shape(Math::Min(ab)@, analysis),
    ensures
        fold_shape(Math::Add(mm)@, analysis) == fold_shape(Math::Add(ab)@, analysis),
{
    lemma_wrap(x as int);
    lemma_wrap(y as int);
}

/// What a node folds to depends on the constants of its operands and on nothing else
/// of the data.
pub proof fn law_only_operands_count(shape: Shape, one: Seq<StoData>, other: Seq<StoData>)
    requires
        forall|i: int| #[trigger]
            operands(shape).contains(i) ==> one[i].constant == other[i].constant,
    ensures
        fold_shape(shape, one) == fold_shape(shape, other),
{
    match shape {
        Shape::Not(a) => {
            assert(operands(shape)[0] == a);
            assert(operands(shape).contains(a));
        },
        Shape::Binary(_, a, b) => {
            assert(operands(shape)[0] == a);
            assert(operands(shape)[1] == b);
            assert(operands(shape).contains(a));
            assert(operands(shape).contains(b));
        },
        _ => {},
    }
}

/// Computing an operator on two constants gives what a node of them folds to.
pub proof fn law_binary_folds_as_computed(
    op: Op,
    a: int,
    b: int,
    analysis: Seq<StoData>,
    x: i64,
    y: i64,
)
    requires
        0 <= a < analysis.len(),
        0 <= b < analysis.len(),
        analysis[a].constant == Some(x),
        analysis[b].constant == Some(y),
    ensures
        fold_shape(Shape::Binary(op, a, b), analysis) == apply64(op, x, y),
{
}

proof fn lemma_expr_at_prefix(shapes: Seq<Shape>, shape: Shape, i: int)
    requires
        forall|j: int| 0 <= j < shapes.len() ==> operands_below(#[trigger] shapes[j], j),
        0 <= i < shapes.len(),
    ensures
        expr_at(as_pattern(shapes.push(shape)), i) == expr_at(as_pattern(shapes), i),
    decreases i,
{
    assert(operands_below(shapes[i], i));
    assert(as_pattern(shapes.push(shape))[i] == as_pattern(shapes)[i]);
    match shapes[i] {
        Shape::Not(a) => {
            lemma_expr_at_prefix(shapes, shape, a);
        },
        Shape::Binary(_, a, b) => {
            lemma_expr_at_prefix(shapes, shape, a);
            lemma_expr_at_prefix(shapes, shape, b);
        },
        _ => {},
    }
}

/// What a node folds to from the data of the nodes before it is the value of the
/// expression below it, where no symbol has a value.
pub proof fn law_next_node_folds_to_its_value(
    shapes: Seq<Shape>,
    analysis: Seq<StoData>,
    shape: Shape,
)
    requires
        is_analyzed(shapes, analysis),
        operands_below(shape, shapes.len() as int),
    ensures
        fold_shape(shape, analysis) == value64(
            expr_at(as_pattern(shapes.push(shape)), shapes.len() as int),
            nothing_known(),
        ),
{
    let next = shapes.push(shape);
    assert(as_pattern(next)[shapes.len() as int] == PatternShape::Node(shape));
    assert forall|j: int| 0 <= j < shapes.len() implies operands_below(
        #[trigger] shapes[j],
        j,
    ) by {}
    match shape {
        Shape::Not(a) => {
            lemma_expr_at_prefix(shapes, shape, a);
            law_constant_is_closed_value(shapes, analysis, a);
        },
        Shape::Binary(_, a, b) => {
            lemma_expr_at_prefix(shapes, shape, a);
            lemma_expr_at_prefix(shapes, shape, b);
            law_constant_is_closed_value(shapes, analysis, a);
            law_constant_is_closed_value(shapes, analysis, b);
        },
        _ => {},
    }
}

/// Folding goes ahead wherever the operands that it looks up are there: the one of a
/// negation, the first of a binary operator, and its second where the first has a
/// constant.
pub proof fn law_folding_needs_operands(
    ab: [Id; 2],
    a: Id,
    c: i64,
    s: String,
    analysis: Seq<StoData>,
)
    ensures
        folds_within(Math::Constant(c)@, analysis),
        folds_within(Math::Symbol(s)@, analysis),
        folds_within(Math::Not(a)@, analysis) <==> a < analysis.len(),
        folds_within(Math::Add(ab)@, analysis)
            <==> ab[0] < analysis.len() && (ab[1] < analysis.len()
            || analysis[ab[0] as int].constant is None),
        folds_within(Math::Sub(ab)@, analysis)
            <==> ab[0] < analysis.len() && (ab[1] < analysis.len()
            || analysis[ab[0] as int].constant is None),
        folds_within(Math::Mul(ab)@, analysis)
            <==> ab[0] < analysis.len() && (ab[1] < analysis.len()
            || analysis[ab[0] as int].constant is None),
        folds_within(Math::Div(ab)@, analysis)
            <==> ab[0] < analysis.len() && (ab[1] < analysis.len()
            || analysis[ab[0] as int].constant is None),
        folds_within(Math::Mod(ab)@, analysis)
            <==> ab[0] < analysis.len() && (ab[1] < analysis.len()
            || analysis[ab[0] as int].constant is None),
        folds_within(Math::Max(ab)@, analysis)
            <==> ab[0] < analysis.len() && (ab[1] < analysis.len()
            || analysis[ab[0] as int].constant is None),
        folds_within(Math::Min(ab)@, analysis)
            <==> ab[0] < analysis.len() && (ab[1] < analysis.len()
            || analysis[ab[0] as int].constant is None),
        folds_within(Math::Lt(ab)@, analysis) <==> ab[0] < analysis.len() && (ab[1] < analysis.len()
            || analysis[ab[0] as int].constant is None),
        folds_within(Math::Gt(ab)@, analysis) <==> ab[0] < analysis.len() && (ab[1] < analysis.len()
            || analysis[ab[0] as int].constant is None),
        folds_within(Math::Let(ab)@, analysis)
            <==> ab[0] < analysis.len() && (ab[1] < analysis.len()
            || analysis[ab[0] as int].constant is None),
        folds_within(Math::Get(ab)@, analysis)
            <==> ab[0] < analysis.len() && (ab[1] < analysis.len()
            || analysis[ab[0] as int].constant is None),
        folds_within(Math::Eq(ab)@, analysis) <==> ab[0] < analysis.len() && (ab[1] < analysis.len()
            || analysis[ab[0] as int].constant is None),
        folds_within(Math::IEq(ab)@, analysis)
            <==> ab[0] < analysis.len() && (ab[1] < analysis.len()
            || analysis[ab[0] as int].constant is None),
        folds_within(Math::And(ab)@, analysis)
            <==> ab[0] < analysis.len() && (ab[1] < analysis.len()
            || analysis[ab[0] as int].constant is None),
        folds_within(Math::Or(ab)@, analysis) <==> ab[0] < analysis.len() && (ab[1] < analysis.len()
            || analysis[ab[0] as int].constant is None),
{
}

/// Folding overflows only where the least 64-bit value is divided by minus one, for
/// its quotient or its remainder.
pub proof fn law_folding_overflows_rarely(
    ab: [Id; 2],
    a: Id,
    c: i64,
    s: String,
    analysis: Seq<StoData>,
)
    ensures
        folds_safely(Math::Constant(c)@, analysis),
        folds_safely(Math::Symbol(s)@, analysis),
        folds_safely(Math::Not(a)@, analysis),
        folds_safely(Math::Add(ab)@, analysis),
        folds_safely(Math::Sub(ab)@, analysis),
        folds_safely(Math::Mul(ab)@, analysis),
        !folds_safely(Math::Div(ab)@, analysis)
            <==> analysis[ab[0] as int].constant == Some(i64::MIN)
            && analysis[ab[1] as int].constant == Some(-1i64),
        !folds_safely(Math::Mod(ab)@, analysis)
            <==> analysis[ab[0] as int].constant == Some(i64::MIN)
            && analysis[ab[1] as int].constant == Some(-1i64),
        folds_safely(Math::Max(ab)@, analysis),
        folds_safely(Math::Min(ab)@, analysis),
        folds_safely(Math::Lt(ab)@, analysis),
        folds_safely(Math::Gt(ab)@, analysis),
        folds_safely(Math::Let(ab)@, analysis),
        folds_safely(Math::Get(ab)@, analysis),
        folds_safely(Math::Eq(ab)@, analysis),
        folds_safely(Math::IEq(ab)@, analysis),
        folds_safely(Math::And(ab)@, analysis),
        folds_safely(Math::Or(ab)@, analysis),
{
}

/// The constants zero and one are the proof goals, and no other node is one.
pub proof fn law_goals(ab: [Id; 2], a: Id, c: i64, s: String)
    ensures
        is_goal(Math::Constant(c)@) <==> c == 0 || c == 1,
        !is_goal(Math::Symbol(s)@),
        !is_goal(Math::Not(a)@),
        !is_goal(Math::Add(ab)@),
        !is_goal(Math::Sub(ab)@),
        !is_goal(Math::Mul(ab)@),
        !is_goal(Math::Div(ab)@),
        !is_goal(Math::Mod(ab)@),
        !is_goal(Math::Max(ab)@),
        !is_goal(Math::Min(ab)@),
        !is_goal(Math::Lt(ab)@),
        !is_goal(Math::Gt(ab)@),
        !is_goal(Math::Let(ab)@),
        !is_goal(Math::Get(ab)@),
        !is_goal(Math::Eq(ab)@),
        !is_goal(Math::IEq(ab)@),
        !is_goal(Math::And(ab)@),
        !is_goal(Math::Or(ab)@),
{
}

/// A node whose data holds a constant is that constant after folding, and it was
/// replaced unless it was that constant before. A node whose data holds none is left
/// alone.
pub proof fn law_folding_reaches_the_constant(shape: Shape, data: StoData)
    ensures
        data.constant matches Some(c) ==> (match folded(shape, data) {
            Some(k) => Shape::Constant(k),
            None => shape,
        }) == Shape::Constant(c),
        folded(shape, data) is Some <==> (data.constant matches Some(c) && shape
            != Shape::Constant(c)),
{
}

/// Every binary operator costs one more than its operands together.
pub proof fn law_operators_cost_one_more(ab: [Id; 2], costs: Seq<u64>)
    requires
        ab[0] < costs.len(),
        ab[1] < costs.len(),
    ensures
        node_cost(Math::Add(ab)@, costs) == 1 + costs[ab[0] as int] + costs[ab[1] as int],
        node_cost(Math::Sub(ab)@, costs) == 1 + costs[ab[0] as int] + costs[ab[1] as int],
        node_cost(Math::Mul(ab)@, costs) == 1 + costs[ab[0] as int] + costs[ab[1] as int],
        node_cost(Math::Div(ab)@, costs) == 1 + costs[ab[0] as int] + costs[ab[1] as int],
        node_cost(Math::Mod(ab)@, costs) == 1 + costs[ab[0] as int] + costs[ab[1] as int],
        node_cost(Math::Max(ab)@, costs) == 1 + costs[ab[0] as int] + costs[ab[1] as int],
        node_cost(Math::Min(ab)@, costs) == 1 + costs[ab[0] as int] + costs[ab[1] as int],
        node_cost(Math::Lt(ab)@, costs) == 1 + costs[ab[0] as int] + costs[ab[1] as int],
        node_cost(Math::Gt(ab)@, costs) == 1 + costs[ab[0] as int] + costs[ab[1] as int],
        node_cost(Math::Let(ab)@, costs) == 1 + costs[ab[0] as int] + costs[ab[1] as int],
        node_cost(Math::Get(ab)@, costs) == 1 + costs[ab[0] as int] + costs[ab[1] as int],
        node_cost(Math::Eq(ab)@, costs) == 1 + costs[ab[0] as int] + costs[ab[1] as int],
        node_cost(Math::IEq(ab)@, costs) == 1 + costs[ab[0] as int] + costs[ab[1] as int],
        node_cost(Math::And(ab)@, costs) == 1 + costs[ab[0] as int] + costs[ab[1] as int],
        node_cost(Math::Or(ab)@, costs) == 1 + costs[ab[0] as int] + costs[ab[1] as int],
{
}

/// A negation costs one more than its operand.
pub proof fn law_negation_costs_one_more(a: Id, costs: Seq<u64>)
    requires
        a < costs.len(),
    ensures
        node_cost(Math::Not(a)@, costs) == 1 + costs[a as int],
{
}

/// A symbol costs one, and so does a constant but for the goals, which cost nothing.
pub proof fn law_leaves_cost_one_at_most(c: i64, s: String, costs: Seq<u64>)
    ensures
        node_cost(Math::Symbol(s)@, costs) == 1,
        node_cost(Math::Constant(c)@, costs) == 0 <==> (c == 0 || c == 1),
        node_cost(Math::Constant(c)@, costs) == 1 <==> (c != 0 && c != 1),
{
}

/// What a node costs depends on the costs of its operands and on nothing else of the
/// costs.
pub proof fn law_only_operands_cost(shape: Shape, one: Seq<u64>, other: Seq<u64>)
    requires
        forall|i: int| #[trigger] operands(shape).contains(i) ==> one[i] == other[i],
    ensures
        node_cost(shape, one) == node_cost(shape, other),
{
    match shape {
        Shape::Not(a) => {
            assert(operands(shape)[0] == a);
            assert(operands(shape).contains(a));
        },
        Shape::Binary(_, a, b) => {
            assert(operands(shape)[0] == a);
            assert(operands(shape)[1] == b);
            assert(operands(shape).contains(a));
            assert(operands(shape).contains(b));
        },
        _ => {},
    }
}

/// The cost of a node from the costs of the nodes before it is the number of nodes in
/// the expression below it that are no proof goals.
pub proof fn law_next_node_costs_its_nodes(shapes: Seq<Shape>, costs: Seq<u64>, shape: Shape)
    requires
        shapes.len() == costs.len(),
        forall|j: int|
            0 <= j < shapes.len() ==> {
                &&& operands_below(#[trigger] shapes[j], j)
                &&& costs[j] == node_cost(shapes[j], costs)
            },
        operands_below(shape, shapes.len() as int),
    ensures
        node_cost(shape, costs) == expr_cost(
            expr_at(as_pattern(shapes.push(shape)), shapes.len() as int),
        ),
{
    let next = shapes.push(shape);
    assert(as_pattern(next)[shapes.len() as int] == PatternShape::Node(shape));
    assert forall|j: int| 0 <= j < shapes.len() implies operands_below(
        #[trigger] shapes[j],
        j,
    ) by {}
    match shape {
        Shape::Not(a) => {
            lemma_expr_at_prefix(shapes, shape, a);
            law_cost_counts_nodes(shapes, costs, a);
        },
        Shape::Binary(_, a, b) => {
            lemma_expr_at_prefix(shapes, shape, a);
            lemma_expr_at_prefix(shapes, shape, b);
            law_cost_counts_nodes(shapes, costs, a);
            law_cost_counts_nodes(shapes, costs, b);
        },
        _ => {},
    }
}

/// How many nodes an expression has.
pub open spec fn size(e: Expr) -> nat
    decreases e,
{
    match e {
        Expr::Var(_) => 1,
        Expr::Const(_) => 1,
        Expr::Sym(_) => 1,
        Expr::Not(x) => 1 + size(*x),
        Expr::Bin(_, x, y) => 1 + size(*x) + size(*y),
    }
}

/// How many nodes of an expression are the constants zero and one.
pub open spec fn goal_count(e: Expr) -> nat
    decreases e,
{
    match e {
        Expr::Var(_) => 0,
        Expr::Const(c) => if c == 0 || c == 1 {
            1
        } else {
            0
        },
        Expr::Sym(_) => 0,
        Expr::Not(x) => goal_count(*x),
        Expr::Bin(_, x, y) => goal_count(*x) + goal_count(*y),
    }
}

/// An expression costs its size but for the proof goals in it.
pub proof fn law_cost_is_size_but_for_goals(e: Expr)
    ensures
        expr_cost(e) + goal_count(e) == size(e),
    decreases e,
{
    match e {
        Expr::Not(x) => {
            law_cost_is_size_but_for_goals(*x);
        },
        Expr::Bin(_, x, y) => {
            law_cost_is_size_but_for_goals(*x);
            law_cost_is_size_but_for_goals(*y);
        },
        _ => {},
    }
}

} // verus!
