//! Constant folding and cost: the analysis that steers the sampler.

use vstd::prelude::*;

use crate::arith::{
    apply64, divides_safely, fits, lemma_quot_rem, lemma_wrap, negate, quot, rem, wrap,
};
use crate::math::{operands_below, Id, Math, Op, Parts, Shape};

verus! {

/// Per-node analysis data: the constant value of the node, if it can be fully
/// evaluated. It serves constant folding and the conditions of rules.
#[derive(Clone, Copy, Debug)]
pub struct StoData {
    pub constant: Option<i64>,
}

/// The analysis for [`Math`].
///
/// It folds constants from the operands up, and assigns cost 0 to the constants
/// `0` and `1`, the proof goals, so that a sampler that prefers low cost is drawn
/// to prove expressions.
#[derive(Clone, Copy, Debug, Default)]
pub struct StoConstantFold;

/// An expression under rewriting: its nodes, the data of each node, and the
/// nodes that were replaced.
pub struct State {
    pub rec_expr: Vec<Math>,
    pub analysis: Vec<StoData>,
    pub touched: Vec<Id>,
}

/// What a node folds to, from what its operands fold to.
pub open spec fn fold_shape(shape: Shape, analysis: Seq<StoData>) -> Option<i64> {
    match shape {
        Shape::Constant(c) => Some(c),
        Shape::Symbol(_) => None,
        Shape::Not(a) => match analysis[a].constant {
            Some(x) => Some(negate(x as int) as i64),
            None => None,
        },
        Shape::Binary(op, a, b) => match (analysis[a].constant, analysis[b].constant) {
            (Some(x), Some(y)) => apply64(op, x, y),
            _ => None,
        },
    }
}

/// Folding the node looks up no operand that is not there. The second operand of a
/// binary operator is looked up only where the first has a constant.
pub open spec fn folds_within(shape: Shape, analysis: Seq<StoData>) -> bool {
    match shape {
        Shape::Constant(_) => true,
        Shape::Symbol(_) => true,
        Shape::Not(a) => 0 <= a < analysis.len(),
        Shape::Binary(_, a, b) => {
            &&& 0 <= a < analysis.len()
            &&& analysis[a].constant is Some ==> 0 <= b < analysis.len()
        },
    }
}

/// Folding the node does not divide the least 64-bit value by minus one, whose
/// quotient no machine word holds.
pub open spec fn folds_safely(shape: Shape, analysis: Seq<StoData>) -> bool {
    match shape {
        Shape::Binary(op, a, b) => match (analysis[a].constant, analysis[b].constant) {
            (Some(x), Some(y)) => divides_safely(op, x, y),
            _ => true,
        },
        _ => true,
    }
}

proof fn lemma_wrap_once(x: int)
    requires
        -0x1_0000_0000_0000_0000 <= x < 0x1_0000_0000_0000_0000,
    ensures
        x > i64::MAX ==> wrap(x) == x - 0x1_0000_0000_0000_0000,
        x < i64::MIN ==> wrap(x) == x + 0x1_0000_0000_0000_0000,
{
    if x < 0 {
        assert(x % 0x1_0000_0000_0000_0000 == x + 0x1_0000_0000_0000_0000) by (nonlinear_arith)
            requires
                -0x1_0000_0000_0000_0000 <= x < 0,
        ;
    } else {
        assert(x % 0x1_0000_0000_0000_0000 == x) by (nonlinear_arith)
            requires
                0 <= x < 0x1_0000_0000_0000_0000,
        ;
    }
}

/// A quotient fits in a word, and so does a remainder, but for the least value by minus
/// one.
pub proof fn lemma_quot_fits(x: i64, y: i64)
    requires
        y != 0,
        !(x == i64::MIN && y == -1),
    ensures
        fits(quot(x as int, y as int)),
        fits(rem(x as int, y as int)),
{
    let q = quot(x as int, y as int);
    let r = rem(x as int, y as int);
    lemma_quot_rem(x as int, y as int);
    assert(i64::MIN <= q <= i64::MAX) by (nonlinear_arith)
        requires
            x == q * y + r,
            y != 0,
            x >= 0 ==> r >= 0,
            x <= 0 ==> r <= 0,
            i64::MIN <= x <= i64::MAX,
            -0x8000_0000_0000_0000 <= y <= 0x7fff_ffff_ffff_ffff,
            !(x == i64::MIN && y == -1),
            r < y || r < -y,
            -r < y || -r < -y,
    ;
}

/// Computes a binary operator on two constants.
pub fn fold_binary(op: Op, x: i64, y: i64) -> (r: Option<i64>)
    requires
        divides_safely(op, x, y),
    ensures
        r == apply64(op, x, y),
{
    proof {
        lemma_wrap_once(x + y);
        lemma_wrap_once(x - y);
        if fits(x + y) {
            lemma_wrap(x + y);
        }
        if fits(x - y) {
            lemma_wrap(x - y);
        }
        lemma_wrap(x as int);
        lemma_wrap(y as int);
        lemma_wrap(0);
        lemma_wrap(1);
        if (op == Op::Div || op == Op::Mod) && y != 0 {
            lemma_quot_fits(x, y);
            lemma_wrap(quot(x as int, y as int));
            lemma_wrap(rem(x as int, y as int));
        }
    }
    match op {
        Op::Add => Some(x.wrapping_add(y)),
        Op::Sub => Some(x.wrapping_sub(y)),
        Op::Mul => Some(x.wrapping_mul(y)),
        Op::Div => x.checked_div(y),
        Op::Mod => x.checked_rem(y),
        Op::Max => Some(if x < y { y } else { x }),
        Op::Min => Some(if y < x { y } else { x }),
        Op::Lt => Some(if x < y { 1 } else { 0 }),
        Op::Gt => Some(if x > y { 1 } else { 0 }),
        Op::Let => Some(if x <= y { 1 } else { 0 }),
        Op::Get => Some(if x >= y { 1 } else { 0 }),
        Op::Eq => Some(if x == y { 1 } else { 0 }),
        Op::IEq => Some(if x != y { 1 } else { 0 }),
        Op::And => Some(if x == 0 || y == 0 { 0 } else { 1 }),
        Op::Or => Some(if x == 1 || y == 1 { 1 } else { 0 }),
    }
}

/// The node is the constant 0 or the constant 1.
pub open spec fn is_goal(shape: Shape) -> bool {
    shape == Shape::Constant(0) || shape == Shape::Constant(1)
}

/// The cost of a node, from the cost of the nodes before it: nothing for a proof
/// goal, and else one more than the operands cost together.
pub open spec fn node_cost(shape: Shape, children_cost: Seq<u64>) -> int {
    if is_goal(shape) {
        0
    } else {
        match shape {
            Shape::Constant(_) => 1,
            Shape::Symbol(_) => 1,
            Shape::Not(a) => 1 + children_cost[a],
            Shape::Binary(_, a, b) => 1 + children_cost[a] + children_cost[b],
        }
    }
}

/// What folding replaces a node by, if anything: the constant that its data
/// holds, unless the node is that constant already.
pub open spec fn folded(shape: Shape, data: StoData) -> Option<i64> {
    match data.constant {
        Some(c) => if shape == Shape::Constant(c) {
            None
        } else {
            Some(c)
        },
        None => None,
    }
}

/// Tells whether a node is a proof goal.
pub fn check_goal(enode: &Math) -> (r: bool)
    ensures
        r == is_goal(enode@),
{
    match enode.parts() {
        Parts::Constant(c) => c == 0 || c == 1,
        _ => false,
    }
}

/// The constant that folding replaces a node by, if it replaces it.
pub fn fold_node(enode: &Math, data: &StoData) -> (r: Option<i64>)
    ensures
        r == folded(enode@, *data),
{
    match data.constant {
        Some(c) => match enode.parts() {
            Parts::Constant(k) => if k == c {
                None
            } else {
                Some(c)
            },
            _ => Some(c),
        },
        None => None,
    }
}

impl State {
    /// The nodes of the expression, each by what it is.
    pub open spec fn shapes(&self) -> Seq<Shape> {
        self.rec_expr@.map_values(|node: Math| node@)
    }
}

impl StoConstantFold {
    /// The data of a node, from the data of the nodes before it.
    pub fn make(&self, enode: &Math, analysis: &[StoData]) -> (r: StoData)
        requires
            folds_within(enode@, analysis@),
            folds_safely(enode@, analysis@),
        ensures
            r.constant == fold_shape(enode@, analysis@),
    {
        let constant: Option<i64> = match enode.parts() {
            Parts::Constant(c) => Some(c),
            Parts::Symbol => None,
            Parts::Not(a) => match analysis[a].constant {
                Some(x) => Some(if x == 0 { 1 } else { 0 }),
                None => None,
            },
            Parts::Binary(op, a, b) => match analysis[a].constant {
                Some(x) => match analysis[b].constant {
                    Some(y) => fold_binary(op, x, y),
                    None => None,
                },
                None => None,
            },
        };
        StoData { constant }
    }

    /// The data of a node, from the data of the nodes before it. `None` where an
    /// operand that is looked up is not among these, or a quotient overflows.
    pub fn try_make(&self, enode: &Math, analysis: &[StoData]) -> (r: Option<StoData>)
        ensures
            match r {
                Some(data) => {
                    &&& folds_within(enode@, analysis@)
                    &&& folds_safely(enode@, analysis@)
                    &&& data.constant == fold_shape(enode@, analysis@)
                },
                None => !folds_within(enode@, analysis@) || !folds_safely(enode@, analysis@),
            },
    {
        match enode.parts() {
            Parts::Not(a) => {
                if a >= analysis.len() {
                    return None;
                }
            },
            Parts::Binary(op, a, b) => {
                if a >= analysis.len() {
                    return None;
                }
                if let Some(x) = analysis[a].constant {
                    if b >= analysis.len() {
                        return None;
                    }
                    if let Some(y) = analysis[b].constant {
                        if (op == Op::Div || op == Op::Mod) && x == i64::MIN && y == -1 {
                            return None;
                        }
                    }
                }
            },
            _ => {},
        }
        Some(self.make(enode, analysis))
    }

    /// The cost of a node: 0 for the proof goals, and else one more than its
    /// operands cost together.
    pub fn cost(&self, enode: &Math, _analysis: &[StoData], children_cost: &[u64]) -> (r: u64)
        requires
            operands_below(enode@, children_cost@.len() as int),
            node_cost(enode@, children_cost@) <= u64::MAX,
        ensures
            r == node_cost(enode@, children_cost@),
    {
        if check_goal(enode) {
            return 0;
        }
        match enode.parts() {
            Parts::Constant(_) => 1,
            Parts::Symbol => 1,
            Parts::Not(a) => 1 + children_cost[a],
            Parts::Binary(_, a, b) => 1 + children_cost[a] + children_cost[b],
        }
    }

    /// Folds the node at `pos`: where its data holds a constant that it is not
    /// already, the node becomes that constant and counts as touched.
    pub fn modify(&self, state: &mut State, pos: Id)
        requires
            pos < old(state).analysis@.len(),
            old(state).analysis@[pos as int].constant is Some ==> pos < old(state).rec_expr@.len(),
        ensures
            final(state).analysis@ == old(state).analysis@,
            old(state).analysis@[pos as int].constant matches Some(c) ==> {
                &&& final(state).rec_expr@.len() == old(state).rec_expr@.len()
                &&& final(state).rec_expr@[pos as int]@ == Shape::Constant(c)
            },
            forall|i: int|
                0 <= i < old(state).rec_expr@.len() && i != pos ==> (
                #[trigger] final(state).rec_expr@[i]) == old(state).rec_expr@[i],
            final(state).touched@ == if old(state).analysis@[pos as int].constant is None
                || old(state).rec_expr@[pos as int]@ == Shape::Constant(
                old(state).analysis@[pos as int].constant->0,
            ) {
                old(state).touched@
            } else {
                old(state).touched@.push(pos)
            },
            match folded(old(state).shapes()[pos as int], old(state).analysis@[pos as int]) {
                Some(c) => {
                    &&& final(state).shapes() == old(state).shapes().update(
                        pos as int,
                        Shape::Constant(c),
                    )
                    &&& final(state).touched@ == old(state).touched@.push(pos)
                },
                None => {
                    &&& final(state).rec_expr@ == old(state).rec_expr@
                    &&& final(state).touched@ == old(state).touched@
                },
            },
    {
        if state.analysis[pos].constant.is_none() {
            return;
        }
        match fold_node(&state.rec_expr[pos], &state.analysis[pos]) {
            Some(c) => {
                state.rec_expr.set(pos, Math::Constant(c));
                state.touched.push(pos);
                assert(state.shapes() =~= old(state).shapes().update(
                    pos as int,
                    Shape::Constant(c),
                ));
            },
            None => {},
        }
    }
}

} // verus!
