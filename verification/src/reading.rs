//! What nodes, patterns and rewrites are read as.

use vstd::prelude::*;

use crate::analysis::State;
use crate::condition::Guard;
use crate::expr::{expr_at, is_writable, text, Expr, PatternShape};
use crate::math::{
    law_spelling_reads_back, node_of, operands, operands_below, spelled, spelling, Id, Math, Op,
    Shape,
};
use crate::numeral::{all_digits, digits_value, is_digit, law_numeral_reads_back, numeral};
use crate::pattern::{pattern_node, pattern_nodes, read_pattern, Pattern, PatternNode};
use crate::rules::{is_read_from, is_readable, StoRw};
use crate::sexp::{egg_pattern, raw_shapes, RawNode, RawShape};

verus! {

/// Every node is the operator it is named after, on its operands in order.
pub proof fn law_nodes_are_as_named(ab: [Id; 2], a: Id, c: i64, s: String)
    ensures
        Math::Constant(c)@ == Shape::Constant(c),
        Math::Symbol(s)@ == Shape::Symbol(s@),
        Math::Not(a)@ == Shape::Not(a as int),
        Math::Add(ab)@ == Shape::Binary(Op::Add, ab[0] as int, ab[1] as int),
        Math::Sub(ab)@ == Shape::Binary(Op::Sub, ab[0] as int, ab[1] as int),
        Math::Mul(ab)@ == Shape::Binary(Op::Mul, ab[0] as int, ab[1] as int),
        Math::Div(ab)@ == Shape::Binary(Op::Div, ab[0] as int, ab[1] as int),
        Math::Mod(ab)@ == Shape::Binary(Op::Mod, ab[0] as int, ab[1] as int),
        Math::Max(ab)@ == Shape::Binary(Op::Max, ab[0] as int, ab[1] as int),
        Math::Min(ab)@ == Shape::Binary(Op::Min, ab[0] as int, ab[1] as int),
        Math::Lt(ab)@ == Shape::Binary(Op::Lt, ab[0] as int, ab[1] as int),
        Math::Gt(ab)@ == Shape::Binary(Op::Gt, ab[0] as int, ab[1] as int),
        Math::Let(ab)@ == Shape::Binary(Op::Let, ab[0] as int, ab[1] as int),
        Math::Get(ab)@ == Shape::Binary(Op::Get, ab[0] as int, ab[1] as int),
        Math::Eq(ab)@ == Shape::Binary(Op::Eq, ab[0] as int, ab[1] as int),
        Math::IEq(ab)@ == Shape::Binary(Op::IEq, ab[0] as int, ab[1] as int),
        Math::And(ab)@ == Shape::Binary(Op::And, ab[0] as int, ab[1] as int),
        Math::Or(ab)@ == Shape::Binary(Op::Or, ab[0] as int, ab[1] as int),
{
}

/// A node of a pattern, and a node as read, holds what it was made of.
pub proof fn law_pattern_nodes_are_as_given(v: String, node: Math, op: String, children: Vec<Id>)
    ensures
        PatternNode::Var(v)@ == PatternShape::Var(v@),
        PatternNode::ENode(node)@ == PatternShape::Node(node@),
        RawNode::Var(v)@ == RawShape::Var(v@),
        RawNode::Op(op, children)@ matches RawShape::Op(t, ids) && t == op@ && ids.len()
            == children@.len() && forall|i: int|
            0 <= i < ids.len() ==> (#[trigger] ids[i]) == children@[i],
{
}

/// A pattern and an expression under rewriting hold their nodes in order, and a
/// pattern denotes what hangs below its last node.
pub proof fn law_lists_hold_their_nodes(pattern: Pattern, raw: Seq<RawNode>, state: State)
    ensures
        pattern.shapes().len() == pattern.ast@.len(),
        forall|i: int|
            0 <= i < pattern.ast@.len() ==> (#[trigger] pattern.shapes()[i]) == pattern.ast@[i]@,
        pattern@ == expr_at(pattern.shapes(), pattern.ast@.len() - 1),
        raw_shapes(raw).len() == raw.len(),
        forall|i: int| 0 <= i < raw.len() ==> (#[trigger] raw_shapes(raw)[i]) == raw[i]@,
        state.shapes().len() == state.rec_expr@.len(),
        forall|i: int|
            0 <= i < state.rec_expr@.len() ==> (#[trigger] state.shapes()[i])
                == state.rec_expr@[i]@,
{
}

/// The operands of a node are those it was made of, in order, and all of them have to
/// lie below a bound for the node to.
pub proof fn law_operands_are_as_given(
    ab: [Id; 2],
    a: Id,
    c: i64,
    s: String,
    op: Op,
    x: int,
    y: int,
    bound: int,
)
    ensures
        operands(Math::Constant(c)@).len() == 0,
        operands(Math::Symbol(s)@).len() == 0,
        operands(Math::Not(a)@) == seq![a as int],
        operands(Shape::Binary(op, x, y)) == seq![x, y],
        operands(Math::Add(ab)@) == seq![ab[0] as int, ab[1] as int],
        operands(Math::Sub(ab)@) == seq![ab[0] as int, ab[1] as int],
        operands(Math::Mul(ab)@) == seq![ab[0] as int, ab[1] as int],
        operands(Math::Div(ab)@) == seq![ab[0] as int, ab[1] as int],
        operands(Math::Mod(ab)@) == seq![ab[0] as int, ab[1] as int],
        operands(Math::Max(ab)@) == seq![ab[0] as int, ab[1] as int],
        operands(Math::Min(ab)@) == seq![ab[0] as int, ab[1] as int],
        operands(Math::Lt(ab)@) == seq![ab[0] as int, ab[1] as int],
        operands(Math::Gt(ab)@) == seq![ab[0] as int, ab[1] as int],
        operands(Math::Let(ab)@) == seq![ab[0] as int, ab[1] as int],
        operands(Math::Get(ab)@) == seq![ab[0] as int, ab[1] as int],
        operands(Math::Eq(ab)@) == seq![ab[0] as int, ab[1] as int],
        operands(Math::IEq(ab)@) == seq![ab[0] as int, ab[1] as int],
        operands(Math::And(ab)@) == seq![ab[0] as int, ab[1] as int],
        operands(Math::Or(ab)@) == seq![ab[0] as int, ab[1] as int],
        operands_below(Math::Constant(c)@, bound),
        operands_below(Math::Symbol(s)@, bound),
        operands_below(Shape::Not(x), bound) <==> 0 <= x < bound,
        operands_below(Shape::Binary(op, x, y), bound) <==> 0 <= x < bound && 0 <= y < bound,
{
}

/// An operator and two operands are read as the node of that operator.
pub proof fn law_operators_are_read(x: int, y: int)
    ensures
        node_of("+"@, seq![x, y]) == Some(Shape::Binary(Op::Add, x, y)),
        node_of("-"@, seq![x, y]) == Some(Shape::Binary(Op::Sub, x, y)),
        node_of("*"@, seq![x, y]) == Some(Shape::Binary(Op::Mul, x, y)),
        node_of("/"@, seq![x, y]) == Some(Shape::Binary(Op::Div, x, y)),
        node_of("%"@, seq![x, y]) == Some(Shape::Binary(Op::Mod, x, y)),
        node_of("max"@, seq![x, y]) == Some(Shape::Binary(Op::Max, x, y)),
        node_of("min"@, seq![x, y]) == Some(Shape::Binary(Op::Min, x, y)),
        node_of("<"@, seq![x, y]) == Some(Shape::Binary(Op::Lt, x, y)),
        node_of(">"@, seq![x, y]) == Some(Shape::Binary(Op::Gt, x, y)),
        node_of("<="@, seq![x, y]) == Some(Shape::Binary(Op::Let, x, y)),
        node_of(">="@, seq![x, y]) == Some(Shape::Binary(Op::Get, x, y)),
        node_of("=="@, seq![x, y]) == Some(Shape::Binary(Op::Eq, x, y)),
        node_of("!="@, seq![x, y]) == Some(Shape::Binary(Op::IEq, x, y)),
        node_of("&&"@, seq![x, y]) == Some(Shape::Binary(Op::And, x, y)),
        node_of("||"@, seq![x, y]) == Some(Shape::Binary(Op::Or, x, y)),
        node_of("!"@, seq![x]) == Some(Shape::Not(x)),
{
    reveal_strlit("+");
    assert("+"@ =~= spelling(Op::Add));
    law_spelling_reads_back(Op::Add);
    reveal_strlit("-");
    assert("-"@ =~= spelling(Op::Sub));
    law_spelling_reads_back(Op::Sub);
    reveal_strlit("*");
    assert("*"@ =~= spelling(Op::Mul));
    law_spelling_reads_back(Op::Mul);
    reveal_strlit("/");
    assert("/"@ =~= spelling(Op::Div));
    law_spelling_reads_back(Op::Div);
    reveal_strlit("%");
    assert("%"@ =~= spelling(Op::Mod));
    law_spelling_reads_back(Op::Mod);
    reveal_strlit("max");
    assert("max"@ =~= spelling(Op::Max));
    law_spelling_reads_back(Op::Max);
    reveal_strlit("min");
    assert("min"@ =~= spelling(Op::Min));
    law_spelling_reads_back(Op::Min);
    reveal_strlit("<");
    assert("<"@ =~= spelling(Op::Lt));
    law_spelling_reads_back(Op::Lt);
    reveal_strlit(">");
    assert(">"@ =~= spelling(Op::Gt));
    law_spelling_reads_back(Op::Gt);
    reveal_strlit("<=");
    assert("<="@ =~= spelling(Op::Let));
    law_spelling_reads_back(Op::Let);
    reveal_strlit(">=");
    assert(">="@ =~= spelling(Op::Get));
    law_spelling_reads_back(Op::Get);
    reveal_strlit("==");
    assert("=="@ =~= spelling(Op::Eq));
    law_spelling_reads_back(Op::Eq);
    reveal_strlit("!=");
    assert("!="@ =~= spelling(Op::IEq));
    law_spelling_reads_back(Op::IEq);
    reveal_strlit("&&");
    assert("&&"@ =~= spelling(Op::And));
    law_spelling_reads_back(Op::And);
    reveal_strlit("||");
    assert("||"@ =~= spelling(Op::Or));
    law_spelling_reads_back(Op::Or);
    reveal_strlit("!");
    assert("!"@ =~= seq!['!']);
}

/// Nothing else is read as an operator: one operand goes with `!` only, two with a
/// binary operator only, and more with nothing.
pub proof fn law_other_operators_are_refused(s: Seq<char>, children: Seq<int>)
    ensures
        children.len() == 1 && node_of(s, children) is Some ==> s == "!"@,
        children.len() == 2 && node_of(s, children) is Some ==> {
            ||| s == "+"@
            ||| s == "-"@
            ||| s == "*"@
            ||| s == "/"@
            ||| s == "%"@
            ||| s == "max"@
            ||| s == "min"@
            ||| s == "<"@
            ||| s == ">"@
            ||| s == "<="@
            ||| s == ">="@
            ||| s == "=="@
            ||| s == "!="@
            ||| s == "&&"@
            ||| s == "||"@
        },
        children.len() > 2 ==> node_of(s, children) is None,
{
    reveal_strlit("!");
    assert("!"@ =~= seq!['!']);
    reveal_strlit("+");
    assert("+"@ =~= spelling(Op::Add));
    reveal_strlit("-");
    assert("-"@ =~= spelling(Op::Sub));
    reveal_strlit("*");
    assert("*"@ =~= spelling(Op::Mul));
    reveal_strlit("/");
    assert("/"@ =~= spelling(Op::Div));
    reveal_strlit("%");
    assert("%"@ =~= spelling(Op::Mod));
    reveal_strlit("max");
    assert("max"@ =~= spelling(Op::Max));
    reveal_strlit("min");
    assert("min"@ =~= spelling(Op::Min));
    reveal_strlit("<");
    assert("<"@ =~= spelling(Op::Lt));
    reveal_strlit(">");
    assert(">"@ =~= spelling(Op::Gt));
    reveal_strlit("<=");
    assert("<="@ =~= spelling(Op::Let));
    reveal_strlit(">=");
    assert(">="@ =~= spelling(Op::Get));
    reveal_strlit("==");
    assert("=="@ =~= spelling(Op::Eq));
    reveal_strlit("!=");
    assert("!="@ =~= spelling(Op::IEq));
    reveal_strlit("&&");
    assert("&&"@ =~= spelling(Op::And));
    reveal_strlit("||");
    assert("||"@ =~= spelling(Op::Or));
    if let Some(op) = spelled(s) {
        assert(spelling(op) == s);
    }
}

/// A number without operands is read as that constant, however it is written: with its
/// digits, with a plus sign, or with a minus sign for its opposite.
pub proof fn law_numbers_are_read(t: Seq<char>, c: i64)
    requires
        all_digits(t),
    ensures
        node_of(numeral(c as int), seq![]) == Some(Shape::Constant(c)),
        digits_value(t) == c ==> node_of(t, seq![]) == Some(Shape::Constant(c)),
        digits_value(t) == c ==> node_of(seq!['+'] + t, seq![]) == Some(Shape::Constant(c)),
        -digits_value(t) == c ==> node_of(seq!['-'] + t, seq![]) == Some(Shape::Constant(c)),
{
    law_numeral_reads_back(c);
    assert(is_digit(t[0]));
    assert((seq!['+'] + t).skip(1) =~= t);
    assert((seq!['-'] + t).skip(1) =~= t);
}

/// Every other text without operands is read as a symbol of that name; only digits,
/// with a sign or without, are read as a constant.
pub proof fn law_names_are_read(s: Seq<char>)
    ensures
        match node_of(s, seq![]) {
            Some(Shape::Constant(c)) => {
                ||| all_digits(s) && digits_value(s) == c
                ||| s.len() > 0 && s[0] == '+' && all_digits(s.skip(1)) && digits_value(s.skip(1))
                    == c
                ||| s.len() > 0 && s[0] == '-' && all_digits(s.skip(1)) && -digits_value(s.skip(1))
                    == c
            },
            Some(Shape::Symbol(name)) => name == s,
            _ => false,
        },
{
}

/// A list of nodes is read node by node: variables as they are, and operators with
/// their operands. It is refused only where a node of it is.
pub proof fn law_nodes_are_read_one_by_one(raw: Seq<RawShape>)
    ensures
        pattern_nodes(raw) is None <==> exists|i: int|
            0 <= i < raw.len() && pattern_node(#[trigger] raw[i]) is None,
        pattern_nodes(raw) matches Some(nodes) ==> {
            &&& nodes.len() == raw.len()
            &&& forall|i: int|
                0 <= i < raw.len() ==> match #[trigger] raw[i] {
                    RawShape::Var(v) => nodes[i] == PatternShape::Var(v),
                    RawShape::Op(op, children) => {
                        &&& nodes[i] matches PatternShape::Node(shape)
                        &&& node_of(op, children) == Some(shape)
                    },
                }
        },
        forall|i: int|
            0 <= i < raw.len() && (#[trigger] raw[i]) is Var ==> pattern_node(raw[i]) is Some,
        forall|i: int|
            0 <= i < raw.len() && (#[trigger] raw[i]) is Op ==> (pattern_node(raw[i]) is Some
                <==> node_of(raw[i]->Op_0, raw[i]->Op_1) is Some),
{
    if let Some(nodes) = pattern_nodes(raw) {
        assert forall|i: int| 0 <= i < raw.len() implies match #[trigger] raw[i] {
            RawShape::Var(v) => nodes[i] == PatternShape::Var(v),
            RawShape::Op(op, children) => {
                &&& nodes[i] matches PatternShape::Node(shape)
                &&& node_of(op, children) == Some(shape)
            },
        } by {
            assert(pattern_node(raw[i]) is Some);
            assert(nodes[i] == pattern_node(raw[i])->0);
        }
    }
}

/// A text is read as a pattern exactly where `egg` reads nodes from it that are all
/// nodes of the language, and as the pattern of these.
pub proof fn law_texts_are_read_by_their_nodes(s: Seq<char>)
    ensures
        egg_pattern(s) is None ==> read_pattern(s) is None,
        egg_pattern(s) matches Some(raw) ==> read_pattern(s) == pattern_nodes(raw),
{
}

/// An expression hangs together as its nodes do.
pub proof fn law_expressions_follow_nodes(nodes: Seq<PatternShape>, i: int)
    requires
        0 <= i < nodes.len(),
        nodes[i] matches PatternShape::Node(shape) ==> operands_below(shape, i),
    ensures
        match nodes[i] {
            PatternShape::Var(v) => expr_at(nodes, i) == Expr::Var(v),
            PatternShape::Node(Shape::Constant(c)) => expr_at(nodes, i) == Expr::Const(c),
            PatternShape::Node(Shape::Symbol(s)) => expr_at(nodes, i) == Expr::Sym(s),
            PatternShape::Node(Shape::Not(a)) => expr_at(nodes, i) == Expr::Not(
                Box::new(expr_at(nodes, a)),
            ),
            PatternShape::Node(Shape::Binary(op, a, b)) => expr_at(nodes, i) == Expr::Bin(
                op,
                Box::new(expr_at(nodes, a)),
                Box::new(expr_at(nodes, b)),
            ),
        },
{
}

/// A text can be made part of a rewrite where it is read as a pattern, or is what an
/// expression is written as.
pub proof fn law_read_texts_are_readable(s: Seq<char>, e: Expr)
    requires
        s.len() <= u32::MAX,
    ensures
        read_pattern(s) is Some ==> is_readable(s),
        is_writable(e) && text(e) == s ==> is_readable(s),
{
    reveal(is_readable);
}

/// A rewrite has the name and the condition it was given, searches for what the first
/// text is read as, and applies what the second is read as.
pub proof fn law_rewrites_are_as_asked(
    rewrite: StoRw,
    name: Seq<char>,
    lhs: Seq<char>,
    rhs: Seq<char>,
    guard: Guard,
)
    requires
        is_read_from(rewrite, name, lhs, rhs, guard),
    ensures
        rewrite@.name == name,
        rewrite@.guard == guard,
        read_pattern(lhs) matches Some(nodes) && nodes == rewrite.searcher.shapes()
            && rewrite@.lhs == expr_at(nodes, nodes.len() - 1),
        read_pattern(rhs) matches Some(nodes) && nodes == rewrite.applier.shapes()
            && rewrite@.rhs == expr_at(nodes, nodes.len() - 1),
        rewrite.name@ == rewrite@.name,
        rewrite.condition@ == rewrite@.guard,
{
}

} // verus!
