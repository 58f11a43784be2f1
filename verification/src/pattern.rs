//! Patterns: lists of nodes and variables, read from text.

use vstd::prelude::*;

use crate::expr::{
    expr_at, holds_parts_of, is_part_of, is_writable, law_writable_reads_back,
    lemma_occurring_is_part, lemma_text_is_rendered, read_sexp, sexp, text, Expr, PatternShape,
};
use crate::math::{node_of, operands_below, Math};
use crate::sexp::{
    denotes, egg_pattern, is_linked, is_plain, occurs_in, parse_nodes, raw_shapes, render, tree_at,
    RawNode, RawShape,
};

verus! {

/// A node of a pattern.
#[derive(Clone, Debug)]
pub enum PatternNode {
    Var(String),
    ENode(Math),
}

impl View for PatternNode {
    type V = PatternShape;

    open spec fn view(&self) -> PatternShape {
        match self {
            PatternNode::Var(v) => PatternShape::Var(v@),
            PatternNode::ENode(node) => PatternShape::Node(node@),
        }
    }
}

/// A pattern: an expression with variables, as a list of nodes in which the
/// operands of a node come before it and the last node is the root.
#[derive(Clone, Debug)]
pub struct Pattern {
    pub ast: Vec<PatternNode>,
}

impl Pattern {
    /// The nodes, each by what it holds.
    pub open spec fn shapes(&self) -> Seq<PatternShape> {
        self.ast@.map_values(|node: PatternNode| node@)
    }

    /// There is a root, and operands come before the node they belong to.
    pub open spec fn wf(&self) -> bool {
        is_ordered(self.shapes())
    }
}

impl View for Pattern {
    type V = Expr;

    /// The expression that the pattern denotes.
    open spec fn view(&self) -> Expr {
        expr_at(self.shapes(), self.ast@.len() - 1)
    }
}

/// There is a root, and operands come before the node they belong to.
pub open spec fn is_ordered(nodes: Seq<PatternShape>) -> bool {
    &&& nodes.len() > 0
    &&& forall|i: int|
        0 <= i < nodes.len() ==> (#[trigger] nodes[i] matches PatternShape::Node(shape)
            ==> operands_below(shape, i))
}

/// The pattern node that a node as read stands for, if it stands for one.
pub open spec fn pattern_node(raw: RawShape) -> Option<PatternShape> {
    match raw {
        RawShape::Var(v) => Some(PatternShape::Var(v)),
        RawShape::Op(op, children) => match node_of(op, children) {
            Some(shape) => Some(PatternShape::Node(shape)),
            None => None,
        },
    }
}

/// The pattern nodes that the nodes as read stand for; `None` where one of them
/// stands for no node of the language.
pub open spec fn pattern_nodes(raw: Seq<RawShape>) -> Option<Seq<PatternShape>> {
    if forall|i: int| 0 <= i < raw.len() ==> pattern_node(#[trigger] raw[i]) is Some {
        Some(raw.map_values(|node: RawShape| pattern_node(node)->0))
    } else {
        None
    }
}

/// The nodes of the pattern that a text is read as; `None` where `egg` rejects the
/// text, or the text holds something that is no node of the language.
pub open spec fn read_pattern(text: Seq<char>) -> Option<Seq<PatternShape>> {
    match egg_pattern(text) {
        Some(raw) => pattern_nodes(raw),
        None => None,
    }
}

/// Turns nodes as read into a pattern; `None` where one of them is no node of
/// the language.
pub fn read_nodes(raw: &Vec<RawNode>) -> (r: Option<Pattern>)
    ensures
        match r {
            Some(pattern) => pattern_nodes(raw_shapes(raw@)) == Some(pattern.shapes()),
            None => pattern_nodes(raw_shapes(raw@)) is None,
        },
{
    let mut ast: Vec<PatternNode> = Vec::new();
    let ghost shapes = raw_shapes(raw@);
    let mut i: usize = 0;
    while i < raw.len()
        invariant
            shapes == raw_shapes(raw@),
            i <= raw@.len(),
            ast@.len() == i,
            forall|j: int| 0 <= j < i ==> pattern_node(shapes[j]) == Some((#[trigger] ast@[j])@),
        decreases raw@.len() - i,
    {
        assert(shapes[i as int] == raw@[i as int]@);
        match &raw[i] {
            RawNode::Var(v) => {
                ast.push(PatternNode::Var(v.clone()));
            },
            RawNode::Op(op, children) => {
                match Math::from_op(op, children) {
                    Some(node) => {
                        ast.push(PatternNode::ENode(node));
                    },
                    None => {
                        return None;
                    },
                }
            },
        }
        i = i + 1;
    }
    let pattern = Pattern { ast };
    proof {
        assert forall|j: int| 0 <= j < shapes.len() implies pattern_node(
            #[trigger] shapes[j],
        ) is Some by {
            assert(pattern_node(shapes[j]) == Some(ast@[j]@));
        }
        assert(pattern.shapes() =~= pattern_nodes(shapes)->0);
    }
    Some(pattern)
}

/// Below every node that stands for an expression, the pattern nodes hold that
/// expression.
proof fn lemma_expr_at(raw: Seq<RawShape>, nodes: Seq<PatternShape>, i: int)
    requires
        is_linked(raw),
        pattern_nodes(raw) == Some(nodes),
        0 <= i < raw.len(),
        tree_at(raw, i) is Some,
        read_sexp(tree_at(raw, i)->0) is Some,
    ensures
        expr_at(nodes, i) == read_sexp(tree_at(raw, i)->0)->0,
    decreases i,
{
    assert(pattern_node(raw[i]) == Some(nodes[i]));
    match raw[i] {
        RawShape::Var(_) => {},
        RawShape::Op(_, children) => {
            if children.len() == 1 {
                lemma_expr_at(raw, nodes, children[0]);
            } else if children.len() == 2 {
                lemma_expr_at(raw, nodes, children[0]);
                lemma_expr_at(raw, nodes, children[1]);
            }
        },
    }
}

/// Nodes that denote what is written of an expression turn into a pattern that
/// denotes the expression, and nothing besides.
proof fn lemma_denotes(raw: Seq<RawShape>, e: Expr)
    requires
        is_linked(raw),
        is_writable(e),
        denotes(raw, sexp(e)),
    ensures
        pattern_nodes(raw) is Some,
        expr_at(pattern_nodes(raw)->0, raw.len() - 1) == e,
        holds_parts_of(pattern_nodes(raw)->0, e),
{
    law_writable_reads_back(e);
    assert forall|i: int| 0 <= i < raw.len() implies pattern_node(#[trigger] raw[i]) is Some by {
        let u = tree_at(raw, i)->0;
        assert(occurs_in(u, sexp(e)));
        lemma_occurring_is_part(u, e);
    }
    let nodes = pattern_nodes(raw)->0;
    lemma_expr_at(raw, nodes, raw.len() - 1);
    assert forall|i: int| 0 <= i < nodes.len() implies is_part_of(
        #[trigger] expr_at(nodes, i),
        e,
    ) by {
        let u = tree_at(raw, i)->0;
        assert(occurs_in(u, sexp(e)));
        lemma_occurring_is_part(u, e);
        lemma_expr_at(raw, nodes, i);
    }
}

/// Linked nodes turn into an ordered pattern.
proof fn lemma_ordered(raw: Seq<RawShape>)
    requires
        is_linked(raw),
        pattern_nodes(raw) is Some,
    ensures
        is_ordered(pattern_nodes(raw)->0),
{
    let nodes = pattern_nodes(raw)->0;
    assert forall|i: int| 0 <= i < nodes.len() implies (
    #[trigger] nodes[i] matches PatternShape::Node(shape) ==> operands_below(shape, i)) by {
        assert(pattern_node(raw[i]) == Some(nodes[i]));
    }
}

/// Reads a pattern. The text is an s-expression; in it a token that begins with
/// a question mark is a variable, and every other token is a node of the
/// language.
///
/// `None` where the text is no s-expression or holds something that is no node
/// of the language. What is written of an expression is read as that expression, with
/// no node besides.
pub fn pat(s: &str) -> (r: Option<Pattern>)
    requires
        s@.len() <= u32::MAX,
    ensures
        match r {
            Some(pattern) => read_pattern(s@) == Some(pattern.shapes()),
            None => read_pattern(s@) is None,
        },
        r matches Some(pattern) ==> pattern.wf(),
        forall|e: Expr|
            is_writable(e) && #[trigger] text(e) == s@ ==> (r matches Some(pattern) && pattern@ == e
                && holds_parts_of(pattern.shapes(), e)),
{
    match parse_nodes(s) {
        Some(nodes) => {
            let r = read_nodes(&nodes);
            proof {
                let raw = raw_shapes(nodes@);
                if r is Some {
                    lemma_ordered(raw);
                }
                assert forall|e: Expr| is_writable(e) && #[trigger] text(e) == s@ implies (
                r matches Some(pattern) && pattern@ == e && holds_parts_of(
                    pattern.shapes(),
                    e,
                )) by {
                    law_writable_reads_back(e);
                    lemma_text_is_rendered(e);
                    assert(render(sexp(e)) == s@);
                    lemma_denotes(raw, e);
                }
            }
            r
        },
        None => {
            proof {
                assert forall|e: Expr| is_writable(e) implies #[trigger] text(e) != s@ by {
                    law_writable_reads_back(e);
                    lemma_text_is_rendered(e);
                    assert(is_plain(sexp(e)));
                }
            }
            None
        },
    }
}

} // verus!
