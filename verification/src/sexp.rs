//! S-expressions as `egg` reads them: the text of a pattern, the tree that it
//! denotes, and the list of nodes that `egg` hands back.

use vstd::prelude::*;

use crate::math::Id;

verus! {

/// An s-expression whose lists hold an operator and one or two operands.
pub enum Sexp {
    Var(Seq<char>),
    Atom(Seq<char>),
    One(Seq<char>, Box<Sexp>),
    Two(Seq<char>, Box<Sexp>, Box<Sexp>),
}

/// A printing ASCII character other than a parenthesis or a double quote.
pub open spec fn is_graphic(c: char) -> bool {
    &&& '!' as int <= c as int <= '~' as int
    &&& c != '('
    &&& c != ')'
    &&& c != '"'
}

/// A text that an s-expression can hold as one unquoted token.
#[verifier::opaque]
pub open spec fn is_token(s: Seq<char>) -> bool {
    &&& s.len() > 0
    &&& forall|i: int| 0 <= i < s.len() ==> is_graphic(#[trigger] s[i])
}

/// A token that names a pattern variable: a question mark and a name after it.
pub open spec fn is_variable(s: Seq<char>) -> bool {
    &&& is_token(s)
    &&& s.len() > 1
    &&& s[0] == '?'
    &&& s[1] != '#'
}

/// A token that does not begin as a pattern variable does.
pub open spec fn is_operator(s: Seq<char>) -> bool {
    is_token(s) && s[0] != '?'
}

/// Every text that the tree holds is a token of the kind its place calls for.
pub open spec fn is_plain(t: Sexp) -> bool
    decreases t,
{
    match t {
        Sexp::Var(v) => is_variable(v),
        Sexp::Atom(a) => is_operator(a),
        Sexp::One(op, x) => is_operator(op) && is_plain(*x),
        Sexp::Two(op, x, y) => is_operator(op) && is_plain(*x) && is_plain(*y),
    }
}

/// The text of a tree: lists in parentheses, with one space between elements.
pub open spec fn render(t: Sexp) -> Seq<char>
    decreases t,
{
    match t {
        Sexp::Var(v) => v,
        Sexp::Atom(a) => a,
        Sexp::One(op, x) => seq!['('] + op + seq![' '] + render(*x) + seq![')'],
        Sexp::Two(op, x, y) => seq!['('] + op + seq![' '] + render(*x) + seq![' '] + render(*y)
            + seq![')'],
    }
}

/// `u` is `t` or occurs in it.
pub open spec fn occurs_in(u: Sexp, t: Sexp) -> bool
    decreases t,
{
    ||| u == t
    ||| match t {
        Sexp::Var(_) => false,
        Sexp::Atom(_) => false,
        Sexp::One(_, x) => occurs_in(u, *x),
        Sexp::Two(_, x, y) => occurs_in(u, *x) || occurs_in(u, *y),
    }
}

/// A node of a pattern as read: a variable, or an operator text with the
/// indices of its operands.
#[derive(Clone, Debug)]
pub enum RawNode {
    Var(String),
    Op(String, Vec<Id>),
}

/// What a [`RawNode`] holds.
pub enum RawShape {
    Var(Seq<char>),
    Op(Seq<char>, Seq<int>),
}

impl View for RawNode {
    type V = RawShape;

    open spec fn view(&self) -> RawShape {
        match self {
            RawNode::Var(v) => RawShape::Var(v@),
            RawNode::Op(op, children) => RawShape::Op(
                op@,
                children@.map_values(|id: Id| id as int),
            ),
        }
    }
}

/// The nodes of a pattern, each by what it holds.
pub open spec fn raw_shapes(nodes: Seq<RawNode>) -> Seq<RawShape> {
    nodes.map_values(|node: RawNode| node@)
}

/// A list of nodes that may be missing, each node by what it holds.
pub open spec fn read_shapes(nodes: Option<Vec<RawNode>>) -> Option<Seq<RawShape>> {
    match nodes {
        Some(nodes) => Some(raw_shapes(nodes@)),
        None => None,
    }
}

/// There is at least one node, and operands come before the node they belong to.
pub open spec fn is_linked(nodes: Seq<RawShape>) -> bool {
    &&& nodes.len() > 0
    &&& forall|i: int, j: int|
        0 <= i < nodes.len() && (#[trigger] nodes[i] matches RawShape::Op(_, children) && 0 <= j
            < children.len()) ==> 0 <= #[trigger] nodes[i]->Op_1[j] < i
}

/// The tree that hangs below node `i`, if no operator in it has more than two
/// operands.
pub open spec fn tree_at(nodes: Seq<RawShape>, i: int) -> Option<Sexp>
    decreases i,
{
    if i < 0 {
        None
    } else {
        match nodes[i] {
            RawShape::Var(v) => Some(Sexp::Var(v)),
            RawShape::Op(op, children) => if children.len() == 0 {
                Some(Sexp::Atom(op))
            } else if children.len() == 1 && 0 <= children[0] < i {
                match tree_at(nodes, children[0]) {
                    Some(x) => Some(Sexp::One(op, Box::new(x))),
                    None => None,
                }
            } else if children.len() == 2 && 0 <= children[0] < i && 0 <= children[1] < i {
                match (tree_at(nodes, children[0]), tree_at(nodes, children[1])) {
                    (Some(x), Some(y)) => Some(Sexp::Two(op, Box::new(x), Box::new(y))),
                    _ => None,
                }
            } else {
                None
            },
        }
    }
}

/// The nodes denote `t`: it hangs below the last node, and nothing hangs below
/// any node that does not occur in it.
pub open spec fn denotes(nodes: Seq<RawShape>, t: Sexp) -> bool {
    &&& nodes.len() > 0
    &&& tree_at(nodes, nodes.len() - 1) == Some(t)
    &&& forall|i: int|
        0 <= i < nodes.len() ==> (#[trigger] tree_at(nodes, i) matches Some(u) && occurs_in(u, t))
}

/// Where there are nodes, they are linked.
pub open spec fn is_linked_where_read(nodes: Option<Seq<RawShape>>) -> bool {
    nodes matches Some(nodes) ==> is_linked(nodes)
}

/// Where `text` is the text of a plain tree, there are nodes, and they denote it.
pub open spec fn reads_plain_text(text: Seq<char>, nodes: Option<Seq<RawShape>>) -> bool {
    forall|t: Sexp|
        is_plain(t) && #[trigger] render(t) == text ==> (nodes matches Some(nodes) && denotes(
            nodes,
            t,
        ))
}

/// The nodes that `egg` reads from the text of a pattern over `SymbolLang`, or
/// `None` where it rejects the text.
pub uninterp spec fn egg_pattern(text: Seq<char>) -> Option<Seq<RawShape>>;

/// `FromStr` of `egg::Pattern<egg::SymbolLang>`. The nodes are those of the
/// pattern's `ast`, in order, with variables and operators by their text and
/// operands by their index. Operands come before the node they belong to. The
/// text of a plain tree is accepted and read as that tree; what other texts are
/// read as, or whether they are accepted, is not stated.
///
/// An index of `egg` has 32 bits, which is enough for as many nodes as the text
/// has characters. Lists are read by recursion, so how deep they may nest depends
/// on the stack.
#[verifier::external_body]
pub(crate) fn parse_nodes(text: &str) -> (r: Option<Vec<RawNode>>)
    requires
        text@.len() <= u32::MAX,
    ensures
        read_shapes(r) == egg_pattern(text@),
        is_linked_where_read(read_shapes(r)),
        reads_plain_text(text@, read_shapes(r)),
{
    let pattern: egg::Pattern<egg::SymbolLang> = text.parse().ok()?;
    let nodes = pattern.ast.iter().map(|node| match node {
        egg::ENodeOrVar::Var(var) => RawNode::Var(var.to_string()),
        egg::ENodeOrVar::ENode(node) => RawNode::Op(
            node.op.to_string(),
            node.children.iter().map(|id| usize::from(*id)).collect(),
        ),
    });
    Some(nodes.collect())
}

} // verus!
