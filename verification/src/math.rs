//! The expression language: integer and boolean operators over nodes that
//! refer to their operands by index.

use vstd::prelude::*;

use crate::numeral::{i64_value, parse_i64};

verus! {

/// Index of a node within an expression.
pub type Id = usize;

/// The binary operators of the language.
#[derive(Clone, Copy, Debug, PartialEq, Eq, Structural)]
pub enum Op {
    Add,
    Sub,
    Mul,
    Div,
    Mod,
    Max,
    Min,
    Lt,
    Gt,
    Let,
    Get,
    Eq,
    IEq,
    And,
    Or,
}

/// A node of an expression. `Let` is `<=`, `Get` is `>=` and `IEq` is `!=`.
#[derive(Clone, Debug)]
pub enum Math {
    Add([Id; 2]),
    Sub([Id; 2]),
    Mul([Id; 2]),
    Div([Id; 2]),
    Mod([Id; 2]),
    Max([Id; 2]),
    Min([Id; 2]),
    Not(Id),
    Lt([Id; 2]),
    Gt([Id; 2]),
    Let([Id; 2]),
    Get([Id; 2]),
    Eq([Id; 2]),
    IEq([Id; 2]),
    And([Id; 2]),
    Or([Id; 2]),
    Constant(i64),
    Symbol(String),
}

/// What a node is: a constant, a named symbol, a negation or a binary operator.
pub enum Shape {
    Constant(i64),
    Symbol(Seq<char>),
    Not(int),
    Binary(Op, int, int),
}

impl View for Math {
    type V = Shape;

    open spec fn view(&self) -> Shape {
        match self {
            Math::Add(ab) => Shape::Binary(Op::Add, ab[0] as int, ab[1] as int),
            Math::Sub(ab) => Shape::Binary(Op::Sub, ab[0] as int, ab[1] as int),
            Math::Mul(ab) => Shape::Binary(Op::Mul, ab[0] as int, ab[1] as int),
            Math::Div(ab) => Shape::Binary(Op::Div, ab[0] as int, ab[1] as int),
            Math::Mod(ab) => Shape::Binary(Op::Mod, ab[0] as int, ab[1] as int),
            Math::Max(ab) => Shape::Binary(Op::Max, ab[0] as int, ab[1] as int),
            Math::Min(ab) => Shape::Binary(Op::Min, ab[0] as int, ab[1] as int),
            Math::Not(a) => Shape::Not(*a as int),
            Math::Lt(ab) => Shape::Binary(Op::Lt, ab[0] as int, ab[1] as int),
            Math::Gt(ab) => Shape::Binary(Op::Gt, ab[0] as int, ab[1] as int),
            Math::Let(ab) => Shape::Binary(Op::Let, ab[0] as int, ab[1] as int),
            Math::Get(ab) => Shape::Binary(Op::Get, ab[0] as int, ab[1] as int),
            Math::Eq(ab) => Shape::Binary(Op::Eq, ab[0] as int, ab[1] as int),
            Math::IEq(ab) => Shape::Binary(Op::IEq, ab[0] as int, ab[1] as int),
            Math::And(ab) => Shape::Binary(Op::And, ab[0] as int, ab[1] as int),
            Math::Or(ab) => Shape::Binary(Op::Or, ab[0] as int, ab[1] as int),
            Math::Constant(c) => Shape::Constant(*c),
            Math::Symbol(s) => Shape::Symbol(s@),
        }
    }
}

/// The operands of a node, in order.
pub open spec fn operands(shape: Shape) -> Seq<int> {
    match shape {
        Shape::Constant(_) => seq![],
        Shape::Symbol(_) => seq![],
        Shape::Not(a) => seq![a],
        Shape::Binary(_, a, b) => seq![a, b],
    }
}

/// Every operand of the node lies below `bound`.
pub open spec fn operands_below(shape: Shape, bound: int) -> bool {
    match shape {
        Shape::Constant(_) => true,
        Shape::Symbol(_) => true,
        Shape::Not(a) => 0 <= a < bound,
        Shape::Binary(_, a, b) => 0 <= a < bound && 0 <= b < bound,
    }
}

/// How a binary operator is spelled.
pub open spec fn spelling(op: Op) -> Seq<char> {
    match op {
        Op::Add => seq!['+'],
        Op::Sub => seq!['-'],
        Op::Mul => seq!['*'],
        Op::Div => seq!['/'],
        Op::Mod => seq!['%'],
        Op::Max => seq!['m', 'a', 'x'],
        Op::Min => seq!['m', 'i', 'n'],
        Op::Lt => seq!['<'],
        Op::Gt => seq!['>'],
        Op::Let => seq!['<', '='],
        Op::Get => seq!['>', '='],
        Op::Eq => seq!['=', '='],
        Op::IEq => seq!['!', '='],
        Op::And => seq!['&', '&'],
        Op::Or => seq!['|', '|'],
    }
}

/// The operator that `text` spells, if it spells one.
pub open spec fn spelled(text: Seq<char>) -> Option<Op> {
    if exists|op: Op| #[trigger] spelling(op) == text {
        Some(choose|op: Op| #[trigger] spelling(op) == text)
    } else {
        None
    }
}

/// Different operators are spelled differently.
pub proof fn lemma_spelling_injective(op1: Op, op2: Op)
    requires
        spelling(op1) == spelling(op2),
    ensures
        op1 == op2,
{
    let s1 = spelling(op1);
    let s2 = spelling(op2);
    assert(s1.len() == s2.len());
    assert(s1[0] == s2[0]);
    assert(s1[1] == s2[1]);
}

/// Reading back what an operator is spelled as gives the operator.
pub proof fn law_spelling_reads_back(op: Op)
    ensures
        spelled(spelling(op)) == Some(op),
{
    let other = choose|o: Op| #[trigger] spelling(o) == spelling(op);
    lemma_spelling_injective(other, op);
}

/// The node that an operator text and a list of operands make. Two operands go
/// with a binary operator and one with `!`; a text without operands is a
/// constant where it denotes a 64-bit integer, and else a symbol.
pub open spec fn node_of(op: Seq<char>, children: Seq<int>) -> Option<Shape> {
    if children.len() == 2 && spelled(op) is Some {
        Some(Shape::Binary(spelled(op)->0, children[0], children[1]))
    } else if children.len() == 1 && op == seq!['!'] {
        Some(Shape::Not(children[0]))
    } else if children.len() == 0 {
        match i64_value(op) {
            Some(c) => Some(Shape::Constant(c)),
            None => Some(Shape::Symbol(op)),
        }
    } else {
        None
    }
}

fn is_text(text: &String, literal: &str) -> (r: bool)
    ensures
        r == (text@ == literal@),
{
    *text == literal.to_owned()
}

fn read_op(text: &String) -> (r: Option<Op>)
    ensures
        r == spelled(text@),
{
    proof {
        reveal_strlit("+");
        reveal_strlit("-");
        reveal_strlit("*");
        reveal_strlit("/");
        reveal_strlit("%");
        reveal_strlit("max");
        reveal_strlit("min");
        reveal_strlit("<");
        reveal_strlit(">");
        reveal_strlit("<=");
        reveal_strlit(">=");
        reveal_strlit("==");
        reveal_strlit("!=");
        reveal_strlit("&&");
        reveal_strlit("||");
        assert("+"@ =~= spelling(Op::Add));
        assert("-"@ =~= spelling(Op::Sub));
        assert("*"@ =~= spelling(Op::Mul));
        assert("/"@ =~= spelling(Op::Div));
        assert("%"@ =~= spelling(Op::Mod));
        assert("max"@ =~= spelling(Op::Max));
        assert("min"@ =~= spelling(Op::Min));
        assert("<"@ =~= spelling(Op::Lt));
        assert(">"@ =~= spelling(Op::Gt));
        assert("<="@ =~= spelling(Op::Let));
        assert(">="@ =~= spelling(Op::Get));
        assert("=="@ =~= spelling(Op::Eq));
        assert("!="@ =~= spelling(Op::IEq));
        assert("&&"@ =~= spelling(Op::And));
        assert("||"@ =~= spelling(Op::Or));
        law_spelling_reads_back(Op::Add);
        law_spelling_reads_back(Op::Sub);
        law_spelling_reads_back(Op::Mul);
        law_spelling_reads_back(Op::Div);
        law_spelling_reads_back(Op::Mod);
        law_spelling_reads_back(Op::Max);
        law_spelling_reads_back(Op::Min);
        law_spelling_reads_back(Op::Lt);
        law_spelling_reads_back(Op::Gt);
        law_spelling_reads_back(Op::Let);
        law_spelling_reads_back(Op::Get);
        law_spelling_reads_back(Op::Eq);
        law_spelling_reads_back(Op::IEq);
        law_spelling_reads_back(Op::And);
        law_spelling_reads_back(Op::Or);
    }
    if is_text(text, "+") {
        Some(Op::Add)
    } else if is_text(text, "-") {
        Some(Op::Sub)
    } else if is_text(text, "*") {
        Some(Op::Mul)
    } else if is_text(text, "/") {
        Some(Op::Div)
    } else if is_text(text, "%") {
        Some(Op::Mod)
    } else if is_text(text, "max") {
        Some(Op::Max)
    } else if is_text(text, "min") {
        Some(Op::Min)
    } else if is_text(text, "<") {
        Some(Op::Lt)
    } else if is_text(text, ">") {
        Some(Op::Gt)
    } else if is_text(text, "<=") {
        Some(Op::Let)
    } else if is_text(text, ">=") {
        Some(Op::Get)
    } else if is_text(text, "==") {
        Some(Op::Eq)
    } else if is_text(text, "!=") {
        Some(Op::IEq)
    } else if is_text(text, "&&") {
        Some(Op::And)
    } else if is_text(text, "||") {
        Some(Op::Or)
    } else {
        None
    }
}

impl Op {
    /// The node that applies this operator to two operands.
    pub fn node(self, a: Id, b: Id) -> (r: Math)
        ensures
            r@ == Shape::Binary(self, a as int, b as int),
    {
        match self {
            Op::Add => Math::Add([a, b]),
            Op::Sub => Math::Sub([a, b]),
            Op::Mul => Math::Mul([a, b]),
            Op::Div => Math::Div([a, b]),
            Op::Mod => Math::Mod([a, b]),
            Op::Max => Math::Max([a, b]),
            Op::Min => Math::Min([a, b]),
            Op::Lt => Math::Lt([a, b]),
            Op::Gt => Math::Gt([a, b]),
            Op::Let => Math::Let([a, b]),
            Op::Get => Math::Get([a, b]),
            Op::Eq => Math::Eq([a, b]),
            Op::IEq => Math::IEq([a, b]),
            Op::And => Math::And([a, b]),
            Op::Or => Math::Or([a, b]),
        }
    }
}

/// The pieces of a node that folding works on.
#[derive(Clone, Copy, Debug)]
pub enum Parts {
    Constant(i64),
    Symbol,
    Not(Id),
    Binary(Op, Id, Id),
}

impl Math {
    /// Makes a node from an operator text and its operands; `None` where no
    /// operator of that spelling takes that many operands.
    pub fn from_op(op: &String, children: &Vec<Id>) -> (r: Option<Math>)
        ensures
            match r {
                Some(node) => node_of(op@, children@.map_values(|id: Id| id as int)) == Some(node@),
                None => node_of(op@, children@.map_values(|id: Id| id as int)) is None,
            },
    {
        if children.len() == 2 {
            match read_op(op) {
                Some(binary) => Some(binary.node(children[0], children[1])),
                None => None,
            }
        } else if children.len() == 1 {
            proof {
                reveal_strlit("!");
                assert("!"@ =~= seq!['!']);
            }
            if is_text(op, "!") {
                Some(Math::Not(children[0]))
            } else {
                None
            }
        } else if children.len() == 0 {
            match parse_i64(op.as_str()) {
                Some(c) => Some(Math::Constant(c)),
                None => Some(Math::Symbol(op.clone())),
            }
        } else {
            None
        }
    }

    /// Takes a node apart.
    pub fn parts(&self) -> (r: Parts)
        ensures
            match r {
                Parts::Constant(c) => self@ == Shape::Constant(c),
                Parts::Symbol => self@ is Symbol,
                Parts::Not(a) => self@ == Shape::Not(a as int),
                Parts::Binary(op, a, b) => self@ == Shape::Binary(op, a as int, b as int),
            },
    {
        match self {
            Math::Add(ab) => Parts::Binary(Op::Add, ab[0], ab[1]),
            Math::Sub(ab) => Parts::Binary(Op::Sub, ab[0], ab[1]),
            Math::Mul(ab) => Parts::Binary(Op::Mul, ab[0], ab[1]),
            Math::Div(ab) => Parts::Binary(Op::Div, ab[0], ab[1]),
            Math::Mod(ab) => Parts::Binary(Op::Mod, ab[0], ab[1]),
            Math::Max(ab) => Parts::Binary(Op::Max, ab[0], ab[1]),
            Math::Min(ab) => Parts::Binary(Op::Min, ab[0], ab[1]),
            Math::Lt(ab) => Parts::Binary(Op::Lt, ab[0], ab[1]),
            Math::Gt(ab) => Parts::Binary(Op::Gt, ab[0], ab[1]),
            Math::Let(ab) => Parts::Binary(Op::Let, ab[0], ab[1]),
            Math::Get(ab) => Parts::Binary(Op::Get, ab[0], ab[1]),
            Math::Eq(ab) => Parts::Binary(Op::Eq, ab[0], ab[1]),
            Math::IEq(ab) => Parts::Binary(Op::IEq, ab[0], ab[1]),
            Math::And(ab) => Parts::Binary(Op::And, ab[0], ab[1]),
            Math::Or(ab) => Parts::Binary(Op::Or, ab[0], ab[1]),
            Math::Not(a) => Parts::Not(*a),
            Math::Constant(c) => Parts::Constant(*c),
            Math::Symbol(_) => Parts::Symbol,
        }
    }

    /// The operands of the node, in order.
    pub fn children(&self) -> (r: Vec<Id>)
        ensures
            r@.map_values(|id: Id| id as int) == operands(self@),
    {
        let mut ids: Vec<Id> = Vec::new();
        match self.parts() {
            Parts::Constant(_) => {},
            Parts::Symbol => {},
            Parts::Not(a) => {
                ids.push(a);
            },
            Parts::Binary(_, a, b) => {
                ids.push(a);
                ids.push(b);
            },
        }
        assert(ids@.map_values(|id: Id| id as int) =~= operands(self@));
        ids
    }
}

} // verus!
