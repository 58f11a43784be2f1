//! Expressions as trees, and how they are written.

use vstd::prelude::*;

use crate::math::{law_spelling_reads_back, spelled, spelling, Op, Shape};
use crate::numeral::{
    all_digits, digits, i64_value, is_digit, law_numeral_reads_back, lemma_digits, numeral,
};
use crate::sexp::{
    is_graphic, is_operator, is_plain, is_token, is_variable, occurs_in, render, Sexp,
};

verus! {

/// An expression over pattern variables, constants and symbols.
pub enum Expr {
    Var(Seq<char>),
    Const(i64),
    Sym(Seq<char>),
    Not(Box<Expr>),
    Bin(Op, Box<Expr>, Box<Expr>),
}

/// The s-expression that stands for an expression.
pub open spec fn sexp(e: Expr) -> Sexp
    decreases e,
{
    match e {
        Expr::Var(v) => Sexp::Var(v),
        Expr::Const(c) => Sexp::Atom(numeral(c as int)),
        Expr::Sym(s) => Sexp::Atom(s),
        Expr::Not(x) => Sexp::One(seq!['!'], Box::new(sexp(*x))),
        Expr::Bin(op, x, y) => Sexp::Two(spelling(op), Box::new(sexp(*x)), Box::new(sexp(*y))),
    }
}

/// How an expression is written: a list in parentheses for every operator, with
/// one space between its elements.
pub open spec fn text(e: Expr) -> Seq<char>
    decreases e,
{
    match e {
        Expr::Var(v) => v,
        Expr::Const(c) => numeral(c as int),
        Expr::Sym(s) => s,
        Expr::Not(x) => seq!['('] + seq!['!'] + seq![' '] + text(*x) + seq![')'],
        Expr::Bin(op, x, y) => seq!['('] + spelling(op) + seq![' '] + text(*x) + seq![' '] + text(
            *y,
        ) + seq![')'],
    }
}

/// An expression is written as the s-expression that stands for it.
pub proof fn lemma_text_is_rendered(e: Expr)
    ensures
        text(e) == render(sexp(e)),
    decreases e,
{
    match e {
        Expr::Not(x) => {
            lemma_text_is_rendered(*x);
        },
        Expr::Bin(_, x, y) => {
            lemma_text_is_rendered(*x);
            lemma_text_is_rendered(*y);
        },
        _ => {},
    }
}

/// The names in the expression can be written so that they are read back:
/// variables are variable tokens, and symbols are operator tokens that denote no
/// number.
pub open spec fn is_writable(e: Expr) -> bool
    decreases e,
{
    match e {
        Expr::Var(v) => is_variable(v),
        Expr::Const(_) => true,
        Expr::Sym(s) => is_operator(s) && i64_value(s) is None,
        Expr::Not(x) => is_writable(*x),
        Expr::Bin(_, x, y) => is_writable(*x) && is_writable(*y),
    }
}

/// The expression that an s-expression stands for, if it stands for one.
pub open spec fn read_sexp(t: Sexp) -> Option<Expr>
    decreases t,
{
    match t {
        Sexp::Var(v) => Some(Expr::Var(v)),
        Sexp::Atom(a) => match i64_value(a) {
            Some(c) => Some(Expr::Const(c)),
            None => Some(Expr::Sym(a)),
        },
        Sexp::One(op, x) => match read_sexp(*x) {
            Some(x) => if op == seq!['!'] {
                Some(Expr::Not(Box::new(x)))
            } else {
                None
            },
            None => None,
        },
        Sexp::Two(op, x, y) => match (read_sexp(*x), read_sexp(*y), spelled(op)) {
            (Some(x), Some(y), Some(op)) => Some(Expr::Bin(op, Box::new(x), Box::new(y))),
            _ => None,
        },
    }
}

proof fn lemma_digits_are_graphic(s: Seq<char>)
    requires
        all_digits(s),
    ensures
        is_operator(s),
        is_operator(seq!['-'] + s),
{
    reveal(is_token);
    assert(is_digit(s[0]));
    let t = seq!['-'] + s;
    assert forall|i: int| 0 <= i < t.len() implies is_graphic(#[trigger] t[i]) by {
        if i > 0 {
            assert(t[i] == s[i - 1]);
        }
    }
}

/// What is written of a writable expression is plain and stands for it.
pub proof fn law_writable_reads_back(e: Expr)
    requires
        is_writable(e),
    ensures
        is_plain(sexp(e)),
        read_sexp(sexp(e)) == Some(e),
    decreases e,
{
    reveal(is_token);
    match e {
        Expr::Var(_) => {},
        Expr::Const(c) => {
            let n = if c < 0 {
                (-c) as nat
            } else {
                c as nat
            };
            lemma_digits(n);
            lemma_digits_are_graphic(digits(n));
            law_numeral_reads_back(c);
        },
        Expr::Sym(_) => {},
        Expr::Not(x) => {
            law_writable_reads_back(*x);
        },
        Expr::Bin(op, x, y) => {
            law_writable_reads_back(*x);
            law_writable_reads_back(*y);
            law_spelling_reads_back(op);
            let s = spelling(op);
            assert(is_token(s));
        },
    }
}

/// A node of a pattern: a variable, or a node of the language.
pub enum PatternShape {
    Var(Seq<char>),
    Node(Shape),
}

/// The expression that hangs below node `i`. Where an operand does not come
/// before its node the result is of no meaning.
pub open spec fn expr_at(nodes: Seq<PatternShape>, i: int) -> Expr
    decreases i,
{
    match nodes[i] {
        PatternShape::Var(v) => Expr::Var(v),
        PatternShape::Node(Shape::Constant(c)) => Expr::Const(c),
        PatternShape::Node(Shape::Symbol(s)) => Expr::Sym(s),
        PatternShape::Node(Shape::Not(a)) => if 0 <= a < i {
            Expr::Not(Box::new(expr_at(nodes, a)))
        } else {
            Expr::Const(0)
        },
        PatternShape::Node(Shape::Binary(op, a, b)) => if 0 <= a < i && 0 <= b < i {
            Expr::Bin(op, Box::new(expr_at(nodes, a)), Box::new(expr_at(nodes, b)))
        } else {
            Expr::Const(0)
        },
    }
}

/// `u` is `e` or occurs in it.
pub open spec fn is_part_of(u: Expr, e: Expr) -> bool
    decreases e,
{
    ||| u == e
    ||| match e {
        Expr::Var(_) => false,
        Expr::Const(_) => false,
        Expr::Sym(_) => false,
        Expr::Not(x) => is_part_of(u, *x),
        Expr::Bin(_, x, y) => is_part_of(u, *x) || is_part_of(u, *y),
    }
}

/// What occurs in what is written of an expression stands for a part of the
/// expression.
pub proof fn lemma_occurring_is_part(u: Sexp, e: Expr)
    requires
        is_writable(e),
        occurs_in(u, sexp(e)),
    ensures
        read_sexp(u) is Some,
        is_part_of(read_sexp(u)->0, e),
    decreases e,
{
    law_writable_reads_back(e);
    if u != sexp(e) {
        match e {
            Expr::Not(x) => {
                lemma_occurring_is_part(u, *x);
            },
            Expr::Bin(_, x, y) => {
                if occurs_in(u, sexp(*x)) {
                    lemma_occurring_is_part(u, *x);
                } else {
                    lemma_occurring_is_part(u, *y);
                }
            },
            _ => {},
        }
    }
}

/// Below every node hangs a part of the expression: there is no node that the
/// expression does not need.
pub open spec fn holds_parts_of(nodes: Seq<PatternShape>, e: Expr) -> bool {
    forall|i: int| 0 <= i < nodes.len() ==> is_part_of(#[trigger] expr_at(nodes, i), e)
}

} // verus!
