//! Rewrite rules as pairs of expressions with a condition, and what makes a rule
//! right.

use vstd::prelude::*;

use crate::condition::{comparator_holds, Guard};
use crate::expr::Expr;
use crate::math::Op;
use crate::semantics::value;
use crate::sexp::{is_token, is_variable};

verus! {

/// A rewrite rule: what matches the left side and meets the condition may be
/// replaced by the right side.
pub struct Rule {
    pub name: Seq<char>,
    pub lhs: Expr,
    pub rhs: Expr,
    pub guard: Guard,
}

/// A rule without a condition.
pub open spec fn rule(name: Seq<char>, lhs: Expr, rhs: Expr) -> Rule {
    Rule { name, lhs, rhs, guard: Guard::Always }
}

/// A rule with a condition.
pub open spec fn rule_if(name: Seq<char>, lhs: Expr, rhs: Expr, guard: Guard) -> Rule {
    Rule { name, lhs, rhs, guard }
}

/// The variable occurs in the expression.
pub open spec fn mentions(e: Expr, var: Seq<char>) -> bool
    decreases e,
{
    match e {
        Expr::Var(v) => v == var,
        Expr::Const(_) => false,
        Expr::Sym(_) => false,
        Expr::Not(x) => mentions(*x, var),
        Expr::Bin(_, x, y) => mentions(*x, var) || mentions(*y, var),
    }
}

/// The variable occurs in the condition.
pub open spec fn guard_mentions(guard: Guard, var: Seq<char>) -> bool {
    match guard {
        Guard::Always => false,
        Guard::ConstPos(v) => v == var,
        Guard::ConstNeg(v) => v == var,
        Guard::NotZero(v) => v == var,
        Guard::Compare(v, v1, _) => v == var || v1 == var,
    }
}

/// A match of the left side binds every variable of the right side and of the
/// condition.
pub open spec fn is_bound(rule: Rule) -> bool {
    &&& forall|var: Seq<char>| #[trigger] mentions(rule.rhs, var) ==> mentions(rule.lhs, var)
    &&& forall|var: Seq<char>| #[trigger]
        guard_mentions(rule.guard, var) ==> mentions(rule.lhs, var)
}

/// No symbol occurs in the expression.
pub open spec fn is_symbol_free(e: Expr) -> bool
    decreases e,
{
    match e {
        Expr::Var(_) => true,
        Expr::Const(_) => true,
        Expr::Sym(_) => false,
        Expr::Not(x) => is_symbol_free(*x),
        Expr::Bin(_, x, y) => is_symbol_free(*x) && is_symbol_free(*y),
    }
}

/// The rule speaks of nothing but constants and the variables that a match of its
/// left side binds.
pub open spec fn is_closed(rule: Rule) -> bool {
    is_bound(rule) && is_symbol_free(rule.lhs) && is_symbol_free(rule.rhs)
}

/// What a condition that holds tells of the values of the variables. That a
/// variable is not bound to the constant zero tells nothing: it may still have
/// that value.
pub open spec fn guard_allows(guard: Guard, env: spec_fn(Seq<char>) -> int) -> bool {
    match guard {
        Guard::Always => true,
        Guard::ConstPos(v) => env(v) > 0,
        Guard::ConstNeg(v) => env(v) < 0,
        Guard::NotZero(_) => true,
        Guard::Compare(v, v1, k) => match k {
            Some(k) => comparator_holds(k, env(v), env(v1)),
            None => false,
        },
    }
}

/// Where the left side has a value, the right side has that value.
pub open spec fn preserves_value(rule: Rule, env: spec_fn(Seq<char>) -> int) -> bool {
    value(rule.lhs, env) is Some ==> value(rule.rhs, env) == value(rule.lhs, env)
}

pub open spec fn na() -> Seq<char> {
    seq!['?', 'a']
}

pub open spec fn nb() -> Seq<char> {
    seq!['?', 'b']
}

pub open spec fn nc() -> Seq<char> {
    seq!['?', 'c']
}

pub open spec fn nx() -> Seq<char> {
    seq!['?', 'x']
}

pub open spec fn ny() -> Seq<char> {
    seq!['?', 'y']
}

pub open spec fn nz() -> Seq<char> {
    seq!['?', 'z']
}

pub open spec fn nc0() -> Seq<char> {
    seq!['?', 'c', '0']
}

pub open spec fn nc1() -> Seq<char> {
    seq!['?', 'c', '1']
}

pub open spec fn va() -> Expr {
    Expr::Var(na())
}

pub open spec fn vb() -> Expr {
    Expr::Var(nb())
}

pub open spec fn vc() -> Expr {
    Expr::Var(nc())
}

pub open spec fn vx() -> Expr {
    Expr::Var(nx())
}

pub open spec fn vy() -> Expr {
    Expr::Var(ny())
}

pub open spec fn vz() -> Expr {
    Expr::Var(nz())
}

pub open spec fn vc0() -> Expr {
    Expr::Var(nc0())
}

pub open spec fn vc1() -> Expr {
    Expr::Var(nc1())
}

pub open spec fn num(c: int) -> Expr {
    Expr::Const(c as i64)
}

pub open spec fn e_not(x: Expr) -> Expr {
    Expr::Not(Box::new(x))
}

pub open spec fn e_add(x: Expr, y: Expr) -> Expr {
    Expr::Bin(Op::Add, Box::new(x), Box::new(y))
}

pub open spec fn e_sub(x: Expr, y: Expr) -> Expr {
    Expr::Bin(Op::Sub, Box::new(x), Box::new(y))
}

pub open spec fn e_mul(x: Expr, y: Expr) -> Expr {
    Expr::Bin(Op::Mul, Box::new(x), Box::new(y))
}

pub open spec fn e_div(x: Expr, y: Expr) -> Expr {
    Expr::Bin(Op::Div, Box::new(x), Box::new(y))
}

pub open spec fn e_mod(x: Expr, y: Expr) -> Expr {
    Expr::Bin(Op::Mod, Box::new(x), Box::new(y))
}

pub open spec fn e_max(x: Expr, y: Expr) -> Expr {
    Expr::Bin(Op::Max, Box::new(x), Box::new(y))
}

pub open spec fn e_min(x: Expr, y: Expr) -> Expr {
    Expr::Bin(Op::Min, Box::new(x), Box::new(y))
}

pub open spec fn e_lt(x: Expr, y: Expr) -> Expr {
    Expr::Bin(Op::Lt, Box::new(x), Box::new(y))
}

pub open spec fn e_gt(x: Expr, y: Expr) -> Expr {
    Expr::Bin(Op::Gt, Box::new(x), Box::new(y))
}

pub open spec fn e_le(x: Expr, y: Expr) -> Expr {
    Expr::Bin(Op::Let, Box::new(x), Box::new(y))
}

pub open spec fn e_ge(x: Expr, y: Expr) -> Expr {
    Expr::Bin(Op::Get, Box::new(x), Box::new(y))
}

pub open spec fn e_eq(x: Expr, y: Expr) -> Expr {
    Expr::Bin(Op::Eq, Box::new(x), Box::new(y))
}

pub open spec fn e_ne(x: Expr, y: Expr) -> Expr {
    Expr::Bin(Op::IEq, Box::new(x), Box::new(y))
}

pub open spec fn e_and(x: Expr, y: Expr) -> Expr {
    Expr::Bin(Op::And, Box::new(x), Box::new(y))
}

pub open spec fn e_or(x: Expr, y: Expr) -> Expr {
    Expr::Bin(Op::Or, Box::new(x), Box::new(y))
}

/// The variables of the rules are variables, and how they are written.
pub proof fn lemma_variables()
    ensures
        is_variable(na()),
        na() == "?a"@,
        is_variable(nb()),
        nb() == "?b"@,
        is_variable(nc()),
        nc() == "?c"@,
        is_variable(nx()),
        nx() == "?x"@,
        is_variable(ny()),
        ny() == "?y"@,
        is_variable(nz()),
        nz() == "?z"@,
        is_variable(nc0()),
        nc0() == "?c0"@,
        is_variable(nc1()),
        nc1() == "?c1"@,
{
    reveal(is_token);
    reveal_strlit("?a");
    assert(na() =~= "?a"@);
    reveal_strlit("?b");
    assert(nb() =~= "?b"@);
    reveal_strlit("?c");
    assert(nc() =~= "?c"@);
    reveal_strlit("?x");
    assert(nx() =~= "?x"@);
    reveal_strlit("?y");
    assert(ny() =~= "?y"@);
    reveal_strlit("?z");
    assert(nz() =~= "?z"@);
    reveal_strlit("?c0");
    assert(nc0() =~= "?c0"@);
    reveal_strlit("?c1");
    assert(nc1() =~= "?c1"@);
}

} // verus!
