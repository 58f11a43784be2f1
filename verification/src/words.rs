//! What rules do to 64-bit words that wrap around.

use vstd::arithmetic::div_mod::{lemma_fundamental_div_mod, lemma_mod_multiples_vanish};
use vstd::prelude::*;

use crate::arith::{lemma_quot_rem, lemma_wrap, quot, wrap};
use crate::expr::Expr;
use crate::math::Op;
use crate::rule::{guard_allows, na, nb, nx, ny, nz, Rule};
use crate::rules::addition::add_const;
use crate::rules::all_rules;
use crate::rules::equality::{eq_swap, eq_x_y_0};
use crate::rules::multiplication::mul_max_min;
use crate::semantics::{
    all_known, as_ints, law_in_range_values_agree, stays_in_range, value, value64,
};
use crate::soundness::{keeps_value_at, law_rules_keep_values};

verus! {

/// How many numbers a 64-bit word counts before it wraps around.
pub open spec fn span() -> int {
    0x1_0000_0000_0000_0000
}

/// Numbers that differ by turns around the word wrap to the same word.
pub proof fn lemma_wrap_turns(x: int, k: int)
    ensures
        wrap(x + span() * k) == wrap(x),
{
    lemma_mod_multiples_vanish(k, x, span());
}

/// A number and its word differ by turns around the word.
pub proof fn lemma_wrap_distance(x: int) -> (k: int)
    ensures
        wrap(x) == x + span() * k,
{
    lemma_fundamental_div_mod(x, span());
    if x % span() > i64::MAX {
        let k = -(x / span()) - 1;
        assert(span() * k == -(span() * (x / span())) - span()) by (nonlinear_arith)
            requires
                k == -(x / span()) - 1,
        ;
        k
    } else {
        let k = -(x / span());
        assert(span() * k == -(span() * (x / span()))) by (nonlinear_arith)
            requires
                k == -(x / span()),
        ;
        k
    }
}

/// Sums, differences and products may be wrapped before or after.
pub proof fn lemma_wrap_inside(x: int, y: int)
    ensures
        wrap(wrap(x) + wrap(y)) == wrap(x + y),
        wrap(wrap(x) - wrap(y)) == wrap(x - y),
        wrap(wrap(x) * wrap(y)) == wrap(x * y),
{
    let k = lemma_wrap_distance(x);
    let m = lemma_wrap_distance(y);
    assert(wrap(x) + wrap(y) == x + y + span() * (k + m)) by (nonlinear_arith)
        requires
            wrap(x) == x + span() * k,
            wrap(y) == y + span() * m,
    ;
    lemma_wrap_turns(x + y, k + m);
    assert(wrap(x) - wrap(y) == x - y + span() * (k - m)) by (nonlinear_arith)
        requires
            wrap(x) == x + span() * k,
            wrap(y) == y + span() * m,
    ;
    lemma_wrap_turns(x - y, k - m);
    let t = x * m + k * y + span() * (k * m);
    assert(wrap(x) * wrap(y) == x * y + span() * t) by (nonlinear_arith)
        requires
            wrap(x) == x + span() * k,
            wrap(y) == y + span() * m,
            t == x * m + k * y + span() * (k * m),
    ;
    lemma_wrap_turns(x * y, t);
}

/// The expression adds, subtracts and multiplies, and does nothing else.
pub open spec fn is_polynomial(e: Expr) -> bool
    decreases e,
{
    match e {
        Expr::Var(_) => true,
        Expr::Const(_) => true,
        Expr::Sym(_) => true,
        Expr::Not(_) => false,
        Expr::Bin(op, x, y) => (op == Op::Add || op == Op::Sub || op == Op::Mul) && is_polynomial(
            *x,
        ) && is_polynomial(*y),
    }
}

/// A polynomial of words is the word of its value on the integers.
pub proof fn law_polynomials_wrap_once(e: Expr, env: spec_fn(Seq<char>) -> i64)
    requires
        is_polynomial(e),
    ensures
        value(e, as_ints(env)) is Some,
        value64(e, all_known(env)) == Some(wrap(value(e, as_ints(env))->0)),
    decreases e,
{
    match e {
        Expr::Var(v) => {
            lemma_wrap(env(v) as int);
        },
        Expr::Const(c) => {
            lemma_wrap(c as int);
        },
        Expr::Sym(s) => {
            lemma_wrap(env(s) as int);
        },
        Expr::Not(_) => {},
        Expr::Bin(_, x, y) => {
            law_polynomials_wrap_once(*x, env);
            law_polynomials_wrap_once(*y, env);
            lemma_wrap_inside(value(*x, as_ints(env))->0, value(*y, as_ints(env))->0);
        },
    }
}

/// In 64-bit words the two sides of a rule have the same value where neither side
/// leaves the range and [`keeps_value_at`] says so.
pub proof fn law_rules_keep_words(rule: Rule, env: spec_fn(Seq<char>) -> i64)
    requires
        all_rules().contains(rule),
        guard_allows(rule.guard, as_ints(env)),
        keeps_value_at(rule, as_ints(env)),
        stays_in_range(rule.lhs, as_ints(env)),
        stays_in_range(rule.rhs, as_ints(env)),
    ensures
        value64(rule.lhs, all_known(env)) is Some ==> value64(rule.rhs, all_known(env)) == value64(
            rule.lhs,
            all_known(env),
        ),
{
    law_rules_keep_values(rule, as_ints(env));
    law_in_range_values_agree(rule.lhs, env);
    law_in_range_values_agree(rule.rhs, env);
}

/// A rule between polynomials keeps every word where [`keeps_value_at`] says, whether or
/// not it wraps around.
pub proof fn law_polynomial_rules_keep_words(rule: Rule, env: spec_fn(Seq<char>) -> i64)
    requires
        all_rules().contains(rule),
        is_polynomial(rule.lhs),
        is_polynomial(rule.rhs),
        guard_allows(rule.guard, as_ints(env)),
        keeps_value_at(rule, as_ints(env)),
    ensures
        value64(rule.rhs, all_known(env)) == value64(rule.lhs, all_known(env)),
{
    law_rules_keep_values(rule, as_ints(env));
    law_polynomials_wrap_once(rule.lhs, env);
    law_polynomials_wrap_once(rule.rhs, env);
}

/// `eq-x-y-0` and `eq-swap` keep every word: an equation may be rearranged although
/// the words wrap around.
pub proof fn law_equations_keep_words(env: spec_fn(Seq<char>) -> i64)
    ensures
        value64(eq_x_y_0().rhs, all_known(env)) == value64(eq_x_y_0().lhs, all_known(env)),
        value64(eq_swap().rhs, all_known(env)) == value64(eq_swap().lhs, all_known(env)),
{
    let x = env(nx());
    let y = env(ny());
    let z = env(nz());
    lemma_wrap(0);
    lemma_wrap(1);
    assert((wrap(x - y) == 0) == (x == y)) by {
        let k = lemma_wrap_distance(x - y);
    }
    assert((wrap(x + y) == z) == (x == wrap(z - y))) by {
        let k = lemma_wrap_distance(x + y);
        let m = lemma_wrap_distance(z - y);
    }
    assert(value64(eq_x_y_0().rhs, all_known(env)) == value64(eq_x_y_0().lhs, all_known(env))) by {
        reveal(eq_x_y_0);
        reveal_with_fuel(value64, 3);
    }
    assert(value64(eq_swap().rhs, all_known(env)) == value64(eq_swap().lhs, all_known(env))) by {
        reveal(eq_swap);
        reveal_with_fuel(value64, 3);
    }
}

/// `mul-max-min` keeps every word.
pub proof fn law_mul_max_min_keeps_words(env: spec_fn(Seq<char>) -> i64)
    ensures
        value64(mul_max_min().rhs, all_known(env)) == value64(mul_max_min().lhs, all_known(env)),
{
    let a = env(na());
    let b = env(nb());
    lemma_wrap(a as int);
    lemma_wrap(b as int);
    assert(a * b == b * a) by (nonlinear_arith);
    reveal(mul_max_min);
    reveal_with_fuel(value64, 3);
}

/// `add-const` keeps every word.
pub proof fn law_add_const_keeps_words(env: spec_fn(Seq<char>) -> i64)
    requires
        guard_allows(add_const().guard, as_ints(env)),
    ensures
        value64(add_const().rhs, all_known(env)) == value64(add_const().lhs, all_known(env)),
{
    reveal(add_const);
    let a = env(na()) as int;
    let b = env(nb()) as int;
    let x = env(nx()) as int;
    let y = env(ny()) as int;
    let q = quot(a, b);
    lemma_quot_rem(a, b);
    assert(x * a + y * b == (x * q + y) * b) by (nonlinear_arith)
        requires
            a == q * b,
    ;
    lemma_wrap(x);
    lemma_wrap(y);
    lemma_wrap(b);
    lemma_wrap_inside(x * a, y * b);
    lemma_wrap_inside(x, q);
    lemma_wrap_inside(x * q, y);
    lemma_wrap_inside(x * q + y, b);
    reveal_with_fuel(value64, 5);
}

} // verus!
