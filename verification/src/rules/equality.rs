//! The rules of equality: what they are, how they are
//! written, and where they keep the value.
//!
//! The rules are opaque: `reveal` a rule to see its sides and its condition.

use vstd::prelude::*;

use crate::arith::lemma_quot_of_multiple;
use crate::condition::{
    comparator_of, lemma_comparator_texts, sto_compare_c0_c1, sto_is_const_neg, sto_is_const_pos,
    Comparator, Guard,
};
use crate::expr::{is_writable, text};
use crate::rule::{
    e_add, e_eq, e_le, e_max, e_min, e_mul, e_or, e_sub, guard_allows, is_closed, is_symbol_free,
    lemma_variables, mentions, na, nb, nc, num, nx, ny, preserves_value, rule, rule_if, va, vb, vc,
    vx, vy, vz, Rule,
};
use crate::rules::{
    holds_rules, is_written, lemma_holds_rules, lemma_written_is_readable, sto_rw, sto_rw_cond,
    StoRw,
};
use crate::semantics::value;

verus! {

#[verifier::opaque]
pub open spec fn eq_comm() -> Rule {
    rule("eq-comm"@, e_eq(vx(), vy()), e_eq(vy(), vx()))
}

#[verifier::opaque]
pub open spec fn eq_x_y_0() -> Rule {
    rule("eq-x-y-0"@, e_eq(vx(), vy()), e_eq(e_sub(vx(), vy()), num(0)))
}

#[verifier::opaque]
pub open spec fn eq_swap() -> Rule {
    rule("eq-swap"@, e_eq(e_add(vx(), vy()), vz()), e_eq(vx(), e_sub(vz(), vy())))
}

#[verifier::opaque]
pub open spec fn eq_x_x() -> Rule {
    rule("eq-x-x"@, e_eq(vx(), vx()), num(1))
}

#[verifier::opaque]
pub open spec fn eq_mul_x_y_0() -> Rule {
    rule(
        "eq-mul-x-y-0"@,
        e_eq(e_mul(vx(), vy()), num(0)),
        e_or(e_eq(vx(), num(0)), e_eq(vy(), num(0))),
    )
}

#[verifier::opaque]
pub open spec fn eq_max_lt() -> Rule {
    rule("eq-max-lt"@, e_eq(e_max(vx(), vy()), vy()), e_le(vx(), vy()))
}

#[verifier::opaque]
pub open spec fn eq_min_lt() -> Rule {
    rule("Eq-min-lt"@, e_eq(e_min(vx(), vy()), vy()), e_le(vy(), vx()))
}

#[verifier::opaque]
pub open spec fn eq_lt_min() -> Rule {
    rule("Eq-lt-min"@, e_le(vy(), vx()), e_eq(e_min(vx(), vy()), vy()))
}

#[verifier::opaque]
pub open spec fn eq_a_b() -> Rule {
    rule_if(
        "Eq-a-b"@,
        e_eq(e_mul(va(), vx()), vb()),
        num(0),
        Guard::Compare(nb(), na(), Some(Comparator::NotMultiple)),
    )
}

#[verifier::opaque]
pub open spec fn eq_max_c_pos() -> Rule {
    rule_if("Eq-max-c-pos"@, e_eq(e_max(vx(), vc()), num(0)), num(0), Guard::ConstPos(nc()))
}

#[verifier::opaque]
pub open spec fn eq_max_c_neg() -> Rule {
    rule_if(
        "Eq-max-c-neg"@,
        e_eq(e_max(vx(), vc()), num(0)),
        e_eq(vx(), num(0)),
        Guard::ConstNeg(nc()),
    )
}

#[verifier::opaque]
pub open spec fn eq_min_c_pos() -> Rule {
    rule_if("Eq-min-c-pos"@, e_eq(e_min(vx(), vc()), num(0)), num(0), Guard::ConstNeg(nc()))
}

#[verifier::opaque]
pub open spec fn eq_min_c_neg() -> Rule {
    rule_if(
        "Eq-min-c-neg"@,
        e_eq(e_min(vx(), vc()), num(0)),
        e_eq(vx(), num(0)),
        Guard::ConstPos(nc()),
    )
}

/// The rules of equality.
pub open spec fn eq_rules() -> Seq<Rule> {
    seq![
        eq_comm(),
        eq_x_y_0(),
        eq_swap(),
        eq_x_x(),
        eq_mul_x_y_0(),
        eq_max_lt(),
        eq_min_lt(),
        eq_lt_min(),
        eq_a_b(),
        eq_max_c_pos(),
        eq_max_c_neg(),
        eq_min_c_pos(),
        eq_min_c_neg(),
    ]
}

proof fn eq_comm_is_written()
    ensures
        is_written(eq_comm(), "eq-comm"@, "(== ?x ?y)"@, "(== ?y ?x)"@, Guard::Always),
{
    reveal(eq_comm);
    reveal(is_written);
    reveal_with_fuel(text, 5);
    reveal_with_fuel(is_writable, 5);
    lemma_variables();
    reveal_strlit("(== ?x ?y)");
    reveal_strlit("(== ?y ?x)");
}

proof fn eq_x_y_0_is_written()
    ensures
        is_written(eq_x_y_0(), "eq-x-y-0"@, "(== ?x ?y)"@, "(== (- ?x ?y) 0)"@, Guard::Always),
{
    reveal(eq_x_y_0);
    reveal(is_written);
    reveal_with_fuel(text, 5);
    reveal_with_fuel(is_writable, 5);
    lemma_variables();
    reveal_strlit("(== ?x ?y)");
    reveal_strlit("(== (- ?x ?y) 0)");
}

proof fn eq_swap_is_written()
    ensures
        is_written(
            eq_swap(),
            "eq-swap"@,
            "(== (+ ?x ?y) ?z)"@,
            "(== ?x (- ?z ?y))"@,
            Guard::Always,
        ),
{
    reveal(eq_swap);
    reveal(is_written);
    reveal_with_fuel(text, 5);
    reveal_with_fuel(is_writable, 5);
    lemma_variables();
    reveal_strlit("(== (+ ?x ?y) ?z)");
    reveal_strlit("(== ?x (- ?z ?y))");
}

proof fn eq_x_x_is_written()
    ensures
        is_written(eq_x_x(), "eq-x-x"@, "(== ?x ?x)"@, "1"@, Guard::Always),
{
    reveal(eq_x_x);
    reveal(is_written);
    reveal_with_fuel(text, 5);
    reveal_with_fuel(is_writable, 5);
    lemma_variables();
    reveal_strlit("(== ?x ?x)");
    reveal_strlit("1");
}

proof fn eq_mul_x_y_0_is_written()
    ensures
        is_written(
            eq_mul_x_y_0(),
            "eq-mul-x-y-0"@,
            "(== (* ?x ?y) 0)"@,
            "(|| (== ?x 0) (== ?y 0))"@,
            Guard::Always,
        ),
{
    reveal(eq_mul_x_y_0);
    reveal(is_written);
    reveal_with_fuel(text, 5);
    reveal_with_fuel(is_writable, 5);
    lemma_variables();
    reveal_strlit("(== (* ?x ?y) 0)");
    reveal_strlit("(|| (== ?x 0) (== ?y 0))");
}

proof fn eq_max_lt_is_written()
    ensures
        is_written(eq_max_lt(), "eq-max-lt"@, "(== (max ?x ?y) ?y)"@, "(<= ?x ?y)"@, Guard::Always),
{
    reveal(eq_max_lt);
    reveal(is_written);
    reveal_with_fuel(text, 5);
    reveal_with_fuel(is_writable, 5);
    lemma_variables();
    reveal_strlit("(== (max ?x ?y) ?y)");
    reveal_strlit("(<= ?x ?y)");
}

proof fn eq_min_lt_is_written()
    ensures
        is_written(eq_min_lt(), "Eq-min-lt"@, "(== (min ?x ?y) ?y)"@, "(<= ?y ?x)"@, Guard::Always),
{
    reveal(eq_min_lt);
    reveal(is_written);
    reveal_with_fuel(text, 5);
    reveal_with_fuel(is_writable, 5);
    lemma_variables();
    reveal_strlit("(== (min ?x ?y) ?y)");
    reveal_strlit("(<= ?y ?x)");
}

proof fn eq_lt_min_is_written()
    ensures
        is_written(eq_lt_min(), "Eq-lt-min"@, "(<= ?y ?x)"@, "(== (min ?x ?y) ?y)"@, Guard::Always),
{
    reveal(eq_lt_min);
    reveal(is_written);
    reveal_with_fuel(text, 5);
    reveal_with_fuel(is_writable, 5);
    lemma_variables();
    reveal_strlit("(<= ?y ?x)");
    reveal_strlit("(== (min ?x ?y) ?y)");
}

proof fn eq_a_b_is_written()
    ensures
        is_written(
            eq_a_b(),
            "Eq-a-b"@,
            "(== (* ?a ?x) ?b)"@,
            "0"@,
            Guard::Compare("?b"@, "?a"@, comparator_of("!%0"@)),
        ),
{
    reveal(eq_a_b);
    reveal(is_written);
    reveal_with_fuel(text, 5);
    reveal_with_fuel(is_writable, 5);
    lemma_variables();
    lemma_comparator_texts();
    reveal_strlit("(== (* ?a ?x) ?b)");
    reveal_strlit("0");
}

proof fn eq_max_c_pos_is_written()
    ensures
        is_written(
            eq_max_c_pos(),
            "Eq-max-c-pos"@,
            "(== (max ?x ?c) 0)"@,
            "0"@,
            Guard::ConstPos("?c"@),
        ),
{
    reveal(eq_max_c_pos);
    reveal(is_written);
    reveal_with_fuel(text, 5);
    reveal_with_fuel(is_writable, 5);
    lemma_variables();
    reveal_strlit("(== (max ?x ?c) 0)");
    reveal_strlit("0");
}

proof fn eq_max_c_neg_is_written()
    ensures
        is_written(
            eq_max_c_neg(),
            "Eq-max-c-neg"@,
            "(== (max ?x ?c) 0)"@,
            "(== ?x 0)"@,
            Guard::ConstNeg("?c"@),
        ),
{
    reveal(eq_max_c_neg);
    reveal(is_written);
    reveal_with_fuel(text, 5);
    reveal_with_fuel(is_writable, 5);
    lemma_variables();
    reveal_strlit("(== (max ?x ?c) 0)");
    reveal_strlit("(== ?x 0)");
}

proof fn eq_min_c_pos_is_written()
    ensures
        is_written(
            eq_min_c_pos(),
            "Eq-min-c-pos"@,
            "(== (min ?x ?c) 0)"@,
            "0"@,
            Guard::ConstNeg("?c"@),
        ),
{
    reveal(eq_min_c_pos);
    reveal(is_written);
    reveal_with_fuel(text, 5);
    reveal_with_fuel(is_writable, 5);
    lemma_variables();
    reveal_strlit("(== (min ?x ?c) 0)");
    reveal_strlit("0");
}

proof fn eq_min_c_neg_is_written()
    ensures
        is_written(
            eq_min_c_neg(),
            "Eq-min-c-neg"@,
            "(== (min ?x ?c) 0)"@,
            "(== ?x 0)"@,
            Guard::ConstPos("?c"@),
        ),
{
    reveal(eq_min_c_neg);
    reveal(is_written);
    reveal_with_fuel(text, 5);
    reveal_with_fuel(is_writable, 5);
    lemma_variables();
    reveal_strlit("(== (min ?x ?c) 0)");
    reveal_strlit("(== ?x 0)");
}

/// The rules of equality.
pub fn sto_eq() -> (r: Vec<StoRw>)
    ensures
        holds_rules(r@, eq_rules()),
{
    proof {
        eq_comm_is_written();
        eq_x_y_0_is_written();
        eq_swap_is_written();
        eq_x_x_is_written();
        eq_mul_x_y_0_is_written();
        eq_max_lt_is_written();
        eq_min_lt_is_written();
        eq_lt_min_is_written();
        eq_a_b_is_written();
        eq_max_c_pos_is_written();
        eq_max_c_neg_is_written();
        eq_min_c_pos_is_written();
        eq_min_c_neg_is_written();
        lemma_written_is_readable();
    }
    let rules: Vec<StoRw> = vec![
        sto_rw("eq-comm", "(== ?x ?y)", "(== ?y ?x)"),
        sto_rw("eq-x-y-0", "(== ?x ?y)", "(== (- ?x ?y) 0)"),
        sto_rw("eq-swap", "(== (+ ?x ?y) ?z)", "(== ?x (- ?z ?y))"),
        sto_rw("eq-x-x", "(== ?x ?x)", "1"),
        sto_rw("eq-mul-x-y-0", "(== (* ?x ?y) 0)", "(|| (== ?x 0) (== ?y 0))"),
        sto_rw("eq-max-lt", "(== (max ?x ?y) ?y)", "(<= ?x ?y)"),
        sto_rw("Eq-min-lt", "(== (min ?x ?y) ?y)", "(<= ?y ?x)"),
        sto_rw("Eq-lt-min", "(<= ?y ?x)", "(== (min ?x ?y) ?y)"),
        sto_rw_cond("Eq-a-b", "(== (* ?a ?x) ?b)", "0", sto_compare_c0_c1("?b", "?a", "!%0")),
        sto_rw_cond("Eq-max-c-pos", "(== (max ?x ?c) 0)", "0", sto_is_const_pos("?c")),
        sto_rw_cond("Eq-max-c-neg", "(== (max ?x ?c) 0)", "(== ?x 0)", sto_is_const_neg("?c")),
        sto_rw_cond("Eq-min-c-pos", "(== (min ?x ?c) 0)", "0", sto_is_const_neg("?c")),
        sto_rw_cond("Eq-min-c-neg", "(== (min ?x ?c) 0)", "(== ?x 0)", sto_is_const_pos("?c")),
    ];
    proof {
        lemma_holds_rules(rules@, eq_rules());
    }
    rules
}

/// The rules of equality speak of nothing but constants and the variables that a
/// match binds.
pub proof fn law_equality_is_closed(rule: Rule)
    requires
        eq_rules().contains(rule),
    ensures
        is_closed(rule),
{
    assert(is_closed(eq_comm())) by {
        reveal(eq_comm);
        reveal_with_fuel(mentions, 5);
        reveal_with_fuel(is_symbol_free, 5);
    }
    assert(is_closed(eq_x_y_0())) by {
        reveal(eq_x_y_0);
        reveal_with_fuel(mentions, 5);
        reveal_with_fuel(is_symbol_free, 5);
    }
    assert(is_closed(eq_swap())) by {
        reveal(eq_swap);
        reveal_with_fuel(mentions, 5);
        reveal_with_fuel(is_symbol_free, 5);
    }
    assert(is_closed(eq_x_x())) by {
        reveal(eq_x_x);
        reveal_with_fuel(mentions, 5);
        reveal_with_fuel(is_symbol_free, 5);
    }
    assert(is_closed(eq_mul_x_y_0())) by {
        reveal(eq_mul_x_y_0);
        reveal_with_fuel(mentions, 5);
        reveal_with_fuel(is_symbol_free, 5);
    }
    assert(is_closed(eq_max_lt())) by {
        reveal(eq_max_lt);
        reveal_with_fuel(mentions, 5);
        reveal_with_fuel(is_symbol_free, 5);
    }
    assert(is_closed(eq_min_lt())) by {
        reveal(eq_min_lt);
        reveal_with_fuel(mentions, 5);
        reveal_with_fuel(is_symbol_free, 5);
    }
    assert(is_closed(eq_lt_min())) by {
        reveal(eq_lt_min);
        reveal_with_fuel(mentions, 5);
        reveal_with_fuel(is_symbol_free, 5);
    }
    assert(is_closed(eq_a_b())) by {
        reveal(eq_a_b);
        reveal_with_fuel(mentions, 5);
        reveal_with_fuel(is_symbol_free, 5);
    }
    assert(is_closed(eq_max_c_pos())) by {
        reveal(eq_max_c_pos);
        reveal_with_fuel(mentions, 5);
        reveal_with_fuel(is_symbol_free, 5);
    }
    assert(is_closed(eq_max_c_neg())) by {
        reveal(eq_max_c_neg);
        reveal_with_fuel(mentions, 5);
        reveal_with_fuel(is_symbol_free, 5);
    }
    assert(is_closed(eq_min_c_pos())) by {
        reveal(eq_min_c_pos);
        reveal_with_fuel(mentions, 5);
        reveal_with_fuel(is_symbol_free, 5);
    }
    assert(is_closed(eq_min_c_neg())) by {
        reveal(eq_min_c_neg);
        reveal_with_fuel(mentions, 5);
        reveal_with_fuel(is_symbol_free, 5);
    }
}

proof fn eq_comm_keeps_value(env: spec_fn(Seq<char>) -> int)
    ensures
        preserves_value(eq_comm(), env),
{
    reveal(eq_comm);
    reveal_with_fuel(value, 5);
}

proof fn eq_x_y_0_keeps_value(env: spec_fn(Seq<char>) -> int)
    ensures
        preserves_value(eq_x_y_0(), env),
{
    reveal(eq_x_y_0);
    reveal_with_fuel(value, 5);
}

proof fn eq_swap_keeps_value(env: spec_fn(Seq<char>) -> int)
    ensures
        preserves_value(eq_swap(), env),
{
    reveal(eq_swap);
    reveal_with_fuel(value, 5);
}

proof fn eq_x_x_keeps_value(env: spec_fn(Seq<char>) -> int)
    ensures
        preserves_value(eq_x_x(), env),
{
    reveal(eq_x_x);
    reveal_with_fuel(value, 5);
}

proof fn eq_mul_x_y_0_keeps_value(env: spec_fn(Seq<char>) -> int)
    ensures
        preserves_value(eq_mul_x_y_0(), env),
{
    reveal(eq_mul_x_y_0);
    reveal_with_fuel(value, 5);
    let x: int = env(nx());
    let y: int = env(ny());
    assert((x * y == 0) == (x == 0 || y == 0)) by (nonlinear_arith);
}

proof fn eq_max_lt_keeps_value(env: spec_fn(Seq<char>) -> int)
    ensures
        preserves_value(eq_max_lt(), env),
{
    reveal(eq_max_lt);
    reveal_with_fuel(value, 5);
}

proof fn eq_min_lt_keeps_value(env: spec_fn(Seq<char>) -> int)
    ensures
        preserves_value(eq_min_lt(), env),
{
    reveal(eq_min_lt);
    reveal_with_fuel(value, 5);
}

proof fn eq_lt_min_keeps_value(env: spec_fn(Seq<char>) -> int)
    ensures
        preserves_value(eq_lt_min(), env),
{
    reveal(eq_lt_min);
    reveal_with_fuel(value, 5);
}

proof fn eq_a_b_keeps_value(env: spec_fn(Seq<char>) -> int)
    requires
        guard_allows(eq_a_b().guard, env),
    ensures
        preserves_value(eq_a_b(), env),
{
    reveal(eq_a_b);
    reveal_with_fuel(value, 5);
    let a: int = env(na());
    let b: int = env(nb());
    let x: int = env(nx());
    if a * x == b {
        assert(a * x == x * a) by (nonlinear_arith);
        lemma_quot_of_multiple(x, a);
    }
}

proof fn eq_max_c_pos_keeps_value(env: spec_fn(Seq<char>) -> int)
    requires
        guard_allows(eq_max_c_pos().guard, env),
    ensures
        preserves_value(eq_max_c_pos(), env),
{
    reveal(eq_max_c_pos);
    reveal_with_fuel(value, 5);
}

proof fn eq_max_c_neg_keeps_value(env: spec_fn(Seq<char>) -> int)
    requires
        guard_allows(eq_max_c_neg().guard, env),
    ensures
        preserves_value(eq_max_c_neg(), env),
{
    reveal(eq_max_c_neg);
    reveal_with_fuel(value, 5);
}

proof fn eq_min_c_pos_keeps_value(env: spec_fn(Seq<char>) -> int)
    requires
        guard_allows(eq_min_c_pos().guard, env),
    ensures
        preserves_value(eq_min_c_pos(), env),
{
    reveal(eq_min_c_pos);
    reveal_with_fuel(value, 5);
}

proof fn eq_min_c_neg_keeps_value(env: spec_fn(Seq<char>) -> int)
    requires
        guard_allows(eq_min_c_neg().guard, env),
    ensures
        preserves_value(eq_min_c_neg(), env),
{
    reveal(eq_min_c_neg);
    reveal_with_fuel(value, 5);
}

/// The rules of equality keep the value.
pub proof fn law_equality_keeps_values(rule: Rule, env: spec_fn(Seq<char>) -> int)
    requires
        eq_rules().contains(rule),
        guard_allows(rule.guard, env),
    ensures
        preserves_value(rule, env),
{
    if rule == eq_comm() {
        eq_comm_keeps_value(env);
    } else if rule == eq_x_y_0() {
        eq_x_y_0_keeps_value(env);
    } else if rule == eq_swap() {
        eq_swap_keeps_value(env);
    } else if rule == eq_x_x() {
        eq_x_x_keeps_value(env);
    } else if rule == eq_mul_x_y_0() {
        eq_mul_x_y_0_keeps_value(env);
    } else if rule == eq_max_lt() {
        eq_max_lt_keeps_value(env);
    } else if rule == eq_min_lt() {
        eq_min_lt_keeps_value(env);
    } else if rule == eq_lt_min() {
        eq_lt_min_keeps_value(env);
    } else if rule == eq_a_b() {
        eq_a_b_keeps_value(env);
    } else if rule == eq_max_c_pos() {
        eq_max_c_pos_keeps_value(env);
    } else if rule == eq_max_c_neg() {
        eq_max_c_neg_keeps_value(env);
    } else if rule == eq_min_c_pos() {
        eq_min_c_pos_keeps_value(env);
    } else if rule == eq_min_c_neg() {
        eq_min_c_neg_keeps_value(env);
    }
}

} // verus!
