//! The rules of addition: what they are, how they are
//! written, and where they keep the value.
//!
//! The rules are opaque: `reveal` a rule to see its sides and its condition.

use vstd::prelude::*;

use crate::arith::{lemma_quot_rem, lemma_quot_rem_shift, quot, rem, same_side};
use crate::condition::{
    comparator_of, lemma_comparator_texts, sto_compare_c0_c1, Comparator, Guard,
};
use crate::expr::{is_writable, text};
use crate::rule::{
    e_add, e_div, e_mod, e_mul, guard_allows, is_closed, is_symbol_free, lemma_variables, mentions,
    na, nb, nc, num, nx, ny, preserves_value, rule, rule_if, va, vb, vc, vx, vy, Rule,
};
use crate::rules::{
    holds_rules, is_written, lemma_holds_rules, lemma_written_is_readable, sto_rw, sto_rw_cond,
    StoRw,
};
use crate::semantics::value;

verus! {

#[verifier::opaque]
pub open spec fn add_comm() -> Rule {
    rule("add-comm"@, e_add(va(), vb()), e_add(vb(), va()))
}

#[verifier::opaque]
pub open spec fn add_assoc() -> Rule {
    rule("add-assoc"@, e_add(va(), e_add(vb(), vc())), e_add(e_add(va(), vb()), vc()))
}

#[verifier::opaque]
pub open spec fn add_zero() -> Rule {
    rule("add-zero"@, e_add(va(), num(0)), va())
}

#[verifier::opaque]
pub open spec fn add_dist_mul() -> Rule {
    rule(
        "add-dist-mul"@,
        e_mul(va(), e_add(vb(), vc())),
        e_add(e_mul(va(), vb()), e_mul(va(), vc())),
    )
}

#[verifier::opaque]
pub open spec fn add_fact_mul() -> Rule {
    rule(
        "add-fact-mul"@,
        e_add(e_mul(va(), vb()), e_mul(va(), vc())),
        e_mul(va(), e_add(vb(), vc())),
    )
}

#[verifier::opaque]
pub open spec fn add_denom_mul() -> Rule {
    rule(
        "add-denom-mul"@,
        e_add(e_div(va(), vb()), vc()),
        e_div(e_add(va(), e_mul(vb(), vc())), vb()),
    )
}

#[verifier::opaque]
pub open spec fn add_denom_div() -> Rule {
    rule(
        "add-denom-div"@,
        e_div(e_add(va(), e_mul(vb(), vc())), vb()),
        e_add(e_div(va(), vb()), vc()),
    )
}

#[verifier::opaque]
pub open spec fn add_div_mod() -> Rule {
    rule(
        "add-div-mod"@,
        e_add(e_div(vx(), num(2)), e_mod(vx(), num(2))),
        e_div(e_add(vx(), num(1)), num(2)),
    )
}

#[verifier::opaque]
pub open spec fn add_const() -> Rule {
    rule_if(
        "add-const"@,
        e_add(e_mul(vx(), va()), e_mul(vy(), vb())),
        e_mul(e_add(e_mul(vx(), e_div(va(), vb())), vy()), vb()),
        Guard::Compare(na(), nb(), Some(Comparator::Multiple)),
    )
}

/// The rules of addition.
pub open spec fn add_rules() -> Seq<Rule> {
    seq![
        add_comm(),
        add_assoc(),
        add_zero(),
        add_dist_mul(),
        add_fact_mul(),
        add_denom_mul(),
        add_denom_div(),
        add_div_mod(),
        add_const(),
    ]
}

proof fn add_comm_is_written()
    ensures
        is_written(add_comm(), "add-comm"@, "(+ ?a ?b)"@, "(+ ?b ?a)"@, Guard::Always),
{
    reveal(add_comm);
    reveal(is_written);
    reveal_with_fuel(text, 5);
    reveal_with_fuel(is_writable, 5);
    lemma_variables();
    reveal_strlit("(+ ?a ?b)");
    reveal_strlit("(+ ?b ?a)");
}

proof fn add_assoc_is_written()
    ensures
        is_written(
            add_assoc(),
            "add-assoc"@,
            "(+ ?a (+ ?b ?c))"@,
            "(+ (+ ?a ?b) ?c)"@,
            Guard::Always,
        ),
{
    reveal(add_assoc);
    reveal(is_written);
    reveal_with_fuel(text, 5);
    reveal_with_fuel(is_writable, 5);
    lemma_variables();
    reveal_strlit("(+ ?a (+ ?b ?c))");
    reveal_strlit("(+ (+ ?a ?b) ?c)");
}

proof fn add_zero_is_written()
    ensures
        is_written(add_zero(), "add-zero"@, "(+ ?a 0)"@, "?a"@, Guard::Always),
{
    reveal(add_zero);
    reveal(is_written);
    reveal_with_fuel(text, 5);
    reveal_with_fuel(is_writable, 5);
    lemma_variables();
    reveal_strlit("(+ ?a 0)");
    reveal_strlit("?a");
}

proof fn add_dist_mul_is_written()
    ensures
        is_written(
            add_dist_mul(),
            "add-dist-mul"@,
            "(* ?a (+ ?b ?c))"@,
            "(+ (* ?a ?b) (* ?a ?c))"@,
            Guard::Always,
        ),
{
    reveal(add_dist_mul);
    reveal(is_written);
    reveal_with_fuel(text, 5);
    reveal_with_fuel(is_writable, 5);
    lemma_variables();
    reveal_strlit("(* ?a (+ ?b ?c))");
    reveal_strlit("(+ (* ?a ?b) (* ?a ?c))");
}

proof fn add_fact_mul_is_written()
    ensures
        is_written(
            add_fact_mul(),
            "add-fact-mul"@,
            "(+ (* ?a ?b) (* ?a ?c))"@,
            "(* ?a (+ ?b ?c))"@,
            Guard::Always,
        ),
{
    reveal(add_fact_mul);
    reveal(is_written);
    reveal_with_fuel(text, 5);
    reveal_with_fuel(is_writable, 5);
    lemma_variables();
    reveal_strlit("(+ (* ?a ?b) (* ?a ?c))");
    reveal_strlit("(* ?a (+ ?b ?c))");
}

proof fn add_denom_mul_is_written()
    ensures
        is_written(
            add_denom_mul(),
            "add-denom-mul"@,
            "(+ (/ ?a ?b) ?c)"@,
            "(/ (+ ?a (* ?b ?c)) ?b)"@,
            Guard::Always,
        ),
{
    reveal(add_denom_mul);
    reveal(is_written);
    reveal_with_fuel(text, 5);
    reveal_with_fuel(is_writable, 5);
    lemma_variables();
    reveal_strlit("(+ (/ ?a ?b) ?c)");
    reveal_strlit("(/ (+ ?a (* ?b ?c)) ?b)");
}

proof fn add_denom_div_is_written()
    ensures
        is_written(
            add_denom_div(),
            "add-denom-div"@,
            "(/ (+ ?a (* ?b ?c)) ?b)"@,
            "(+ (/ ?a ?b) ?c)"@,
            Guard::Always,
        ),
{
    reveal(add_denom_div);
    reveal(is_written);
    reveal_with_fuel(text, 5);
    reveal_with_fuel(is_writable, 5);
    lemma_variables();
    reveal_strlit("(/ (+ ?a (* ?b ?c)) ?b)");
    reveal_strlit("(+ (/ ?a ?b) ?c)");
}

proof fn add_div_mod_is_written()
    ensures
        is_written(
            add_div_mod(),
            "add-div-mod"@,
            "(+ (/ ?x 2) (% ?x 2))"@,
            "(/ (+ ?x 1) 2)"@,
            Guard::Always,
        ),
{
    reveal(add_div_mod);
    reveal(is_written);
    reveal_with_fuel(text, 5);
    reveal_with_fuel(is_writable, 5);
    lemma_variables();
    reveal_strlit("(+ (/ ?x 2) (% ?x 2))");
    reveal_strlit("(/ (+ ?x 1) 2)");
}

proof fn add_const_is_written()
    ensures
        is_written(
            add_const(),
            "add-const"@,
            "(+ (* ?x ?a) (* ?y ?b))"@,
            "(* (+ (* ?x (/ ?a ?b)) ?y) ?b)"@,
            Guard::Compare("?a"@, "?b"@, comparator_of("%0"@)),
        ),
{
    reveal(add_const);
    reveal(is_written);
    reveal_with_fuel(text, 5);
    reveal_with_fuel(is_writable, 5);
    lemma_variables();
    lemma_comparator_texts();
    reveal_strlit("(+ (* ?x ?a) (* ?y ?b))");
    reveal_strlit("(* (+ (* ?x (/ ?a ?b)) ?y) ?b)");
}

/// The rules of addition.
pub fn sto_add() -> (r: Vec<StoRw>)
    ensures
        holds_rules(r@, add_rules()),
{
    proof {
        add_comm_is_written();
        add_assoc_is_written();
        add_zero_is_written();
        add_dist_mul_is_written();
        add_fact_mul_is_written();
        add_denom_mul_is_written();
        add_denom_div_is_written();
        add_div_mod_is_written();
        add_const_is_written();
        lemma_written_is_readable();
    }
    let rules: Vec<StoRw> = vec![
        sto_rw("add-comm", "(+ ?a ?b)", "(+ ?b ?a)"),
        sto_rw("add-assoc", "(+ ?a (+ ?b ?c))", "(+ (+ ?a ?b) ?c)"),
        sto_rw("add-zero", "(+ ?a 0)", "?a"),
        sto_rw("add-dist-mul", "(* ?a (+ ?b ?c))", "(+ (* ?a ?b) (* ?a ?c))"),
        sto_rw("add-fact-mul", "(+ (* ?a ?b) (* ?a ?c))", "(* ?a (+ ?b ?c))"),
        sto_rw("add-denom-mul", "(+ (/ ?a ?b) ?c)", "(/ (+ ?a (* ?b ?c)) ?b)"),
        sto_rw("add-denom-div", "(/ (+ ?a (* ?b ?c)) ?b)", "(+ (/ ?a ?b) ?c)"),
        sto_rw("add-div-mod", "(+ (/ ?x 2) (% ?x 2))", "(/ (+ ?x 1) 2)"),
        sto_rw_cond(
            "add-const",
            "(+ (* ?x ?a) (* ?y ?b))",
            "(* (+ (* ?x (/ ?a ?b)) ?y) ?b)",
            sto_compare_c0_c1("?a", "?b", "%0"),
        ),
    ];
    proof {
        lemma_holds_rules(rules@, add_rules());
    }
    rules
}

/// The rules of addition speak of nothing but constants and the variables that a
/// match binds.
pub proof fn law_addition_is_closed(rule: Rule)
    requires
        add_rules().contains(rule),
    ensures
        is_closed(rule),
{
    assert(is_closed(add_comm())) by {
        reveal(add_comm);
        reveal_with_fuel(mentions, 5);
        reveal_with_fuel(is_symbol_free, 5);
    }
    assert(is_closed(add_assoc())) by {
        reveal(add_assoc);
        reveal_with_fuel(mentions, 5);
        reveal_with_fuel(is_symbol_free, 5);
    }
    assert(is_closed(add_zero())) by {
        reveal(add_zero);
        reveal_with_fuel(mentions, 5);
        reveal_with_fuel(is_symbol_free, 5);
    }
    assert(is_closed(add_dist_mul())) by {
        reveal(add_dist_mul);
        reveal_with_fuel(mentions, 5);
        reveal_with_fuel(is_symbol_free, 5);
    }
    assert(is_closed(add_fact_mul())) by {
        reveal(add_fact_mul);
        reveal_with_fuel(mentions, 5);
        reveal_with_fuel(is_symbol_free, 5);
    }
    assert(is_closed(add_denom_mul())) by {
        reveal(add_denom_mul);
        reveal_with_fuel(mentions, 5);
        reveal_with_fuel(is_symbol_free, 5);
    }
    assert(is_closed(add_denom_div())) by {
        reveal(add_denom_div);
        reveal_with_fuel(mentions, 5);
        reveal_with_fuel(is_symbol_free, 5);
    }
    assert(is_closed(add_div_mod())) by {
        reveal(add_div_mod);
        reveal_with_fuel(mentions, 5);
        reveal_with_fuel(is_symbol_free, 5);
    }
    assert(is_closed(add_const())) by {
        reveal(add_const);
        reveal_with_fuel(mentions, 5);
        reveal_with_fuel(is_symbol_free, 5);
    }
}

/// Where the rules of addition keep the value.
pub open spec fn addition_holds_at(rule: Rule, env: spec_fn(Seq<char>) -> int) -> bool {
    &&& rule == add_denom_mul() ==> add_denom_mul_holds_at(env)
    &&& rule == add_denom_div() ==> add_denom_div_holds_at(env)
    &&& rule == add_div_mod() ==> add_div_mod_holds_at(env)
}

/// `add-denom-mul` keeps the value without a remainder, or where the dividend does
/// not cross zero.
pub open spec fn add_denom_mul_holds_at(env: spec_fn(Seq<char>) -> int) -> bool {
    let a = env(na());
    let b = env(nb());
    let c = env(nc());
    rem(a, b) == 0 || same_side(a, a + b * c)
}

/// `add-denom-div` keeps the value without a remainder, or where the dividend does
/// not cross zero.
pub open spec fn add_denom_div_holds_at(env: spec_fn(Seq<char>) -> int) -> bool {
    let a = env(na());
    let b = env(nb());
    let c = env(nc());
    rem(a, b) == 0 || same_side(a, a + b * c)
}

/// `add-div-mod` keeps the value for a number that is not negative.
pub open spec fn add_div_mod_holds_at(env: spec_fn(Seq<char>) -> int) -> bool {
    let x = env(nx());
    x >= 0
}

proof fn add_comm_keeps_value(env: spec_fn(Seq<char>) -> int)
    ensures
        preserves_value(add_comm(), env),
{
    reveal(add_comm);
    reveal_with_fuel(value, 5);
}

proof fn add_assoc_keeps_value(env: spec_fn(Seq<char>) -> int)
    ensures
        preserves_value(add_assoc(), env),
{
    reveal(add_assoc);
    reveal_with_fuel(value, 5);
}

proof fn add_zero_keeps_value(env: spec_fn(Seq<char>) -> int)
    ensures
        preserves_value(add_zero(), env),
{
    reveal(add_zero);
    reveal_with_fuel(value, 5);
}

proof fn add_dist_mul_keeps_value(env: spec_fn(Seq<char>) -> int)
    ensures
        preserves_value(add_dist_mul(), env),
{
    reveal(add_dist_mul);
    reveal_with_fuel(value, 5);
    let a: int = env(na());
    let b: int = env(nb());
    let c: int = env(nc());
    assert(a * (b + c) == a * b + a * c) by (nonlinear_arith);
}

proof fn add_fact_mul_keeps_value(env: spec_fn(Seq<char>) -> int)
    ensures
        preserves_value(add_fact_mul(), env),
{
    reveal(add_fact_mul);
    reveal_with_fuel(value, 5);
    let a: int = env(na());
    let b: int = env(nb());
    let c: int = env(nc());
    assert(a * (b + c) == a * b + a * c) by (nonlinear_arith);
}

/// Where the left side of `add-denom-mul` has a value, the right side has that
/// value exactly where [`add_denom_mul_holds_at`] says.
pub proof fn law_add_denom_mul(env: spec_fn(Seq<char>) -> int)
    ensures
        value(add_denom_mul().lhs, env) is Some ==> (preserves_value(add_denom_mul(), env)
            <==> add_denom_mul_holds_at(env)),
{
    reveal(add_denom_mul);
    reveal_with_fuel(value, 5);
    let a: int = env(na());
    let b: int = env(nb());
    let c: int = env(nc());
    if b != 0 {
        assert(b * c == c * b) by (nonlinear_arith);
        lemma_quot_rem_shift(a, b, c);
    }
}

/// Where the left side of `add-denom-div` has a value, the right side has that
/// value exactly where [`add_denom_div_holds_at`] says.
pub proof fn law_add_denom_div(env: spec_fn(Seq<char>) -> int)
    ensures
        value(add_denom_div().lhs, env) is Some ==> (preserves_value(add_denom_div(), env)
            <==> add_denom_div_holds_at(env)),
{
    reveal(add_denom_div);
    reveal_with_fuel(value, 5);
    let a: int = env(na());
    let b: int = env(nb());
    let c: int = env(nc());
    if b != 0 {
        assert(b * c == c * b) by (nonlinear_arith);
        lemma_quot_rem_shift(a, b, c);
    }
}

/// Where the left side of `add-div-mod` has a value, the right side has that value
/// exactly where [`add_div_mod_holds_at`] says.
pub proof fn law_add_div_mod(env: spec_fn(Seq<char>) -> int)
    ensures
        value(add_div_mod().lhs, env) is Some ==> (preserves_value(add_div_mod(), env)
            <==> add_div_mod_holds_at(env)),
{
    reveal(add_div_mod);
    reveal_with_fuel(value, 5);
}

proof fn add_const_keeps_value(env: spec_fn(Seq<char>) -> int)
    requires
        guard_allows(add_const().guard, env),
    ensures
        preserves_value(add_const(), env),
{
    reveal(add_const);
    reveal_with_fuel(value, 5);
    let a: int = env(na());
    let b: int = env(nb());
    let x: int = env(nx());
    let y: int = env(ny());
    lemma_quot_rem(a, b);
    let q: int = quot(a, b);
    assert(x * a + y * b == (x * q + y) * b) by (nonlinear_arith)
        requires
            a == q * b,
    ;
}

/// The rules of addition keep the value where [`addition_holds_at`] says.
pub proof fn law_addition_keeps_values(rule: Rule, env: spec_fn(Seq<char>) -> int)
    requires
        add_rules().contains(rule),
        guard_allows(rule.guard, env),
        addition_holds_at(rule, env),
    ensures
        preserves_value(rule, env),
{
    if rule == add_comm() {
        add_comm_keeps_value(env);
    } else if rule == add_assoc() {
        add_assoc_keeps_value(env);
    } else if rule == add_zero() {
        add_zero_keeps_value(env);
    } else if rule == add_dist_mul() {
        add_dist_mul_keeps_value(env);
    } else if rule == add_fact_mul() {
        add_fact_mul_keeps_value(env);
    } else if rule == add_denom_mul() {
        law_add_denom_mul(env);
    } else if rule == add_denom_div() {
        law_add_denom_div(env);
    } else if rule == add_div_mod() {
        law_add_div_mod(env);
    } else if rule == add_const() {
        add_const_keeps_value(env);
    }
}

} // verus!
