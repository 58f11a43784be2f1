//! The rules of multiplication: what they are, how they are
//! written, and where they keep the value.
//!
//! The rules are opaque: `reveal` a rule to see its sides and its condition.

use vstd::prelude::*;

use crate::arith::{lemma_quot_of_multiple, lemma_quot_rem};
use crate::condition::Guard;
use crate::expr::{is_writable, text};
use crate::rule::{
    e_div, e_max, e_min, e_mod, e_mul, e_sub, guard_allows, is_closed, is_symbol_free,
    lemma_variables, mentions, na, nb, nc, num, nx, ny, preserves_value, rule, va, vb, vc, vx, vy,
    Rule,
};
use crate::rules::{
    holds_rules, is_written, lemma_holds_rules, lemma_written_is_readable, sto_rw, StoRw,
};
use crate::semantics::value;

verus! {

#[verifier::opaque]
pub open spec fn mul_comm() -> Rule {
    rule("mul-comm"@, e_mul(va(), vb()), e_mul(vb(), va()))
}

#[verifier::opaque]
pub open spec fn mul_assoc() -> Rule {
    rule("mul-assoc"@, e_mul(va(), e_mul(vb(), vc())), e_mul(e_mul(va(), vb()), vc()))
}

#[verifier::opaque]
pub open spec fn mul_zero() -> Rule {
    rule("mul-zero"@, e_mul(va(), num(0)), num(0))
}

#[verifier::opaque]
pub open spec fn mul_one() -> Rule {
    rule("mul-one"@, e_mul(va(), num(1)), va())
}

#[verifier::opaque]
pub open spec fn mul_cancel_div() -> Rule {
    rule("mul-cancel-div"@, e_mul(e_div(va(), vb()), vb()), e_sub(va(), e_mod(va(), vb())))
}

#[verifier::opaque]
pub open spec fn mul_max_min() -> Rule {
    rule("mul-max-min"@, e_mul(e_max(va(), vb()), e_min(va(), vb())), e_mul(va(), vb()))
}

#[verifier::opaque]
pub open spec fn div_cancel_mul() -> Rule {
    rule("div-cancel-mul"@, e_div(e_mul(vy(), vx()), vx()), vy())
}

/// The rules of multiplication.
pub open spec fn mul_rules() -> Seq<Rule> {
    seq![
        mul_comm(),
        mul_assoc(),
        mul_zero(),
        mul_one(),
        mul_cancel_div(),
        mul_max_min(),
        div_cancel_mul(),
    ]
}

proof fn mul_comm_is_written()
    ensures
        is_written(mul_comm(), "mul-comm"@, "(* ?a ?b)"@, "(* ?b ?a)"@, Guard::Always),
{
    reveal(mul_comm);
    reveal(is_written);
    reveal_with_fuel(text, 5);
    reveal_with_fuel(is_writable, 5);
    lemma_variables();
    reveal_strlit("(* ?a ?b)");
    reveal_strlit("(* ?b ?a)");
}

proof fn mul_assoc_is_written()
    ensures
        is_written(
            mul_assoc(),
            "mul-assoc"@,
            "(* ?a (* ?b ?c))"@,
            "(* (* ?a ?b) ?c)"@,
            Guard::Always,
        ),
{
    reveal(mul_assoc);
    reveal(is_written);
    reveal_with_fuel(text, 5);
    reveal_with_fuel(is_writable, 5);
    lemma_variables();
    reveal_strlit("(* ?a (* ?b ?c))");
    reveal_strlit("(* (* ?a ?b) ?c)");
}

proof fn mul_zero_is_written()
    ensures
        is_written(mul_zero(), "mul-zero"@, "(* ?a 0)"@, "0"@, Guard::Always),
{
    reveal(mul_zero);
    reveal(is_written);
    reveal_with_fuel(text, 5);
    reveal_with_fuel(is_writable, 5);
    lemma_variables();
    reveal_strlit("(* ?a 0)");
    reveal_strlit("0");
}

proof fn mul_one_is_written()
    ensures
        is_written(mul_one(), "mul-one"@, "(* ?a 1)"@, "?a"@, Guard::Always),
{
    reveal(mul_one);
    reveal(is_written);
    reveal_with_fuel(text, 5);
    reveal_with_fuel(is_writable, 5);
    lemma_variables();
    reveal_strlit("(* ?a 1)");
    reveal_strlit("?a");
}

proof fn mul_cancel_div_is_written()
    ensures
        is_written(
            mul_cancel_div(),
            "mul-cancel-div"@,
            "(* (/ ?a ?b) ?b)"@,
            "(- ?a (% ?a ?b))"@,
            Guard::Always,
        ),
{
    reveal(mul_cancel_div);
    reveal(is_written);
    reveal_with_fuel(text, 5);
    reveal_with_fuel(is_writable, 5);
    lemma_variables();
    reveal_strlit("(* (/ ?a ?b) ?b)");
    reveal_strlit("(- ?a (% ?a ?b))");
}

proof fn mul_max_min_is_written()
    ensures
        is_written(
            mul_max_min(),
            "mul-max-min"@,
            "(* (max ?a ?b) (min ?a ?b))"@,
            "(* ?a ?b)"@,
            Guard::Always,
        ),
{
    reveal(mul_max_min);
    reveal(is_written);
    reveal_with_fuel(text, 5);
    reveal_with_fuel(is_writable, 5);
    lemma_variables();
    reveal_strlit("(* (max ?a ?b) (min ?a ?b))");
    reveal_strlit("(* ?a ?b)");
}

proof fn div_cancel_mul_is_written()
    ensures
        is_written(div_cancel_mul(), "div-cancel-mul"@, "(/ (* ?y ?x) ?x)"@, "?y"@, Guard::Always),
{
    reveal(div_cancel_mul);
    reveal(is_written);
    reveal_with_fuel(text, 5);
    reveal_with_fuel(is_writable, 5);
    lemma_variables();
    reveal_strlit("(/ (* ?y ?x) ?x)");
    reveal_strlit("?y");
}

/// The rules of multiplication.
pub fn sto_mul() -> (r: Vec<StoRw>)
    ensures
        holds_rules(r@, mul_rules()),
{
    proof {
        mul_comm_is_written();
        mul_assoc_is_written();
        mul_zero_is_written();
        mul_one_is_written();
        mul_cancel_div_is_written();
        mul_max_min_is_written();
        div_cancel_mul_is_written();
        lemma_written_is_readable();
    }
    let rules: Vec<StoRw> = vec![
        sto_rw("mul-comm", "(* ?a ?b)", "(* ?b ?a)"),
        sto_rw("mul-assoc", "(* ?a (* ?b ?c))", "(* (* ?a ?b) ?c)"),
        sto_rw("mul-zero", "(* ?a 0)", "0"),
        sto_rw("mul-one", "(* ?a 1)", "?a"),
        sto_rw("mul-cancel-div", "(* (/ ?a ?b) ?b)", "(- ?a (% ?a ?b))"),
        sto_rw("mul-max-min", "(* (max ?a ?b) (min ?a ?b))", "(* ?a ?b)"),
        sto_rw("div-cancel-mul", "(/ (* ?y ?x) ?x)", "?y"),
    ];
    proof {
        lemma_holds_rules(rules@, mul_rules());
    }
    rules
}

/// The rules of multiplication speak of nothing but constants and the variables
/// that a match binds.
pub proof fn law_multiplication_is_closed(rule: Rule)
    requires
        mul_rules().contains(rule),
    ensures
        is_closed(rule),
{
    assert(is_closed(mul_comm())) by {
        reveal(mul_comm);
        reveal_with_fuel(mentions, 5);
        reveal_with_fuel(is_symbol_free, 5);
    }
    assert(is_closed(mul_assoc())) by {
        reveal(mul_assoc);
        reveal_with_fuel(mentions, 5);
        reveal_with_fuel(is_symbol_free, 5);
    }
    assert(is_closed(mul_zero())) by {
        reveal(mul_zero);
        reveal_with_fuel(mentions, 5);
        reveal_with_fuel(is_symbol_free, 5);
    }
    assert(is_closed(mul_one())) by {
        reveal(mul_one);
        reveal_with_fuel(mentions, 5);
        reveal_with_fuel(is_symbol_free, 5);
    }
    assert(is_closed(mul_cancel_div())) by {
        reveal(mul_cancel_div);
        reveal_with_fuel(mentions, 5);
        reveal_with_fuel(is_symbol_free, 5);
    }
    assert(is_closed(mul_max_min())) by {
        reveal(mul_max_min);
        reveal_with_fuel(mentions, 5);
        reveal_with_fuel(is_symbol_free, 5);
    }
    assert(is_closed(div_cancel_mul())) by {
        reveal(div_cancel_mul);
        reveal_with_fuel(mentions, 5);
        reveal_with_fuel(is_symbol_free, 5);
    }
}

proof fn mul_comm_keeps_value(env: spec_fn(Seq<char>) -> int)
    ensures
        preserves_value(mul_comm(), env),
{
    reveal(mul_comm);
    reveal_with_fuel(value, 5);
    let a: int = env(na());
    let b: int = env(nb());
    assert(a * b == b * a) by (nonlinear_arith);
}

proof fn mul_assoc_keeps_value(env: spec_fn(Seq<char>) -> int)
    ensures
        preserves_value(mul_assoc(), env),
{
    reveal(mul_assoc);
    reveal_with_fuel(value, 5);
    let a: int = env(na());
    let b: int = env(nb());
    let c: int = env(nc());
    assert(a * (b * c) == (a * b) * c) by (nonlinear_arith);
}

proof fn mul_zero_keeps_value(env: spec_fn(Seq<char>) -> int)
    ensures
        preserves_value(mul_zero(), env),
{
    reveal(mul_zero);
    reveal_with_fuel(value, 5);
}

proof fn mul_one_keeps_value(env: spec_fn(Seq<char>) -> int)
    ensures
        preserves_value(mul_one(), env),
{
    reveal(mul_one);
    reveal_with_fuel(value, 5);
    let a: int = env(na());
    assert(a * 1 == a) by (nonlinear_arith);
}

proof fn mul_cancel_div_keeps_value(env: spec_fn(Seq<char>) -> int)
    ensures
        preserves_value(mul_cancel_div(), env),
{
    reveal(mul_cancel_div);
    reveal_with_fuel(value, 5);
    let a: int = env(na());
    let b: int = env(nb());
    if b != 0 {
        lemma_quot_rem(a, b);
    }
}

proof fn mul_max_min_keeps_value(env: spec_fn(Seq<char>) -> int)
    ensures
        preserves_value(mul_max_min(), env),
{
    reveal(mul_max_min);
    reveal_with_fuel(value, 5);
    let a: int = env(na());
    let b: int = env(nb());
    assert(a * b == b * a) by (nonlinear_arith);
}

proof fn div_cancel_mul_keeps_value(env: spec_fn(Seq<char>) -> int)
    ensures
        preserves_value(div_cancel_mul(), env),
{
    reveal(div_cancel_mul);
    reveal_with_fuel(value, 5);
    let x: int = env(nx());
    let y: int = env(ny());
    if x != 0 {
        lemma_quot_of_multiple(y, x);
    }
}

/// The rules of multiplication keep the value.
pub proof fn law_multiplication_keeps_values(rule: Rule, env: spec_fn(Seq<char>) -> int)
    requires
        mul_rules().contains(rule),
        guard_allows(rule.guard, env),
    ensures
        preserves_value(rule, env),
{
    if rule == mul_comm() {
        mul_comm_keeps_value(env);
    } else if rule == mul_assoc() {
        mul_assoc_keeps_value(env);
    } else if rule == mul_zero() {
        mul_zero_keeps_value(env);
    } else if rule == mul_one() {
        mul_one_keeps_value(env);
    } else if rule == mul_cancel_div() {
        mul_cancel_div_keeps_value(env);
    } else if rule == mul_max_min() {
        mul_max_min_keeps_value(env);
    } else if rule == div_cancel_mul() {
        div_cancel_mul_keeps_value(env);
    }
}

} // verus!
