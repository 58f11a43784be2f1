//! The rules of division: what they are, how they are
//! written, and where they keep the value.
//!
//! The rules are opaque: `reveal` a rule to see its sides and its condition.

use vstd::prelude::*;

use crate::arith::{
    lemma_minus_one, lemma_quot_of_multiple, lemma_quot_rem, lemma_quot_rem_negate,
    lemma_quot_rem_shift, lemma_quot_scale, quot, rem, same_side,
};
use crate::condition::{
    comparator_of, lemma_comparator_texts, sto_compare_c0_c1, sto_is_not_zero, Comparator, Guard,
};
use crate::expr::{is_writable, text};
use crate::rule::{
    e_add, e_div, e_mul, guard_allows, is_closed, is_symbol_free, lemma_variables, mentions, na, nb,
    num, nx, ny, preserves_value, rule, rule_if, va, vb, vx, vy, Rule,
};
use crate::rules::{
    holds_rules, is_written, lemma_holds_rules, lemma_written_is_readable, sto_rw, sto_rw_cond,
    StoRw,
};
use crate::semantics::value;

verus! {

#[verifier::opaque]
pub open spec fn div_zero() -> Rule {
    rule("div-zero"@, e_div(num(0), vx()), num(0))
}

#[verifier::opaque]
pub open spec fn div_cancel() -> Rule {
    rule_if("div-cancel"@, e_div(va(), va()), num(1), Guard::NotZero(na()))
}

#[verifier::opaque]
pub open spec fn div_minus_down() -> Rule {
    rule("div-minus-down"@, e_div(e_mul(num(-1), va()), vb()), e_div(va(), e_mul(num(-1), vb())))
}

#[verifier::opaque]
pub open spec fn div_minus_up() -> Rule {
    rule("div-minus-up"@, e_div(va(), e_mul(num(-1), vb())), e_div(e_mul(num(-1), va()), vb()))
}

#[verifier::opaque]
pub open spec fn div_minus_in() -> Rule {
    rule("div-minus-in"@, e_mul(num(-1), e_div(va(), vb())), e_div(e_mul(num(-1), va()), vb()))
}

#[verifier::opaque]
pub open spec fn div_minus_out() -> Rule {
    rule("div-minus-out"@, e_div(e_mul(num(-1), va()), vb()), e_mul(num(-1), e_div(va(), vb())))
}

#[verifier::opaque]
pub open spec fn div_consts_div() -> Rule {
    rule_if(
        "div-consts-div"@,
        e_div(e_mul(vx(), va()), vb()),
        e_div(vx(), e_div(vb(), va())),
        Guard::Compare(nb(), na(), Some(Comparator::MultipleOfPos)),
    )
}

#[verifier::opaque]
pub open spec fn div_consts_mul() -> Rule {
    rule_if(
        "div-consts-mul"@,
        e_div(e_mul(vx(), va()), vb()),
        e_mul(vx(), e_div(va(), vb())),
        Guard::Compare(na(), nb(), Some(Comparator::MultipleOfPos)),
    )
}

#[verifier::opaque]
pub open spec fn div_consts_add() -> Rule {
    rule_if(
        "div-consts-add"@,
        e_div(e_add(e_mul(vx(), va()), vy()), vb()),
        e_add(e_mul(vx(), e_div(va(), vb())), e_div(vy(), vb())),
        Guard::Compare(na(), nb(), Some(Comparator::MultipleOfPos)),
    )
}

#[verifier::opaque]
pub open spec fn div_separate() -> Rule {
    rule_if(
        "div-separate"@,
        e_div(e_add(vx(), va()), vb()),
        e_add(e_div(vx(), vb()), e_div(va(), vb())),
        Guard::Compare(na(), nb(), Some(Comparator::MultipleOfPos)),
    )
}

/// The rules of division.
pub open spec fn div_rules() -> Seq<Rule> {
    seq![
        div_zero(),
        div_cancel(),
        div_minus_down(),
        div_minus_up(),
        div_minus_in(),
        div_minus_out(),
        div_consts_div(),
        div_consts_mul(),
        div_consts_add(),
        div_separate(),
    ]
}

proof fn div_zero_is_written()
    ensures
        is_written(div_zero(), "div-zero"@, "(/ 0 ?x)"@, "0"@, Guard::Always),
{
    reveal(div_zero);
    reveal(is_written);
    reveal_with_fuel(text, 5);
    reveal_with_fuel(is_writable, 5);
    lemma_variables();
    reveal_strlit("(/ 0 ?x)");
    reveal_strlit("0");
}

proof fn div_cancel_is_written()
    ensures
        is_written(div_cancel(), "div-cancel"@, "(/ ?a ?a)"@, "1"@, Guard::NotZero("?a"@)),
{
    reveal(div_cancel);
    reveal(is_written);
    reveal_with_fuel(text, 5);
    reveal_with_fuel(is_writable, 5);
    lemma_variables();
    reveal_strlit("(/ ?a ?a)");
    reveal_strlit("1");
}

proof fn div_minus_down_is_written()
    ensures
        is_written(
            div_minus_down(),
            "div-minus-down"@,
            "(/ (* -1 ?a) ?b)"@,
            "(/ ?a (* -1 ?b))"@,
            Guard::Always,
        ),
{
    reveal(div_minus_down);
    reveal(is_written);
    reveal_with_fuel(text, 5);
    reveal_with_fuel(is_writable, 5);
    lemma_variables();
    reveal_strlit("(/ (* -1 ?a) ?b)");
    reveal_strlit("(/ ?a (* -1 ?b))");
}

proof fn div_minus_up_is_written()
    ensures
        is_written(
            div_minus_up(),
            "div-minus-up"@,
            "(/ ?a (* -1 ?b))"@,
            "(/ (* -1 ?a) ?b)"@,
            Guard::Always,
        ),
{
    reveal(div_minus_up);
    reveal(is_written);
    reveal_with_fuel(text, 5);
    reveal_with_fuel(is_writable, 5);
    lemma_variables();
    reveal_strlit("(/ ?a (* -1 ?b))");
    reveal_strlit("(/ (* -1 ?a) ?b)");
}

proof fn div_minus_in_is_written()
    ensures
        is_written(
            div_minus_in(),
            "div-minus-in"@,
            "(* -1 (/ ?a ?b))"@,
            "(/ (* -1 ?a) ?b)"@,
            Guard::Always,
        ),
{
    reveal(div_minus_in);
    reveal(is_written);
    reveal_with_fuel(text, 5);
    reveal_with_fuel(is_writable, 5);
    lemma_variables();
    reveal_strlit("(* -1 (/ ?a ?b))");
    reveal_strlit("(/ (* -1 ?a) ?b)");
}

proof fn div_minus_out_is_written()
    ensures
        is_written(
            div_minus_out(),
            "div-minus-out"@,
            "(/ (* -1 ?a) ?b)"@,
            "(* -1 (/ ?a ?b))"@,
            Guard::Always,
        ),
{
    reveal(div_minus_out);
    reveal(is_written);
    reveal_with_fuel(text, 5);
    reveal_with_fuel(is_writable, 5);
    lemma_variables();
    reveal_strlit("(/ (* -1 ?a) ?b)");
    reveal_strlit("(* -1 (/ ?a ?b))");
}

proof fn div_consts_div_is_written()
    ensures
        is_written(
            div_consts_div(),
            "div-consts-div"@,
            "(/ (* ?x ?a) ?b)"@,
            "(/ ?x (/ ?b ?a))"@,
            Guard::Compare("?b"@, "?a"@, comparator_of("%0<"@)),
        ),
{
    reveal(div_consts_div);
    reveal(is_written);
    reveal_with_fuel(text, 5);
    reveal_with_fuel(is_writable, 5);
    lemma_variables();
    lemma_comparator_texts();
    reveal_strlit("(/ (* ?x ?a) ?b)");
    reveal_strlit("(/ ?x (/ ?b ?a))");
}

proof fn div_consts_mul_is_written()
    ensures
        is_written(
            div_consts_mul(),
            "div-consts-mul"@,
            "(/ (* ?x ?a) ?b)"@,
            "(* ?x (/ ?a ?b))"@,
            Guard::Compare("?a"@, "?b"@, comparator_of("%0<"@)),
        ),
{
    reveal(div_consts_mul);
    reveal(is_written);
    reveal_with_fuel(text, 5);
    reveal_with_fuel(is_writable, 5);
    lemma_variables();
    lemma_comparator_texts();
    reveal_strlit("(/ (* ?x ?a) ?b)");
    reveal_strlit("(* ?x (/ ?a ?b))");
}

proof fn div_consts_add_is_written()
    ensures
        is_written(
            div_consts_add(),
            "div-consts-add"@,
            "(/ (+ (* ?x ?a) ?y) ?b)"@,
            "(+ (* ?x (/ ?a ?b)) (/ ?y ?b))"@,
            Guard::Compare("?a"@, "?b"@, comparator_of("%0<"@)),
        ),
{
    reveal(div_consts_add);
    reveal(is_written);
    reveal_with_fuel(text, 5);
    reveal_with_fuel(is_writable, 5);
    lemma_variables();
    lemma_comparator_texts();
    reveal_strlit("(/ (+ (* ?x ?a) ?y) ?b)");
    reveal_strlit("(+ (* ?x (/ ?a ?b)) (/ ?y ?b))");
}

proof fn div_separate_is_written()
    ensures
        is_written(
            div_separate(),
            "div-separate"@,
            "(/ (+ ?x ?a) ?b)"@,
            "(+ (/ ?x ?b) (/ ?a ?b))"@,
            Guard::Compare("?a"@, "?b"@, comparator_of("%0<"@)),
        ),
{
    reveal(div_separate);
    reveal(is_written);
    reveal_with_fuel(text, 5);
    reveal_with_fuel(is_writable, 5);
    lemma_variables();
    lemma_comparator_texts();
    reveal_strlit("(/ (+ ?x ?a) ?b)");
    reveal_strlit("(+ (/ ?x ?b) (/ ?a ?b))");
}

/// The rules of division.
pub fn sto_div() -> (r: Vec<StoRw>)
    ensures
        holds_rules(r@, div_rules()),
{
    proof {
        div_zero_is_written();
        div_cancel_is_written();
        div_minus_down_is_written();
        div_minus_up_is_written();
        div_minus_in_is_written();
        div_minus_out_is_written();
        div_consts_div_is_written();
        div_consts_mul_is_written();
        div_consts_add_is_written();
        div_separate_is_written();
        lemma_written_is_readable();
    }
    let rules: Vec<StoRw> = vec![
        sto_rw("div-zero", "(/ 0 ?x)", "0"),
        sto_rw_cond("div-cancel", "(/ ?a ?a)", "1", sto_is_not_zero("?a")),
        sto_rw("div-minus-down", "(/ (* -1 ?a) ?b)", "(/ ?a (* -1 ?b))"),
        sto_rw("div-minus-up", "(/ ?a (* -1 ?b))", "(/ (* -1 ?a) ?b)"),
        sto_rw("div-minus-in", "(* -1 (/ ?a ?b))", "(/ (* -1 ?a) ?b)"),
        sto_rw("div-minus-out", "(/ (* -1 ?a) ?b)", "(* -1 (/ ?a ?b))"),
        sto_rw_cond(
            "div-consts-div",
            "(/ (* ?x ?a) ?b)",
            "(/ ?x (/ ?b ?a))",
            sto_compare_c0_c1("?b", "?a", "%0<"),
        ),
        sto_rw_cond(
            "div-consts-mul",
            "(/ (* ?x ?a) ?b)",
            "(* ?x (/ ?a ?b))",
            sto_compare_c0_c1("?a", "?b", "%0<"),
        ),
        sto_rw_cond(
            "div-consts-add",
            "(/ (+ (* ?x ?a) ?y) ?b)",
            "(+ (* ?x (/ ?a ?b)) (/ ?y ?b))",
            sto_compare_c0_c1("?a", "?b", "%0<"),
        ),
        sto_rw_cond(
            "div-separate",
            "(/ (+ ?x ?a) ?b)",
            "(+ (/ ?x ?b) (/ ?a ?b))",
            sto_compare_c0_c1("?a", "?b", "%0<"),
        ),
    ];
    proof {
        lemma_holds_rules(rules@, div_rules());
    }
    rules
}

/// The rules of division speak of nothing but constants and the variables that a
/// match binds.
pub proof fn law_division_is_closed(rule: Rule)
    requires
        div_rules().contains(rule),
    ensures
        is_closed(rule),
{
    assert(is_closed(div_zero())) by {
        reveal(div_zero);
        reveal_with_fuel(mentions, 5);
        reveal_with_fuel(is_symbol_free, 5);
    }
    assert(is_closed(div_cancel())) by {
        reveal(div_cancel);
        reveal_with_fuel(mentions, 5);
        reveal_with_fuel(is_symbol_free, 5);
    }
    assert(is_closed(div_minus_down())) by {
        reveal(div_minus_down);
        reveal_with_fuel(mentions, 5);
        reveal_with_fuel(is_symbol_free, 5);
    }
    assert(is_closed(div_minus_up())) by {
        reveal(div_minus_up);
        reveal_with_fuel(mentions, 5);
        reveal_with_fuel(is_symbol_free, 5);
    }
    assert(is_closed(div_minus_in())) by {
        reveal(div_minus_in);
        reveal_with_fuel(mentions, 5);
        reveal_with_fuel(is_symbol_free, 5);
    }
    assert(is_closed(div_minus_out())) by {
        reveal(div_minus_out);
        reveal_with_fuel(mentions, 5);
        reveal_with_fuel(is_symbol_free, 5);
    }
    assert(is_closed(div_consts_div())) by {
        reveal(div_consts_div);
        reveal_with_fuel(mentions, 5);
        reveal_with_fuel(is_symbol_free, 5);
    }
    assert(is_closed(div_consts_mul())) by {
        reveal(div_consts_mul);
        reveal_with_fuel(mentions, 5);
        reveal_with_fuel(is_symbol_free, 5);
    }
    assert(is_closed(div_consts_add())) by {
        reveal(div_consts_add);
        reveal_with_fuel(mentions, 5);
        reveal_with_fuel(is_symbol_free, 5);
    }
    assert(is_closed(div_separate())) by {
        reveal(div_separate);
        reveal_with_fuel(mentions, 5);
        reveal_with_fuel(is_symbol_free, 5);
    }
}

/// Where the rules of division keep the value.
pub open spec fn division_holds_at(rule: Rule, env: spec_fn(Seq<char>) -> int) -> bool {
    &&& rule == div_consts_add() ==> div_consts_add_holds_at(env)
    &&& rule == div_separate() ==> div_separate_holds_at(env)
}

/// `div-consts-add` keeps the value without a remainder, or where the dividend does
/// not cross zero.
pub open spec fn div_consts_add_holds_at(env: spec_fn(Seq<char>) -> int) -> bool {
    let a = env(na());
    let b = env(nb());
    let x = env(nx());
    let y = env(ny());
    rem(y, b) == 0 || same_side(y, x * a + y)
}

/// `div-separate` keeps the value without a remainder, or where the dividend does
/// not cross zero.
pub open spec fn div_separate_holds_at(env: spec_fn(Seq<char>) -> int) -> bool {
    let a = env(na());
    let b = env(nb());
    let x = env(nx());
    rem(x, b) == 0 || same_side(x, x + a)
}

proof fn div_zero_keeps_value(env: spec_fn(Seq<char>) -> int)
    ensures
        preserves_value(div_zero(), env),
{
    reveal(div_zero);
    reveal_with_fuel(value, 5);
    let x: int = env(nx());
    if x != 0 {
        lemma_quot_of_multiple(0, x);
    }
}

proof fn div_cancel_keeps_value(env: spec_fn(Seq<char>) -> int)
    requires
        guard_allows(div_cancel().guard, env),
    ensures
        preserves_value(div_cancel(), env),
{
    reveal(div_cancel);
    reveal_with_fuel(value, 5);
    let a: int = env(na());
    if a != 0 {
        lemma_quot_of_multiple(1, a);
    }
}

proof fn div_minus_down_keeps_value(env: spec_fn(Seq<char>) -> int)
    ensures
        preserves_value(div_minus_down(), env),
{
    reveal(div_minus_down);
    reveal_with_fuel(value, 5);
    let a: int = env(na());
    let b: int = env(nb());
    lemma_minus_one(a);
    lemma_minus_one(b);
    if b != 0 {
        lemma_quot_rem_negate(a, b);
    }
}

proof fn div_minus_up_keeps_value(env: spec_fn(Seq<char>) -> int)
    ensures
        preserves_value(div_minus_up(), env),
{
    reveal(div_minus_up);
    reveal_with_fuel(value, 5);
    let a: int = env(na());
    let b: int = env(nb());
    lemma_minus_one(a);
    lemma_minus_one(b);
    if b != 0 {
        lemma_quot_rem_negate(a, b);
    }
}

proof fn div_minus_in_keeps_value(env: spec_fn(Seq<char>) -> int)
    ensures
        preserves_value(div_minus_in(), env),
{
    reveal(div_minus_in);
    reveal_with_fuel(value, 5);
    let a: int = env(na());
    let b: int = env(nb());
    lemma_minus_one(a);
    lemma_minus_one(quot(a, b));
    if b != 0 {
        lemma_quot_rem_negate(a, b);
    }
}

proof fn div_minus_out_keeps_value(env: spec_fn(Seq<char>) -> int)
    ensures
        preserves_value(div_minus_out(), env),
{
    reveal(div_minus_out);
    reveal_with_fuel(value, 5);
    let a: int = env(na());
    let b: int = env(nb());
    lemma_minus_one(a);
    lemma_minus_one(quot(a, b));
    if b != 0 {
        lemma_quot_rem_negate(a, b);
    }
}

proof fn div_consts_div_keeps_value(env: spec_fn(Seq<char>) -> int)
    requires
        guard_allows(div_consts_div().guard, env),
    ensures
        preserves_value(div_consts_div(), env),
{
    reveal(div_consts_div);
    reveal_with_fuel(value, 5);
    let a: int = env(na());
    let b: int = env(nb());
    let x: int = env(nx());
    lemma_quot_rem(b, a);
    if b != 0 {
        let k: int = quot(b, a);
        assert(k != 0) by (nonlinear_arith)
            requires
                b == k * a,
                b != 0,
        ;
        lemma_quot_scale(x, k, a);
    }
}

proof fn div_consts_mul_keeps_value(env: spec_fn(Seq<char>) -> int)
    requires
        guard_allows(div_consts_mul().guard, env),
    ensures
        preserves_value(div_consts_mul(), env),
{
    reveal(div_consts_mul);
    reveal_with_fuel(value, 5);
    let a: int = env(na());
    let b: int = env(nb());
    let x: int = env(nx());
    lemma_quot_rem(a, b);
    let k: int = quot(a, b);
    assert(x * a == (x * k) * b) by (nonlinear_arith)
        requires
            a == k * b,
    ;
    lemma_quot_of_multiple(x * k, b);
}

/// Where the left side of `div-consts-add` has a value, the right side has that
/// value exactly where [`div_consts_add_holds_at`] says.
pub proof fn law_div_consts_add(env: spec_fn(Seq<char>) -> int)
    requires
        guard_allows(div_consts_add().guard, env),
    ensures
        value(div_consts_add().lhs, env) is Some ==> (preserves_value(div_consts_add(), env)
            <==> div_consts_add_holds_at(env)),
{
    reveal(div_consts_add);
    reveal_with_fuel(value, 5);
    let a: int = env(na());
    let b: int = env(nb());
    let x: int = env(nx());
    let y: int = env(ny());
    lemma_quot_rem(a, b);
    let k: int = quot(a, b);
    assert(x * a == (x * k) * b) by (nonlinear_arith)
        requires
            a == k * b,
    ;
    lemma_quot_rem_shift(y, b, x * k);
}

/// Where the left side of `div-separate` has a value, the right side has that value
/// exactly where [`div_separate_holds_at`] says.
pub proof fn law_div_separate(env: spec_fn(Seq<char>) -> int)
    requires
        guard_allows(div_separate().guard, env),
    ensures
        value(div_separate().lhs, env) is Some ==> (preserves_value(div_separate(), env)
            <==> div_separate_holds_at(env)),
{
    reveal(div_separate);
    reveal_with_fuel(value, 5);
    let a: int = env(na());
    let b: int = env(nb());
    let x: int = env(nx());
    lemma_quot_rem(a, b);
    lemma_quot_rem_shift(x, b, quot(a, b));
}

/// The rules of division keep the value where [`division_holds_at`] says.
pub proof fn law_division_keeps_values(rule: Rule, env: spec_fn(Seq<char>) -> int)
    requires
        div_rules().contains(rule),
        guard_allows(rule.guard, env),
        division_holds_at(rule, env),
    ensures
        preserves_value(rule, env),
{
    if rule == div_zero() {
        div_zero_keeps_value(env);
    } else if rule == div_cancel() {
        div_cancel_keeps_value(env);
    } else if rule == div_minus_down() {
        div_minus_down_keeps_value(env);
    } else if rule == div_minus_up() {
        div_minus_up_keeps_value(env);
    } else if rule == div_minus_in() {
        div_minus_in_keeps_value(env);
    } else if rule == div_minus_out() {
        div_minus_out_keeps_value(env);
    } else if rule == div_consts_div() {
        div_consts_div_keeps_value(env);
    } else if rule == div_consts_mul() {
        div_consts_mul_keeps_value(env);
    } else if rule == div_consts_add() {
        law_div_consts_add(env);
    } else if rule == div_separate() {
        law_div_separate(env);
    }
}

} // verus!
