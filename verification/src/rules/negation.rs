//! The rules of negation: what they are, how they are
//! written, and where they keep the value.
//!
//! The rules are opaque: `reveal` a rule to see its sides and its condition.

use vstd::prelude::*;

use crate::condition::Guard;
use crate::expr::{is_writable, text};
use crate::rule::{
    e_eq, e_ge, e_le, e_lt, e_ne, e_not, guard_allows, is_closed, is_symbol_free, lemma_variables,
    mentions, nx, preserves_value, rule, vx, vy, Rule,
};
use crate::rules::{
    holds_rules, is_written, lemma_holds_rules, lemma_written_is_readable, sto_rw, StoRw,
};
use crate::semantics::value;

verus! {

#[verifier::opaque]
pub open spec fn eqlt_to_not_gt() -> Rule {
    rule("eqlt-to-not-gt"@, e_le(vx(), vy()), e_not(e_lt(vy(), vx())))
}

#[verifier::opaque]
pub open spec fn not_gt_to_eqlt() -> Rule {
    rule("not-gt-to-eqlt"@, e_not(e_lt(vy(), vx())), e_le(vx(), vy()))
}

#[verifier::opaque]
pub open spec fn eqgt_to_not_lt() -> Rule {
    rule("eqgt-to-not-lt"@, e_ge(vx(), vy()), e_not(e_lt(vx(), vy())))
}

#[verifier::opaque]
pub open spec fn not_eq_to_ineq() -> Rule {
    rule("not-eq-to-ineq"@, e_not(e_eq(vx(), vy())), e_ne(vx(), vy()))
}

#[verifier::opaque]
pub open spec fn not_not() -> Rule {
    rule("not-not"@, e_not(e_not(vx())), vx())
}

/// The rules of negation.
pub open spec fn not_rules() -> Seq<Rule> {
    seq![
        eqlt_to_not_gt(),
        not_gt_to_eqlt(),
        eqgt_to_not_lt(),
        not_eq_to_ineq(),
        not_not(),
    ]
}

proof fn eqlt_to_not_gt_is_written()
    ensures
        is_written(
            eqlt_to_not_gt(),
            "eqlt-to-not-gt"@,
            "(<= ?x ?y)"@,
            "(! (< ?y ?x))"@,
            Guard::Always,
        ),
{
    reveal(eqlt_to_not_gt);
    reveal(is_written);
    reveal_with_fuel(text, 5);
    reveal_with_fuel(is_writable, 5);
    lemma_variables();
    reveal_strlit("(<= ?x ?y)");
    reveal_strlit("(! (< ?y ?x))");
}

proof fn not_gt_to_eqlt_is_written()
    ensures
        is_written(
            not_gt_to_eqlt(),
            "not-gt-to-eqlt"@,
            "(! (< ?y ?x))"@,
            "(<= ?x ?y)"@,
            Guard::Always,
        ),
{
    reveal(not_gt_to_eqlt);
    reveal(is_written);
    reveal_with_fuel(text, 5);
    reveal_with_fuel(is_writable, 5);
    lemma_variables();
    reveal_strlit("(! (< ?y ?x))");
    reveal_strlit("(<= ?x ?y)");
}

proof fn eqgt_to_not_lt_is_written()
    ensures
        is_written(
            eqgt_to_not_lt(),
            "eqgt-to-not-lt"@,
            "(>= ?x ?y)"@,
            "(! (< ?x ?y))"@,
            Guard::Always,
        ),
{
    reveal(eqgt_to_not_lt);
    reveal(is_written);
    reveal_with_fuel(text, 5);
    reveal_with_fuel(is_writable, 5);
    lemma_variables();
    reveal_strlit("(>= ?x ?y)");
    reveal_strlit("(! (< ?x ?y))");
}

proof fn not_eq_to_ineq_is_written()
    ensures
        is_written(
            not_eq_to_ineq(),
            "not-eq-to-ineq"@,
            "(! (== ?x ?y))"@,
            "(!= ?x ?y)"@,
            Guard::Always,
        ),
{
    reveal(not_eq_to_ineq);
    reveal(is_written);
    reveal_with_fuel(text, 5);
    reveal_with_fuel(is_writable, 5);
    lemma_variables();
    reveal_strlit("(! (== ?x ?y))");
    reveal_strlit("(!= ?x ?y)");
}

proof fn not_not_is_written()
    ensures
        is_written(not_not(), "not-not"@, "(! (! ?x))"@, "?x"@, Guard::Always),
{
    reveal(not_not);
    reveal(is_written);
    reveal_with_fuel(text, 5);
    reveal_with_fuel(is_writable, 5);
    lemma_variables();
    reveal_strlit("(! (! ?x))");
    reveal_strlit("?x");
}

/// The rules of negation.
pub fn sto_not() -> (r: Vec<StoRw>)
    ensures
        holds_rules(r@, not_rules()),
{
    proof {
        eqlt_to_not_gt_is_written();
        not_gt_to_eqlt_is_written();
        eqgt_to_not_lt_is_written();
        not_eq_to_ineq_is_written();
        not_not_is_written();
        lemma_written_is_readable();
    }
    let rules: Vec<StoRw> = vec![
        sto_rw("eqlt-to-not-gt", "(<= ?x ?y)", "(! (< ?y ?x))"),
        sto_rw("not-gt-to-eqlt", "(! (< ?y ?x))", "(<= ?x ?y)"),
        sto_rw("eqgt-to-not-lt", "(>= ?x ?y)", "(! (< ?x ?y))"),
        sto_rw("not-eq-to-ineq", "(! (== ?x ?y))", "(!= ?x ?y)"),
        sto_rw("not-not", "(! (! ?x))", "?x"),
    ];
    proof {
        lemma_holds_rules(rules@, not_rules());
    }
    rules
}

/// The rules of negation speak of nothing but constants and the variables that a
/// match binds.
pub proof fn law_negation_is_closed(rule: Rule)
    requires
        not_rules().contains(rule),
    ensures
        is_closed(rule),
{
    assert(is_closed(eqlt_to_not_gt())) by {
        reveal(eqlt_to_not_gt);
        reveal_with_fuel(mentions, 5);
        reveal_with_fuel(is_symbol_free, 5);
    }
    assert(is_closed(not_gt_to_eqlt())) by {
        reveal(not_gt_to_eqlt);
        reveal_with_fuel(mentions, 5);
        reveal_with_fuel(is_symbol_free, 5);
    }
    assert(is_closed(eqgt_to_not_lt())) by {
        reveal(eqgt_to_not_lt);
        reveal_with_fuel(mentions, 5);
        reveal_with_fuel(is_symbol_free, 5);
    }
    assert(is_closed(not_eq_to_ineq())) by {
        reveal(not_eq_to_ineq);
        reveal_with_fuel(mentions, 5);
        reveal_with_fuel(is_symbol_free, 5);
    }
    assert(is_closed(not_not())) by {
        reveal(not_not);
        reveal_with_fuel(mentions, 5);
        reveal_with_fuel(is_symbol_free, 5);
    }
}

/// Where the rules of negation keep the value.
pub open spec fn negation_holds_at(rule: Rule, env: spec_fn(Seq<char>) -> int) -> bool {
    &&& rule == not_not() ==> not_not_holds_at(env)
}

/// `not-not` keeps the value for the truth values zero and one.
pub open spec fn not_not_holds_at(env: spec_fn(Seq<char>) -> int) -> bool {
    let x = env(nx());
    x == 0 || x == 1
}

proof fn eqlt_to_not_gt_keeps_value(env: spec_fn(Seq<char>) -> int)
    ensures
        preserves_value(eqlt_to_not_gt(), env),
{
    reveal(eqlt_to_not_gt);
    reveal_with_fuel(value, 5);
}

proof fn not_gt_to_eqlt_keeps_value(env: spec_fn(Seq<char>) -> int)
    ensures
        preserves_value(not_gt_to_eqlt(), env),
{
    reveal(not_gt_to_eqlt);
    reveal_with_fuel(value, 5);
}

proof fn eqgt_to_not_lt_keeps_value(env: spec_fn(Seq<char>) -> int)
    ensures
        preserves_value(eqgt_to_not_lt(), env),
{
    reveal(eqgt_to_not_lt);
    reveal_with_fuel(value, 5);
}

proof fn not_eq_to_ineq_keeps_value(env: spec_fn(Seq<char>) -> int)
    ensures
        preserves_value(not_eq_to_ineq(), env),
{
    reveal(not_eq_to_ineq);
    reveal_with_fuel(value, 5);
}

/// Where the left side of `not-not` has a value, the right side has that value
/// exactly where [`not_not_holds_at`] says.
pub proof fn law_not_not(env: spec_fn(Seq<char>) -> int)
    ensures
        value(not_not().lhs, env) is Some ==> (preserves_value(not_not(), env)
            <==> not_not_holds_at(env)),
{
    reveal(not_not);
    reveal_with_fuel(value, 5);
}

/// The rules of negation keep the value where [`negation_holds_at`] says.
pub proof fn law_negation_keeps_values(rule: Rule, env: spec_fn(Seq<char>) -> int)
    requires
        not_rules().contains(rule),
        guard_allows(rule.guard, env),
        negation_holds_at(rule, env),
    ensures
        preserves_value(rule, env),
{
    if rule == eqlt_to_not_gt() {
        eqlt_to_not_gt_keeps_value(env);
    } else if rule == not_gt_to_eqlt() {
        not_gt_to_eqlt_keeps_value(env);
    } else if rule == eqgt_to_not_lt() {
        eqgt_to_not_lt_keeps_value(env);
    } else if rule == not_eq_to_ineq() {
        not_eq_to_ineq_keeps_value(env);
    } else if rule == not_not() {
        law_not_not(env);
    }
}

} // verus!
