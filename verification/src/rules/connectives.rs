//! The rules of conjunction together with disjunction: what they are, how they are
//! written, and where they keep the value.
//!
//! The rules are opaque: `reveal` a rule to see its sides and its condition.

use vstd::prelude::*;

use crate::condition::Guard;
use crate::expr::{is_writable, text};
use crate::rule::{
    e_and, e_or, guard_allows, is_closed, is_symbol_free, lemma_variables, mentions, na, nb, nc, nx,
    preserves_value, rule, va, vb, vc, vx, vy, Rule,
};
use crate::rules::{
    holds_rules, is_written, lemma_holds_rules, lemma_written_is_readable, sto_rw, StoRw,
};
use crate::semantics::value;

verus! {

#[verifier::opaque]
pub open spec fn and_over_or() -> Rule {
    rule("and-over-or"@, e_and(va(), e_or(vb(), vc())), e_or(e_and(va(), vb()), e_and(va(), vc())))
}

#[verifier::opaque]
pub open spec fn or_over_and() -> Rule {
    rule("or-over-and"@, e_or(va(), e_and(vb(), vc())), e_and(e_or(va(), vb()), e_or(va(), vc())))
}

#[verifier::opaque]
pub open spec fn or_x_and_x_y() -> Rule {
    rule("or-x-and-x-y"@, e_or(vx(), e_and(vx(), vy())), vx())
}

/// The rules of conjunction together with disjunction.
pub open spec fn andor_rules() -> Seq<Rule> {
    seq![
        and_over_or(),
        or_over_and(),
        or_x_and_x_y(),
    ]
}

proof fn and_over_or_is_written()
    ensures
        is_written(
            and_over_or(),
            "and-over-or"@,
            "(&& ?a (|| ?b ?c))"@,
            "(|| (&& ?a ?b) (&& ?a ?c))"@,
            Guard::Always,
        ),
{
    reveal(and_over_or);
    reveal(is_written);
    reveal_with_fuel(text, 5);
    reveal_with_fuel(is_writable, 5);
    lemma_variables();
    reveal_strlit("(&& ?a (|| ?b ?c))");
    reveal_strlit("(|| (&& ?a ?b) (&& ?a ?c))");
}

proof fn or_over_and_is_written()
    ensures
        is_written(
            or_over_and(),
            "or-over-and"@,
            "(|| ?a (&& ?b ?c))"@,
            "(&& (|| ?a ?b) (|| ?a ?c))"@,
            Guard::Always,
        ),
{
    reveal(or_over_and);
    reveal(is_written);
    reveal_with_fuel(text, 5);
    reveal_with_fuel(is_writable, 5);
    lemma_variables();
    reveal_strlit("(|| ?a (&& ?b ?c))");
    reveal_strlit("(&& (|| ?a ?b) (|| ?a ?c))");
}

proof fn or_x_and_x_y_is_written()
    ensures
        is_written(or_x_and_x_y(), "or-x-and-x-y"@, "(|| ?x (&& ?x ?y))"@, "?x"@, Guard::Always),
{
    reveal(or_x_and_x_y);
    reveal(is_written);
    reveal_with_fuel(text, 5);
    reveal_with_fuel(is_writable, 5);
    lemma_variables();
    reveal_strlit("(|| ?x (&& ?x ?y))");
    reveal_strlit("?x");
}

/// The rules of conjunction together with disjunction.
pub fn sto_andor() -> (r: Vec<StoRw>)
    ensures
        holds_rules(r@, andor_rules()),
{
    proof {
        and_over_or_is_written();
        or_over_and_is_written();
        or_x_and_x_y_is_written();
        lemma_written_is_readable();
    }
    let rules: Vec<StoRw> = vec![
        sto_rw("and-over-or", "(&& ?a (|| ?b ?c))", "(|| (&& ?a ?b) (&& ?a ?c))"),
        sto_rw("or-over-and", "(|| ?a (&& ?b ?c))", "(&& (|| ?a ?b) (|| ?a ?c))"),
        sto_rw("or-x-and-x-y", "(|| ?x (&& ?x ?y))", "?x"),
    ];
    proof {
        lemma_holds_rules(rules@, andor_rules());
    }
    rules
}

/// The rules of conjunction together with disjunction speak of nothing but
/// constants and the variables that a match binds.
pub proof fn law_connectives_is_closed(rule: Rule)
    requires
        andor_rules().contains(rule),
    ensures
        is_closed(rule),
{
    assert(is_closed(and_over_or())) by {
        reveal(and_over_or);
        reveal_with_fuel(mentions, 5);
        reveal_with_fuel(is_symbol_free, 5);
    }
    assert(is_closed(or_over_and())) by {
        reveal(or_over_and);
        reveal_with_fuel(mentions, 5);
        reveal_with_fuel(is_symbol_free, 5);
    }
    assert(is_closed(or_x_and_x_y())) by {
        reveal(or_x_and_x_y);
        reveal_with_fuel(mentions, 5);
        reveal_with_fuel(is_symbol_free, 5);
    }
}

/// Where the rules of conjunction together with disjunction keep the value.
pub open spec fn connectives_holds_at(rule: Rule, env: spec_fn(Seq<char>) -> int) -> bool {
    &&& rule == and_over_or() ==> and_over_or_holds_at(env)
    &&& rule == or_over_and() ==> or_over_and_holds_at(env)
    &&& rule == or_x_and_x_y() ==> or_x_and_x_y_holds_at(env)
}

/// `and-over-or` keeps the value where the other side is zero, or a side of the
/// disjunction is one as soon as one is not zero.
pub open spec fn and_over_or_holds_at(env: spec_fn(Seq<char>) -> int) -> bool {
    let a = env(na());
    let b = env(nb());
    let c = env(nc());
    a == 0 || (b == 1 || c == 1) == (b != 0 || c != 0)
}

/// `or-over-and` keeps the value where the other side is one, or both sides of the
/// conjunction are one as soon as neither is zero.
pub open spec fn or_over_and_holds_at(env: spec_fn(Seq<char>) -> int) -> bool {
    let a = env(na());
    let b = env(nb());
    let c = env(nc());
    a == 1 || (b != 0 && c != 0) == (b == 1 && c == 1)
}

/// `or-x-and-x-y` keeps the value for the truth values zero and one.
pub open spec fn or_x_and_x_y_holds_at(env: spec_fn(Seq<char>) -> int) -> bool {
    let x = env(nx());
    x == 0 || x == 1
}

/// Where the left side of `and-over-or` has a value, the right side has that value
/// exactly where [`and_over_or_holds_at`] says.
pub proof fn law_and_over_or(env: spec_fn(Seq<char>) -> int)
    ensures
        value(and_over_or().lhs, env) is Some ==> (preserves_value(and_over_or(), env)
            <==> and_over_or_holds_at(env)),
{
    reveal(and_over_or);
    reveal_with_fuel(value, 5);
}

/// Where the left side of `or-over-and` has a value, the right side has that value
/// exactly where [`or_over_and_holds_at`] says.
pub proof fn law_or_over_and(env: spec_fn(Seq<char>) -> int)
    ensures
        value(or_over_and().lhs, env) is Some ==> (preserves_value(or_over_and(), env)
            <==> or_over_and_holds_at(env)),
{
    reveal(or_over_and);
    reveal_with_fuel(value, 5);
}

/// Where the left side of `or-x-and-x-y` has a value, the right side has that value
/// exactly where [`or_x_and_x_y_holds_at`] says.
pub proof fn law_or_x_and_x_y(env: spec_fn(Seq<char>) -> int)
    ensures
        value(or_x_and_x_y().lhs, env) is Some ==> (preserves_value(or_x_and_x_y(), env)
            <==> or_x_and_x_y_holds_at(env)),
{
    reveal(or_x_and_x_y);
    reveal_with_fuel(value, 5);
}

/// The rules of conjunction together with disjunction keep the value where
/// [`connectives_holds_at`] says.
pub proof fn law_connectives_keeps_values(rule: Rule, env: spec_fn(Seq<char>) -> int)
    requires
        andor_rules().contains(rule),
        guard_allows(rule.guard, env),
        connectives_holds_at(rule, env),
    ensures
        preserves_value(rule, env),
{
    if rule == and_over_or() {
        law_and_over_or(env);
    } else if rule == or_over_and() {
        law_or_over_and(env);
    } else if rule == or_x_and_x_y() {
        law_or_x_and_x_y(env);
    }
}

} // verus!
