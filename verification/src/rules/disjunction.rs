//! The rules of disjunction: what they are, how they are
//! written, and where they keep the value.
//!
//! The rules are opaque: `reveal` a rule to see its sides and its condition.

use vstd::prelude::*;

use crate::condition::Guard;
use crate::expr::{is_writable, text};
use crate::rule::{
    e_and, e_not, e_or, guard_allows, is_closed, is_symbol_free, lemma_variables, mentions, nx, ny,
    preserves_value, rule, vx, vy, Rule,
};
use crate::rules::{
    holds_rules, is_written, lemma_holds_rules, lemma_written_is_readable, sto_rw, StoRw,
};
use crate::semantics::value;

verus! {

#[verifier::opaque]
pub open spec fn or_to_and() -> Rule {
    rule("or-to-and"@, e_or(vx(), vy()), e_not(e_and(e_not(vx()), e_not(vy()))))
}

#[verifier::opaque]
pub open spec fn or_comm() -> Rule {
    rule("or-comm"@, e_or(vy(), vx()), e_or(vx(), vy()))
}

/// The rules of disjunction.
pub open spec fn or_rules() -> Seq<Rule> {
    seq![
        or_to_and(),
        or_comm(),
    ]
}

proof fn or_to_and_is_written()
    ensures
        is_written(
            or_to_and(),
            "or-to-and"@,
            "(|| ?x ?y)"@,
            "(! (&& (! ?x) (! ?y)))"@,
            Guard::Always,
        ),
{
    reveal(or_to_and);
    reveal(is_written);
    reveal_with_fuel(text, 5);
    reveal_with_fuel(is_writable, 5);
    lemma_variables();
    reveal_strlit("(|| ?x ?y)");
    reveal_strlit("(! (&& (! ?x) (! ?y)))");
}

proof fn or_comm_is_written()
    ensures
        is_written(or_comm(), "or-comm"@, "(|| ?y ?x)"@, "(|| ?x ?y)"@, Guard::Always),
{
    reveal(or_comm);
    reveal(is_written);
    reveal_with_fuel(text, 5);
    reveal_with_fuel(is_writable, 5);
    lemma_variables();
    reveal_strlit("(|| ?y ?x)");
    reveal_strlit("(|| ?x ?y)");
}

/// The rules of disjunction.
pub fn sto_or() -> (r: Vec<StoRw>)
    ensures
        holds_rules(r@, or_rules()),
{
    proof {
        or_to_and_is_written();
        or_comm_is_written();
        lemma_written_is_readable();
    }
    let rules: Vec<StoRw> = vec![
        sto_rw("or-to-and", "(|| ?x ?y)", "(! (&& (! ?x) (! ?y)))"),
        sto_rw("or-comm", "(|| ?y ?x)", "(|| ?x ?y)"),
    ];
    proof {
        lemma_holds_rules(rules@, or_rules());
    }
    rules
}

/// The rules of disjunction speak of nothing but constants and the variables that a
/// match binds.
pub proof fn law_disjunction_is_closed(rule: Rule)
    requires
        or_rules().contains(rule),
    ensures
        is_closed(rule),
{
    assert(is_closed(or_to_and())) by {
        reveal(or_to_and);
        reveal_with_fuel(mentions, 5);
        reveal_with_fuel(is_symbol_free, 5);
    }
    assert(is_closed(or_comm())) by {
        reveal(or_comm);
        reveal_with_fuel(mentions, 5);
        reveal_with_fuel(is_symbol_free, 5);
    }
}

/// Where the rules of disjunction keep the value.
pub open spec fn disjunction_holds_at(rule: Rule, env: spec_fn(Seq<char>) -> int) -> bool {
    &&& rule == or_to_and() ==> or_to_and_holds_at(env)
}

/// `or-to-and` keeps the value where a side is one as soon as a side is not zero.
pub open spec fn or_to_and_holds_at(env: spec_fn(Seq<char>) -> int) -> bool {
    let x = env(nx());
    let y = env(ny());
    (x == 1 || y == 1) == (x != 0 || y != 0)
}

/// Where the left side of `or-to-and` has a value, the right side has that value
/// exactly where [`or_to_and_holds_at`] says.
pub proof fn law_or_to_and(env: spec_fn(Seq<char>) -> int)
    ensures
        value(or_to_and().lhs, env) is Some ==> (preserves_value(or_to_and(), env)
            <==> or_to_and_holds_at(env)),
{
    reveal(or_to_and);
    reveal_with_fuel(value, 5);
}

proof fn or_comm_keeps_value(env: spec_fn(Seq<char>) -> int)
    ensures
        preserves_value(or_comm(), env),
{
    reveal(or_comm);
    reveal_with_fuel(value, 5);
}

/// The rules of disjunction keep the value where [`disjunction_holds_at`] says.
pub proof fn law_disjunction_keeps_values(rule: Rule, env: spec_fn(Seq<char>) -> int)
    requires
        or_rules().contains(rule),
        guard_allows(rule.guard, env),
        disjunction_holds_at(rule, env),
    ensures
        preserves_value(rule, env),
{
    if rule == or_to_and() {
        law_or_to_and(env);
    } else if rule == or_comm() {
        or_comm_keeps_value(env);
    }
}

} // verus!
