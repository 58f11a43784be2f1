//! The rules of inequality: what they are, how they are
//! written, and where they keep the value.
//!
//! The rules are opaque: `reveal` a rule to see its sides and its condition.

use vstd::prelude::*;

use crate::condition::Guard;
use crate::expr::{is_writable, text};
use crate::rule::{
    e_eq, e_ne, e_not, guard_allows, is_closed, is_symbol_free, lemma_variables, mentions,
    preserves_value, rule, vx, vy, Rule,
};
use crate::rules::{
    holds_rules, is_written, lemma_holds_rules, lemma_written_is_readable, sto_rw, StoRw,
};
use crate::semantics::value;

verus! {

#[verifier::opaque]
pub open spec fn ineq_to_eq() -> Rule {
    rule("ineq-to-eq"@, e_ne(vx(), vy()), e_not(e_eq(vx(), vy())))
}

/// The rules of inequality.
pub open spec fn ineq_rules() -> Seq<Rule> {
    seq![
        ineq_to_eq(),
    ]
}

proof fn ineq_to_eq_is_written()
    ensures
        is_written(ineq_to_eq(), "ineq-to-eq"@, "(!= ?x ?y)"@, "(! (== ?x ?y))"@, Guard::Always),
{
    reveal(ineq_to_eq);
    reveal(is_written);
    reveal_with_fuel(text, 5);
    reveal_with_fuel(is_writable, 5);
    lemma_variables();
    reveal_strlit("(!= ?x ?y)");
    reveal_strlit("(! (== ?x ?y))");
}

/// The rules of inequality.
pub fn sto_ineq() -> (r: Vec<StoRw>)
    ensures
        holds_rules(r@, ineq_rules()),
{
    proof {
        ineq_to_eq_is_written();
        lemma_written_is_readable();
    }
    let rules: Vec<StoRw> = vec![
        sto_rw("ineq-to-eq", "(!= ?x ?y)", "(! (== ?x ?y))"),
    ];
    proof {
        lemma_holds_rules(rules@, ineq_rules());
    }
    rules
}

/// The rules of inequality speak of nothing but constants and the variables that a
/// match binds.
pub proof fn law_inequality_is_closed(rule: Rule)
    requires
        ineq_rules().contains(rule),
    ensures
        is_closed(rule),
{
    assert(is_closed(ineq_to_eq())) by {
        reveal(ineq_to_eq);
        reveal_with_fuel(mentions, 5);
        reveal_with_fuel(is_symbol_free, 5);
    }
}

proof fn ineq_to_eq_keeps_value(env: spec_fn(Seq<char>) -> int)
    ensures
        preserves_value(ineq_to_eq(), env),
{
    reveal(ineq_to_eq);
    reveal_with_fuel(value, 5);
}

/// The rules of inequality keep the value.
pub proof fn law_inequality_keeps_values(rule: Rule, env: spec_fn(Seq<char>) -> int)
    requires
        ineq_rules().contains(rule),
        guard_allows(rule.guard, env),
    ensures
        preserves_value(rule, env),
{
    ineq_to_eq_keeps_value(env);
}

} // verus!
