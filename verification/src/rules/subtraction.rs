//! The rules of subtraction: what they are, how they are
//! written, and where they keep the value.
//!
//! The rules are opaque: `reveal` a rule to see its sides and its condition.

use vstd::prelude::*;

use crate::arith::lemma_minus_one;
use crate::condition::Guard;
use crate::expr::{is_writable, text};
use crate::rule::{
    e_add, e_mul, e_sub, guard_allows, is_closed, is_symbol_free, lemma_variables, mentions, nb,
    num, preserves_value, rule, va, vb, Rule,
};
use crate::rules::{
    holds_rules, is_written, lemma_holds_rules, lemma_written_is_readable, sto_rw, StoRw,
};
use crate::semantics::value;

verus! {

#[verifier::opaque]
pub open spec fn sub_to_add() -> Rule {
    rule("sub-to-add"@, e_sub(va(), vb()), e_add(va(), e_mul(num(-1), vb())))
}

/// The rules of subtraction.
pub open spec fn sub_rules() -> Seq<Rule> {
    seq![
        sub_to_add(),
    ]
}

proof fn sub_to_add_is_written()
    ensures
        is_written(sub_to_add(), "sub-to-add"@, "(- ?a ?b)"@, "(+ ?a (* -1 ?b))"@, Guard::Always),
{
    reveal(sub_to_add);
    reveal(is_written);
    reveal_with_fuel(text, 5);
    reveal_with_fuel(is_writable, 5);
    lemma_variables();
    reveal_strlit("(- ?a ?b)");
    reveal_strlit("(+ ?a (* -1 ?b))");
}

/// The rules of subtraction.
pub fn sto_sub() -> (r: Vec<StoRw>)
    ensures
        holds_rules(r@, sub_rules()),
{
    proof {
        sub_to_add_is_written();
        lemma_written_is_readable();
    }
    let rules: Vec<StoRw> = vec![
        sto_rw("sub-to-add", "(- ?a ?b)", "(+ ?a (* -1 ?b))"),
    ];
    proof {
        lemma_holds_rules(rules@, sub_rules());
    }
    rules
}

/// The rules of subtraction speak of nothing but constants and the variables that a
/// match binds.
pub proof fn law_subtraction_is_closed(rule: Rule)
    requires
        sub_rules().contains(rule),
    ensures
        is_closed(rule),
{
    assert(is_closed(sub_to_add())) by {
        reveal(sub_to_add);
        reveal_with_fuel(mentions, 5);
        reveal_with_fuel(is_symbol_free, 5);
    }
}

proof fn sub_to_add_keeps_value(env: spec_fn(Seq<char>) -> int)
    ensures
        preserves_value(sub_to_add(), env),
{
    reveal(sub_to_add);
    reveal_with_fuel(value, 5);
    let b: int = env(nb());
    lemma_minus_one(b);
}

/// The rules of subtraction keep the value.
pub proof fn law_subtraction_keeps_values(rule: Rule, env: spec_fn(Seq<char>) -> int)
    requires
        sub_rules().contains(rule),
        guard_allows(rule.guard, env),
    ensures
        preserves_value(rule, env),
{
    sub_to_add_keeps_value(env);
}

} // verus!
