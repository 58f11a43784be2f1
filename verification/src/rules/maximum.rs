//! The rules of maximum: what they are, how they are
//! written, and where they keep the value.
//!
//! The rules are opaque: `reveal` a rule to see its sides and its condition.

use vstd::prelude::*;

use crate::arith::{lemma_minus_one, min};
use crate::condition::Guard;
use crate::expr::{is_writable, text};
use crate::rule::{
    e_max, e_min, e_mul, guard_allows, is_closed, is_symbol_free, lemma_variables, mentions, na, nb,
    num, preserves_value, rule, va, vb, Rule,
};
use crate::rules::{
    holds_rules, is_written, lemma_holds_rules, lemma_written_is_readable, sto_rw, StoRw,
};
use crate::semantics::value;

verus! {

#[verifier::opaque]
pub open spec fn max_to_min() -> Rule {
    rule(
        "max-to-min"@,
        e_max(va(), vb()),
        e_mul(num(-1), e_min(e_mul(num(-1), va()), e_mul(num(-1), vb()))),
    )
}

/// The rules of maximum.
pub open spec fn max_rules() -> Seq<Rule> {
    seq![
        max_to_min(),
    ]
}

proof fn max_to_min_is_written()
    ensures
        is_written(
            max_to_min(),
            "max-to-min"@,
            "(max ?a ?b)"@,
            "(* -1 (min (* -1 ?a) (* -1 ?b)))"@,
            Guard::Always,
        ),
{
    reveal(max_to_min);
    reveal(is_written);
    reveal_with_fuel(text, 5);
    reveal_with_fuel(is_writable, 5);
    lemma_variables();
    reveal_strlit("(max ?a ?b)");
    reveal_strlit("(* -1 (min (* -1 ?a) (* -1 ?b)))");
}

/// The rules of maximum.
pub fn sto_max() -> (r: Vec<StoRw>)
    ensures
        holds_rules(r@, max_rules()),
{
    proof {
        max_to_min_is_written();
        lemma_written_is_readable();
    }
    let rules: Vec<StoRw> = vec![
        sto_rw("max-to-min", "(max ?a ?b)", "(* -1 (min (* -1 ?a) (* -1 ?b)))"),
    ];
    proof {
        lemma_holds_rules(rules@, max_rules());
    }
    rules
}

/// The rules of maximum speak of nothing but constants and the variables that a
/// match binds.
pub proof fn law_maximum_is_closed(rule: Rule)
    requires
        max_rules().contains(rule),
    ensures
        is_closed(rule),
{
    assert(is_closed(max_to_min())) by {
        reveal(max_to_min);
        reveal_with_fuel(mentions, 5);
        reveal_with_fuel(is_symbol_free, 5);
    }
}

proof fn max_to_min_keeps_value(env: spec_fn(Seq<char>) -> int)
    ensures
        preserves_value(max_to_min(), env),
{
    reveal(max_to_min);
    reveal_with_fuel(value, 5);
    let a: int = env(na());
    let b: int = env(nb());
    lemma_minus_one(a);
    lemma_minus_one(b);
    lemma_minus_one(min(-a, -b));
}

/// The rules of maximum keep the value.
pub proof fn law_maximum_keeps_values(rule: Rule, env: spec_fn(Seq<char>) -> int)
    requires
        max_rules().contains(rule),
        guard_allows(rule.guard, env),
    ensures
        preserves_value(rule, env),
{
    max_to_min_keeps_value(env);
}

} // verus!
