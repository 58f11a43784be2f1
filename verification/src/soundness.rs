//! What makes the rules right: where a rewrite keeps the value of an expression.

use vstd::prelude::*;
use vstd::seq_lib::lemma_seq_concat_contains_all_elements;

use crate::analysis::StoData;
use crate::condition::{bound_constant, bound_node, compares_safely, evaluate, Guard};
use crate::expr::{expr_at, Expr};
use crate::folding::{as_pattern, is_analyzed, law_constant_holds_everywhere};
use crate::math::Shape;
use crate::rule::{
    guard_allows, guard_mentions, is_closed, is_symbol_free, mentions, preserves_value, Rule,
};
use crate::rules::all_rules;
use crate::rules::addition::{
    add_rules, addition_holds_at, law_addition_is_closed, law_addition_keeps_values,
};
use crate::rules::conjunction::{
    and_rules, conjunction_holds_at, law_conjunction_is_closed, law_conjunction_keeps_values,
};
use crate::rules::connectives::{
    andor_rules, connectives_holds_at, law_connectives_is_closed, law_connectives_keeps_values,
};
use crate::rules::disjunction::{
    disjunction_holds_at, law_disjunction_is_closed, law_disjunction_keeps_values, or_rules,
};
use crate::rules::division::{
    div_rules, division_holds_at, law_division_is_closed, law_division_keeps_values,
};
use crate::rules::equality::{eq_rules, law_equality_is_closed, law_equality_keeps_values};
use crate::rules::inequality::{ineq_rules, law_inequality_is_closed, law_inequality_keeps_values};
use crate::rules::maximum::{law_maximum_is_closed, law_maximum_keeps_values, max_rules};
use crate::rules::minimum::{
    law_minimum_is_closed, law_minimum_keeps_values, min_rules, minimum_holds_at,
};
use crate::rules::multiplication::{
    law_multiplication_is_closed, law_multiplication_keeps_values, mul_rules,
};
use crate::rules::negation::{
    law_negation_is_closed, law_negation_keeps_values, negation_holds_at, not_rules,
};
use crate::rules::order::{law_order_is_closed, law_order_keeps_values, lt_rules, order_holds_at};
use crate::rules::remainder::{
    law_remainder_is_closed, law_remainder_keeps_values, modulo_rules, remainder_holds_at,
};
use crate::rules::subtraction::{law_subtraction_is_closed, law_subtraction_keeps_values, sub_rules};
use crate::semantics::{value, value64};

verus! {

/// The rule is in one of the sets.
spec fn is_in_a_set(rule: Rule) -> bool {
    ||| add_rules().contains(rule)
    ||| mul_rules().contains(rule)
    ||| sub_rules().contains(rule)
    ||| div_rules().contains(rule)
    ||| eq_rules().contains(rule)
    ||| and_rules().contains(rule)
    ||| or_rules().contains(rule)
    ||| not_rules().contains(rule)
    ||| max_rules().contains(rule)
    ||| min_rules().contains(rule)
    ||| lt_rules().contains(rule)
    ||| ineq_rules().contains(rule)
    ||| modulo_rules().contains(rule)
    ||| andor_rules().contains(rule)
}

proof fn lemma_in_a_set(rule: Rule)
    requires
        all_rules().contains(rule),
    ensures
        is_in_a_set(rule),
{
    broadcast use lemma_seq_concat_contains_all_elements;

}

/// Every rule speaks of nothing but constants and the variables that a match of its
/// left side binds.
pub proof fn law_rules_are_closed(rule: Rule)
    requires
        all_rules().contains(rule),
    ensures
        is_closed(rule),
{
    lemma_in_a_set(rule);
    if add_rules().contains(rule) {
        law_addition_is_closed(rule);
    } else if mul_rules().contains(rule) {
        law_multiplication_is_closed(rule);
    } else if sub_rules().contains(rule) {
        law_subtraction_is_closed(rule);
    } else if div_rules().contains(rule) {
        law_division_is_closed(rule);
    } else if eq_rules().contains(rule) {
        law_equality_is_closed(rule);
    } else if and_rules().contains(rule) {
        law_conjunction_is_closed(rule);
    } else if or_rules().contains(rule) {
        law_disjunction_is_closed(rule);
    } else if not_rules().contains(rule) {
        law_negation_is_closed(rule);
    } else if max_rules().contains(rule) {
        law_maximum_is_closed(rule);
    } else if min_rules().contains(rule) {
        law_minimum_is_closed(rule);
    } else if lt_rules().contains(rule) {
        law_order_is_closed(rule);
    } else if ineq_rules().contains(rule) {
        law_inequality_is_closed(rule);
    } else if modulo_rules().contains(rule) {
        law_remainder_is_closed(rule);
    } else if andor_rules().contains(rule) {
        law_connectives_is_closed(rule);
    }
}

/// Where a rule keeps the value. Only rules that divide numbers which may be
/// negative, or that take numbers other than zero and one for truth values, are
/// restricted.
pub open spec fn keeps_value_at(rule: Rule, env: spec_fn(Seq<char>) -> int) -> bool {
    &&& addition_holds_at(rule, env)
    &&& division_holds_at(rule, env)
    &&& conjunction_holds_at(rule, env)
    &&& disjunction_holds_at(rule, env)
    &&& negation_holds_at(rule, env)
    &&& minimum_holds_at(rule, env)
    &&& order_holds_at(rule, env)
    &&& remainder_holds_at(rule, env)
    &&& connectives_holds_at(rule, env)
}

/// On the integers the two sides of a rule have the same value where
/// [`keeps_value_at`] says.
pub proof fn law_rules_keep_values(rule: Rule, env: spec_fn(Seq<char>) -> int)
    requires
        all_rules().contains(rule),
        guard_allows(rule.guard, env),
        keeps_value_at(rule, env),
    ensures
        preserves_value(rule, env),
{
    lemma_in_a_set(rule);
    if add_rules().contains(rule) {
        law_addition_keeps_values(rule, env);
    } else if mul_rules().contains(rule) {
        law_multiplication_keeps_values(rule, env);
    } else if sub_rules().contains(rule) {
        law_subtraction_keeps_values(rule, env);
    } else if div_rules().contains(rule) {
        law_division_keeps_values(rule, env);
    } else if eq_rules().contains(rule) {
        law_equality_keeps_values(rule, env);
    } else if and_rules().contains(rule) {
        law_conjunction_keeps_values(rule, env);
    } else if or_rules().contains(rule) {
        law_disjunction_keeps_values(rule, env);
    } else if not_rules().contains(rule) {
        law_negation_keeps_values(rule, env);
    } else if max_rules().contains(rule) {
        law_maximum_keeps_values(rule, env);
    } else if min_rules().contains(rule) {
        law_minimum_keeps_values(rule, env);
    } else if lt_rules().contains(rule) {
        law_order_keeps_values(rule, env);
    } else if ineq_rules().contains(rule) {
        law_inequality_keeps_values(rule, env);
    } else if modulo_rules().contains(rule) {
        law_remainder_keeps_values(rule, env);
    } else if andor_rules().contains(rule) {
        law_connectives_keeps_values(rule, env);
    }
}

/// The values agree with the constants of the nodes that the variables of the
/// condition are bound to.
pub open spec fn agrees_with_constants(
    guard: Guard,
    analysis: Seq<StoData>,
    subst: egg::Subst,
    env: spec_fn(Seq<char>) -> int,
) -> bool {
    forall|var: Seq<char>| #[trigger]
        guard_mentions(guard, var) ==> match bound_constant(analysis, subst, var) {
            Some(Some(c)) => env(var) == c,
            _ => true,
        }
}

/// A condition that holds of a match holds of the values that the match binds.
pub proof fn law_held_condition_allows(
    guard: Guard,
    analysis: Seq<StoData>,
    subst: egg::Subst,
    env: spec_fn(Seq<char>) -> int,
)
    requires
        evaluate(guard, analysis, subst) == Some(true),
        agrees_with_constants(guard, analysis, subst, env),
    ensures
        guard_allows(guard, env),
{
    match guard {
        Guard::ConstPos(v) => {
            assert(guard_mentions(guard, v));
        },
        Guard::ConstNeg(v) => {
            assert(guard_mentions(guard, v));
        },
        Guard::Compare(v, v1, _) => {
            assert(guard_mentions(guard, v));
            assert(guard_mentions(guard, v1));
        },
        _ => {},
    }
}

/// The values are those of the nodes that the variables of the condition are bound
/// to, where `symbols` gives the value of each symbol.
pub open spec fn agrees_with_nodes(
    guard: Guard,
    shapes: Seq<Shape>,
    subst: egg::Subst,
    symbols: spec_fn(Seq<char>) -> Option<i64>,
    env: spec_fn(Seq<char>) -> int,
) -> bool {
    forall|var: Seq<char>| #[trigger]
        guard_mentions(guard, var) ==> match bound_node(subst, var) {
            Some(id) => id < shapes.len() ==> (value64(
                expr_at(as_pattern(shapes), id as int),
                symbols,
            ) matches Some(x) ==> env(var) == x),
            None => true,
        }
}

/// Where the data of every node is right, the values of the nodes agree with their
/// constants.
pub proof fn law_constants_agree_with_nodes(
    guard: Guard,
    shapes: Seq<Shape>,
    analysis: Seq<StoData>,
    subst: egg::Subst,
    symbols: spec_fn(Seq<char>) -> Option<i64>,
    env: spec_fn(Seq<char>) -> int,
)
    requires
        is_analyzed(shapes, analysis),
        agrees_with_nodes(guard, shapes, subst, symbols, env),
    ensures
        agrees_with_constants(guard, analysis, subst, env),
{
    assert forall|var: Seq<char>| #[trigger] guard_mentions(guard, var) implies (
    bound_constant(analysis, subst, var) matches Some(Some(c)) ==> env(var) == c) by {
        if let Some(Some(_)) = bound_constant(analysis, subst, var) {
            let id = bound_node(subst, var)->0;
            law_constant_holds_everywhere(shapes, analysis, id as int, symbols);
        }
    }
}

/// A rule whose condition holds of a match has the same value on both sides, at the
/// values that the match binds, where [`keeps_value_at`] says.
pub proof fn law_held_rules_keep_values(
    rule: Rule,
    analysis: Seq<StoData>,
    subst: egg::Subst,
    env: spec_fn(Seq<char>) -> int,
)
    requires
        all_rules().contains(rule),
        evaluate(rule.guard, analysis, subst) == Some(true),
        agrees_with_constants(rule.guard, analysis, subst, env),
        keeps_value_at(rule, env),
    ensures
        preserves_value(rule, env),
{
    law_held_condition_allows(rule.guard, analysis, subst, env);
    law_rules_keep_values(rule, env);
}

/// The comparison of a condition, if it makes one on two constants, does not
/// overflow.
pub open spec fn guard_is_safe(guard: Guard, analysis: Seq<StoData>, subst: egg::Subst) -> bool {
    match guard {
        Guard::Compare(v, v1, Some(k)) => match (
            bound_constant(analysis, subst, v),
            bound_constant(analysis, subst, v1),
        ) {
            (Some(Some(c)), Some(Some(c1))) => compares_safely(k, c, c1),
            _ => true,
        },
        _ => true,
    }
}

/// The condition of a rule can be evaluated of every match that binds the variables
/// of the left side to nodes.
pub proof fn law_matched_condition_evaluates(
    rule: Rule,
    analysis: Seq<StoData>,
    subst: egg::Subst,
)
    requires
        all_rules().contains(rule),
        forall|var: Seq<char>| #[trigger]
            mentions(rule.lhs, var) ==> bound_constant(analysis, subst, var) is Some,
        guard_is_safe(rule.guard, analysis, subst),
    ensures
        evaluate(rule.guard, analysis, subst) is Some,
{
    law_rules_are_closed(rule);
    match rule.guard {
        Guard::Always => {},
        Guard::ConstPos(v) | Guard::ConstNeg(v) | Guard::NotZero(v) => {
            assert(guard_mentions(rule.guard, v));
        },
        Guard::Compare(v, v1, _) => {
            assert(guard_mentions(rule.guard, v));
            assert(guard_mentions(rule.guard, v1));
        },
    }
}

/// The expression with each variable replaced.
pub open spec fn instance(e: Expr, sigma: spec_fn(Seq<char>) -> Expr) -> Expr
    decreases e,
{
    match e {
        Expr::Var(v) => sigma(v),
        Expr::Const(c) => Expr::Const(c),
        Expr::Sym(s) => Expr::Sym(s),
        Expr::Not(x) => Expr::Not(Box::new(instance(*x, sigma))),
        Expr::Bin(op, x, y) => Expr::Bin(
            op,
            Box::new(instance(*x, sigma)),
            Box::new(instance(*y, sigma)),
        ),
    }
}

/// The values of what variables are replaced by; zero where that has no value.
pub open spec fn values_under(
    sigma: spec_fn(Seq<char>) -> Expr,
    env: spec_fn(Seq<char>) -> int,
) -> spec_fn(Seq<char>) -> int {
    |v: Seq<char>|
        match value(sigma(v), env) {
            Some(x) => x,
            None => 0,
        }
}

/// Where each variable of an expression is replaced by something with a value, the
/// instance has the value that the expression has under these values.
proof fn lemma_instance_value(
    e: Expr,
    sigma: spec_fn(Seq<char>) -> Expr,
    env: spec_fn(Seq<char>) -> int,
)
    requires
        is_symbol_free(e),
        forall|v: Seq<char>| #[trigger] mentions(e, v) ==> value(sigma(v), env) is Some,
    ensures
        value(instance(e, sigma), env) == value(e, values_under(sigma, env)),
    decreases e,
{
    match e {
        Expr::Var(v) => {
            assert(mentions(e, v));
        },
        Expr::Not(x) => {
            assert forall|v: Seq<char>| #[trigger] mentions(*x, v) implies value(
                sigma(v),
                env,
            ) is Some by {
                assert(mentions(e, v));
            }
            lemma_instance_value(*x, sigma, env);
        },
        Expr::Bin(_, x, y) => {
            assert forall|v: Seq<char>| #[trigger] mentions(*x, v) implies value(
                sigma(v),
                env,
            ) is Some by {
                assert(mentions(e, v));
            }
            assert forall|v: Seq<char>| #[trigger] mentions(*y, v) implies value(
                sigma(v),
                env,
            ) is Some by {
                assert(mentions(e, v));
            }
            lemma_instance_value(*x, sigma, env);
            lemma_instance_value(*y, sigma, env);
        },
        _ => {},
    }
}

/// An instance with a value replaces each variable by something with a value.
proof fn lemma_instance_is_defined(
    e: Expr,
    sigma: spec_fn(Seq<char>) -> Expr,
    env: spec_fn(Seq<char>) -> int,
    v: Seq<char>,
)
    requires
        value(instance(e, sigma), env) is Some,
        mentions(e, v),
    ensures
        value(sigma(v), env) is Some,
    decreases e,
{
    match e {
        Expr::Not(x) => {
            lemma_instance_is_defined(*x, sigma, env, v);
        },
        Expr::Bin(_, x, y) => {
            if mentions(*x, v) {
                lemma_instance_is_defined(*x, sigma, env, v);
            } else {
                lemma_instance_is_defined(*y, sigma, env, v);
            }
        },
        _ => {},
    }
}

/// Rewriting keeps the value where [`keeps_value_at`] says: whatever the variables of a
/// rule stand for, if what matched the left side has a value, what replaces it has
/// that value.
pub proof fn law_rewriting_keeps_values(
    rule: Rule,
    sigma: spec_fn(Seq<char>) -> Expr,
    env: spec_fn(Seq<char>) -> int,
)
    requires
        all_rules().contains(rule),
        guard_allows(rule.guard, values_under(sigma, env)),
        keeps_value_at(rule, values_under(sigma, env)),
    ensures
        value(instance(rule.lhs, sigma), env) is Some ==> value(instance(rule.rhs, sigma), env)
            == value(instance(rule.lhs, sigma), env),
{
    if value(instance(rule.lhs, sigma), env) is Some {
        law_rules_are_closed(rule);
        assert forall|v: Seq<char>| #[trigger] mentions(rule.lhs, v) implies value(
            sigma(v),
            env,
        ) is Some by {
            lemma_instance_is_defined(rule.lhs, sigma, env, v);
        }
        assert forall|v: Seq<char>| #[trigger] mentions(rule.rhs, v) implies value(
            sigma(v),
            env,
        ) is Some by {
            assert(mentions(rule.lhs, v));
        }
        lemma_instance_value(rule.lhs, sigma, env);
        lemma_instance_value(rule.rhs, sigma, env);
        law_rules_keep_values(rule, values_under(sigma, env));
    }
}

} // verus!
