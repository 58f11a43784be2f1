//! The rules of conjunction: what they are, how they are
//! written, and where they keep the value.
//!
//! The rules are opaque: `reveal` a rule to see its sides and its condition.

use vstd::prelude::*;

use crate::condition::{
    comparator_of, lemma_comparator_texts, sto_compare_c0_c1, Comparator, Guard,
};
use crate::expr::{is_writable, text};
use crate::rule::{
    e_and, e_eq, e_ge, e_gt, e_le, e_lt, e_max, e_min, e_ne, e_not, guard_allows, is_closed,
    is_symbol_free, lemma_variables, mentions, nc0, nc1, num, nx, preserves_value, rule, rule_if,
    va, vb, vc, vc0, vc1, vx, vy, vz, Rule,
};
use crate::rules::{
    holds_rules, is_written, lemma_holds_rules, lemma_written_is_readable, sto_rw, sto_rw_cond,
    StoRw,
};
use crate::semantics::value;

verus! {

#[verifier::opaque]
pub open spec fn and_comm() -> Rule {
    rule("and-comm"@, e_and(vy(), vx()), e_and(vx(), vy()))
}

#[verifier::opaque]
pub open spec fn and_assoc() -> Rule {
    rule("and-assoc"@, e_and(va(), e_and(vb(), vc())), e_and(e_and(va(), vb()), vc()))
}

#[verifier::opaque]
pub open spec fn and_x_1() -> Rule {
    rule("and-x-1"@, e_and(num(1), vx()), vx())
}

#[verifier::opaque]
pub open spec fn and_x_x() -> Rule {
    rule("and-x-x"@, e_and(vx(), vx()), vx())
}

#[verifier::opaque]
pub open spec fn and_x_not_x() -> Rule {
    rule("and-x-not-x"@, e_and(vx(), e_not(vx())), num(0))
}

#[verifier::opaque]
pub open spec fn and_eq_eq() -> Rule {
    rule_if(
        "and-eq-eq"@,
        e_and(e_eq(vx(), vc0()), e_eq(vx(), vc1())),
        num(0),
        Guard::Compare(nc1(), nc0(), Some(Comparator::Ne)),
    )
}

#[verifier::opaque]
pub open spec fn and_ineq_eq() -> Rule {
    rule_if(
        "and-ineq-eq"@,
        e_and(e_ne(vx(), vc0()), e_eq(vx(), vc1())),
        e_eq(vx(), vc1()),
        Guard::Compare(nc1(), nc0(), Some(Comparator::Ne)),
    )
}

#[verifier::opaque]
pub open spec fn and_lt_to_min() -> Rule {
    rule(
        "and-lt-to-min"@,
        e_and(e_lt(vx(), vy()), e_lt(vx(), vz())),
        e_lt(vx(), e_min(vy(), vz())),
    )
}

#[verifier::opaque]
pub open spec fn and_min_to_lt() -> Rule {
    rule(
        "and-min-to-lt"@,
        e_lt(vx(), e_min(vy(), vz())),
        e_and(e_lt(vx(), vy()), e_lt(vx(), vz())),
    )
}

#[verifier::opaque]
pub open spec fn and_eqlt_to_min() -> Rule {
    rule(
        "and-eqlt-to-min"@,
        e_and(e_le(vx(), vy()), e_le(vx(), vz())),
        e_le(vx(), e_min(vy(), vz())),
    )
}

#[verifier::opaque]
pub open spec fn and_min_to_eqlt() -> Rule {
    rule(
        "and-min-to-eqlt"@,
        e_le(vx(), e_min(vy(), vz())),
        e_and(e_le(vx(), vy()), e_le(vx(), vz())),
    )
}

#[verifier::opaque]
pub open spec fn and_lt_to_max() -> Rule {
    rule(
        "and-lt-to-max"@,
        e_and(e_lt(vy(), vx()), e_lt(vz(), vx())),
        e_lt(e_max(vy(), vz()), vx()),
    )
}

#[verifier::opaque]
pub open spec fn and_max_to_lt() -> Rule {
    rule(
        "and-max-to-lt"@,
        e_gt(vx(), e_max(vy(), vz())),
        e_and(e_lt(vz(), vx()), e_lt(vy(), vx())),
    )
}

#[verifier::opaque]
pub open spec fn and_eqlt_to_max() -> Rule {
    rule(
        "and-eqlt-to-max"@,
        e_and(e_le(vy(), vx()), e_le(vz(), vx())),
        e_le(e_max(vy(), vz()), vx()),
    )
}

#[verifier::opaque]
pub open spec fn and_max_to_eqlt() -> Rule {
    rule(
        "and-max-to-eqlt"@,
        e_ge(vx(), e_max(vy(), vz())),
        e_and(e_le(vz(), vx()), e_le(vy(), vx())),
    )
}

#[verifier::opaque]
pub open spec fn and_lt_gt_to_0() -> Rule {
    rule_if(
        "and-lt-gt-to-0"@,
        e_and(e_lt(vc0(), vx()), e_lt(vx(), vc1())),
        num(0),
        Guard::Compare(nc1(), nc0(), Some(Comparator::LePlusOne)),
    )
}

#[verifier::opaque]
pub open spec fn and_eqlt_eqgt_to_0() -> Rule {
    rule_if(
        "and-eqlt-eqgt-to-0"@,
        e_and(e_le(vc0(), vx()), e_le(vx(), vc1())),
        num(0),
        Guard::Compare(nc1(), nc0(), Some(Comparator::Lt)),
    )
}

#[verifier::opaque]
pub open spec fn and_eqlt_gt_to_0() -> Rule {
    rule_if(
        "and-eqlt-gt-to-0"@,
        e_and(e_le(vc0(), vx()), e_lt(vx(), vc1())),
        num(0),
        Guard::Compare(nc1(), nc0(), Some(Comparator::Le)),
    )
}

/// The rules of conjunction.
pub open spec fn and_rules() -> Seq<Rule> {
    seq![
        and_comm(),
        and_assoc(),
        and_x_1(),
        and_x_x(),
        and_x_not_x(),
        and_eq_eq(),
        and_ineq_eq(),
        and_lt_to_min(),
        and_min_to_lt(),
        and_eqlt_to_min(),
        and_min_to_eqlt(),
        and_lt_to_max(),
        and_max_to_lt(),
        and_eqlt_to_max(),
        and_max_to_eqlt(),
        and_lt_gt_to_0(),
        and_eqlt_eqgt_to_0(),
        and_eqlt_gt_to_0(),
    ]
}

proof fn and_comm_is_written()
    ensures
        is_written(and_comm(), "and-comm"@, "(&& ?y ?x)"@, "(&& ?x ?y)"@, Guard::Always),
{
    reveal(and_comm);
    reveal(is_written);
    reveal_with_fuel(text, 5);
    reveal_with_fuel(is_writable, 5);
    lemma_variables();
    reveal_strlit("(&& ?y ?x)");
    reveal_strlit("(&& ?x ?y)");
}

proof fn and_assoc_is_written()
    ensures
        is_written(
            and_assoc(),
            "and-assoc"@,
            "(&& ?a (&& ?b ?c))"@,
            "(&& (&& ?a ?b) ?c)"@,
            Guard::Always,
        ),
{
    reveal(and_assoc);
    reveal(is_written);
    reveal_with_fuel(text, 5);
    reveal_with_fuel(is_writable, 5);
    lemma_variables();
    reveal_strlit("(&& ?a (&& ?b ?c))");
    reveal_strlit("(&& (&& ?a ?b) ?c)");
}

proof fn and_x_1_is_written()
    ensures
        is_written(and_x_1(), "and-x-1"@, "(&& 1 ?x)"@, "?x"@, Guard::Always),
{
    reveal(and_x_1);
    reveal(is_written);
    reveal_with_fuel(text, 5);
    reveal_with_fuel(is_writable, 5);
    lemma_variables();
    reveal_strlit("(&& 1 ?x)");
    reveal_strlit("?x");
}

proof fn and_x_x_is_written()
    ensures
        is_written(and_x_x(), "and-x-x"@, "(&& ?x ?x)"@, "?x"@, Guard::Always),
{
    reveal(and_x_x);
    reveal(is_written);
    reveal_with_fuel(text, 5);
    reveal_with_fuel(is_writable, 5);
    lemma_variables();
    reveal_strlit("(&& ?x ?x)");
    reveal_strlit("?x");
}

proof fn and_x_not_x_is_written()
    ensures
        is_written(and_x_not_x(), "and-x-not-x"@, "(&& ?x (! ?x))"@, "0"@, Guard::Always),
{
    reveal(and_x_not_x);
    reveal(is_written);
    reveal_with_fuel(text, 5);
    reveal_with_fuel(is_writable, 5);
    lemma_variables();
    reveal_strlit("(&& ?x (! ?x))");
    reveal_strlit("0");
}

proof fn and_eq_eq_is_written()
    ensures
        is_written(
            and_eq_eq(),
            "and-eq-eq"@,
            "(&& (== ?x ?c0) (== ?x ?c1))"@,
            "0"@,
            Guard::Compare("?c1"@, "?c0"@, comparator_of("!="@)),
        ),
{
    reveal(and_eq_eq);
    reveal(is_written);
    reveal_with_fuel(text, 5);
    reveal_with_fuel(is_writable, 5);
    lemma_variables();
    lemma_comparator_texts();
    reveal_strlit("(&& (== ?x ?c0) (== ?x ?c1))");
    reveal_strlit("0");
}

proof fn and_ineq_eq_is_written()
    ensures
        is_written(
            and_ineq_eq(),
            "and-ineq-eq"@,
            "(&& (!= ?x ?c0) (== ?x ?c1))"@,
            "(== ?x ?c1)"@,
            Guard::Compare("?c1"@, "?c0"@, comparator_of("!="@)),
        ),
{
    reveal(and_ineq_eq);
    reveal(is_written);
    reveal_with_fuel(text, 5);
    reveal_with_fuel(is_writable, 5);
    lemma_variables();
    lemma_comparator_texts();
    reveal_strlit("(&& (!= ?x ?c0) (== ?x ?c1))");
    reveal_strlit("(== ?x ?c1)");
}

proof fn and_lt_to_min_is_written()
    ensures
        is_written(
            and_lt_to_min(),
            "and-lt-to-min"@,
            "(&& (< ?x ?y) (< ?x ?z))"@,
            "(< ?x (min ?y ?z))"@,
            Guard::Always,
        ),
{
    reveal(and_lt_to_min);
    reveal(is_written);
    reveal_with_fuel(text, 5);
    reveal_with_fuel(is_writable, 5);
    lemma_variables();
    reveal_strlit("(&& (< ?x ?y) (< ?x ?z))");
    reveal_strlit("(< ?x (min ?y ?z))");
}

proof fn and_min_to_lt_is_written()
    ensures
        is_written(
            and_min_to_lt(),
            "and-min-to-lt"@,
            "(< ?x (min ?y ?z))"@,
            "(&& (< ?x ?y) (< ?x ?z))"@,
            Guard::Always,
        ),
{
    reveal(and_min_to_lt);
    reveal(is_written);
    reveal_with_fuel(text, 5);
    reveal_with_fuel(is_writable, 5);
    lemma_variables();
    reveal_strlit("(< ?x (min ?y ?z))");
    reveal_strlit("(&& (< ?x ?y) (< ?x ?z))");
}

proof fn and_eqlt_to_min_is_written()
    ensures
        is_written(
            and_eqlt_to_min(),
            "and-eqlt-to-min"@,
            "(&& (<= ?x ?y) (<= ?x ?z))"@,
            "(<= ?x (min ?y ?z))"@,
            Guard::Always,
        ),
{
    reveal(and_eqlt_to_min);
    reveal(is_written);
    reveal_with_fuel(text, 5);
    reveal_with_fuel(is_writable, 5);
    lemma_variables();
    reveal_strlit("(&& (<= ?x ?y) (<= ?x ?z))");
    reveal_strlit("(<= ?x (min ?y ?z))");
}

proof fn and_min_to_eqlt_is_written()
    ensures
        is_written(
            and_min_to_eqlt(),
            "and-min-to-eqlt"@,
            "(<= ?x (min ?y ?z))"@,
            "(&& (<= ?x ?y) (<= ?x ?z))"@,
            Guard::Always,
        ),
{
    reveal(and_min_to_eqlt);
    reveal(is_written);
    reveal_with_fuel(text, 5);
    reveal_with_fuel(is_writable, 5);
    lemma_variables();
    reveal_strlit("(<= ?x (min ?y ?z))");
    reveal_strlit("(&& (<= ?x ?y) (<= ?x ?z))");
}

proof fn and_lt_to_max_is_written()
    ensures
        is_written(
            and_lt_to_max(),
            "and-lt-to-max"@,
            "(&& (< ?y ?x) (< ?z ?x))"@,
            "(< (max ?y ?z) ?x)"@,
            Guard::Always,
        ),
{
    reveal(and_lt_to_max);
    reveal(is_written);
    reveal_with_fuel(text, 5);
    reveal_with_fuel(is_writable, 5);
    lemma_variables();
    reveal_strlit("(&& (< ?y ?x) (< ?z ?x))");
    reveal_strlit("(< (max ?y ?z) ?x)");
}

proof fn and_max_to_lt_is_written()
    ensures
        is_written(
            and_max_to_lt(),
            "and-max-to-lt"@,
            "(> ?x (max ?y ?z))"@,
            "(&& (< ?z ?x) (< ?y ?x))"@,
            Guard::Always,
        ),
{
    reveal(and_max_to_lt);
    reveal(is_written);
    reveal_with_fuel(text, 5);
    reveal_with_fuel(is_writable, 5);
    lemma_variables();
    reveal_strlit("(> ?x (max ?y ?z))");
    reveal_strlit("(&& (< ?z ?x) (< ?y ?x))");
}

proof fn and_eqlt_to_max_is_written()
    ensures
        is_written(
            and_eqlt_to_max(),
            "and-eqlt-to-max"@,
            "(&& (<= ?y ?x) (<= ?z ?x))"@,
            "(<= (max ?y ?z) ?x)"@,
            Guard::Always,
        ),
{
    reveal(and_eqlt_to_max);
    reveal(is_written);
    reveal_with_fuel(text, 5);
    reveal_with_fuel(is_writable, 5);
    lemma_variables();
    reveal_strlit("(&& (<= ?y ?x) (<= ?z ?x))");
    reveal_strlit("(<= (max ?y ?z) ?x)");
}

proof fn and_max_to_eqlt_is_written()
    ensures
        is_written(
            and_max_to_eqlt(),
            "and-max-to-eqlt"@,
            "(>= ?x (max ?y ?z))"@,
            "(&& (<= ?z ?x) (<= ?y ?x))"@,
            Guard::Always,
        ),
{
    reveal(and_max_to_eqlt);
    reveal(is_written);
    reveal_with_fuel(text, 5);
    reveal_with_fuel(is_writable, 5);
    lemma_variables();
    reveal_strlit("(>= ?x (max ?y ?z))");
    reveal_strlit("(&& (<= ?z ?x) (<= ?y ?x))");
}

proof fn and_lt_gt_to_0_is_written()
    ensures
        is_written(
            and_lt_gt_to_0(),
            "and-lt-gt-to-0"@,
            "(&& (< ?c0 ?x) (< ?x ?c1))"@,
            "0"@,
            Guard::Compare("?c1"@, "?c0"@, comparator_of("<=+1"@)),
        ),
{
    reveal(and_lt_gt_to_0);
    reveal(is_written);
    reveal_with_fuel(text, 5);
    reveal_with_fuel(is_writable, 5);
    lemma_variables();
    lemma_comparator_texts();
    reveal_strlit("(&& (< ?c0 ?x) (< ?x ?c1))");
    reveal_strlit("0");
}

proof fn and_eqlt_eqgt_to_0_is_written()
    ensures
        is_written(
            and_eqlt_eqgt_to_0(),
            "and-eqlt-eqgt-to-0"@,
            "(&& (<= ?c0 ?x) (<= ?x ?c1))"@,
            "0"@,
            Guard::Compare("?c1"@, "?c0"@, comparator_of("<"@)),
        ),
{
    reveal(and_eqlt_eqgt_to_0);
    reveal(is_written);
    reveal_with_fuel(text, 5);
    reveal_with_fuel(is_writable, 5);
    lemma_variables();
    lemma_comparator_texts();
    reveal_strlit("(&& (<= ?c0 ?x) (<= ?x ?c1))");
    reveal_strlit("0");
}

proof fn and_eqlt_gt_to_0_is_written()
    ensures
        is_written(
            and_eqlt_gt_to_0(),
            "and-eqlt-gt-to-0"@,
            "(&& (<= ?c0 ?x) (< ?x ?c1))"@,
            "0"@,
            Guard::Compare("?c1"@, "?c0"@, comparator_of("<="@)),
        ),
{
    reveal(and_eqlt_gt_to_0);
    reveal(is_written);
    reveal_with_fuel(text, 5);
    reveal_with_fuel(is_writable, 5);
    lemma_variables();
    lemma_comparator_texts();
    reveal_strlit("(&& (<= ?c0 ?x) (< ?x ?c1))");
    reveal_strlit("0");
}

/// The rules of conjunction.
pub fn sto_and() -> (r: Vec<StoRw>)
    ensures
        holds_rules(r@, and_rules()),
{
    proof {
        and_comm_is_written();
        and_assoc_is_written();
        and_x_1_is_written();
        and_x_x_is_written();
        and_x_not_x_is_written();
        and_eq_eq_is_written();
        and_ineq_eq_is_written();
        and_lt_to_min_is_written();
        and_min_to_lt_is_written();
        and_eqlt_to_min_is_written();
        and_min_to_eqlt_is_written();
        and_lt_to_max_is_written();
        and_max_to_lt_is_written();
        and_eqlt_to_max_is_written();
        and_max_to_eqlt_is_written();
        and_lt_gt_to_0_is_written();
        and_eqlt_eqgt_to_0_is_written();
        and_eqlt_gt_to_0_is_written();
        lemma_written_is_readable();
    }
    let rules: Vec<StoRw> = vec![
        sto_rw("and-comm", "(&& ?y ?x)", "(&& ?x ?y)"),
        sto_rw("and-assoc", "(&& ?a (&& ?b ?c))", "(&& (&& ?a ?b) ?c)"),
        sto_rw("and-x-1", "(&& 1 ?x)", "?x"),
        sto_rw("and-x-x", "(&& ?x ?x)", "?x"),
        sto_rw("and-x-not-x", "(&& ?x (! ?x))", "0"),
        sto_rw_cond(
            "and-eq-eq",
            "(&& (== ?x ?c0) (== ?x ?c1))",
            "0",
            sto_compare_c0_c1("?c1", "?c0", "!="),
        ),
        sto_rw_cond(
            "and-ineq-eq",
            "(&& (!= ?x ?c0) (== ?x ?c1))",
            "(== ?x ?c1)",
            sto_compare_c0_c1("?c1", "?c0", "!="),
        ),
        sto_rw("and-lt-to-min", "(&& (< ?x ?y) (< ?x ?z))", "(< ?x (min ?y ?z))"),
        sto_rw("and-min-to-lt", "(< ?x (min ?y ?z))", "(&& (< ?x ?y) (< ?x ?z))"),
        sto_rw("and-eqlt-to-min", "(&& (<= ?x ?y) (<= ?x ?z))", "(<= ?x (min ?y ?z))"),
        sto_rw("and-min-to-eqlt", "(<= ?x (min ?y ?z))", "(&& (<= ?x ?y) (<= ?x ?z))"),
        sto_rw("and-lt-to-max", "(&& (< ?y ?x) (< ?z ?x))", "(< (max ?y ?z) ?x)"),
        sto_rw("and-max-to-lt", "(> ?x (max ?y ?z))", "(&& (< ?z ?x) (< ?y ?x))"),
        sto_rw("and-eqlt-to-max", "(&& (<= ?y ?x) (<= ?z ?x))", "(<= (max ?y ?z) ?x)"),
        sto_rw("and-max-to-eqlt", "(>= ?x (max ?y ?z))", "(&& (<= ?z ?x) (<= ?y ?x))"),
        sto_rw_cond(
            "and-lt-gt-to-0",
            "(&& (< ?c0 ?x) (< ?x ?c1))",
            "0",
            sto_compare_c0_c1("?c1", "?c0", "<=+1"),
        ),
        sto_rw_cond(
            "and-eqlt-eqgt-to-0",
            "(&& (<= ?c0 ?x) (<= ?x ?c1))",
            "0",
            sto_compare_c0_c1("?c1", "?c0", "<"),
        ),
        sto_rw_cond(
            "and-eqlt-gt-to-0",
            "(&& (<= ?c0 ?x) (< ?x ?c1))",
            "0",
            sto_compare_c0_c1("?c1", "?c0", "<="),
        ),
    ];
    proof {
        lemma_holds_rules(rules@, and_rules());
    }
    rules
}

/// The rules of conjunction speak of nothing but constants and the variables that a
/// match binds.
pub proof fn law_conjunction_is_closed(rule: Rule)
    requires
        and_rules().contains(rule),
    ensures
        is_closed(rule),
{
    assert(is_closed(and_comm())) by {
        reveal(and_comm);
        reveal_with_fuel(mentions, 5);
        reveal_with_fuel(is_symbol_free, 5);
    }
    assert(is_closed(and_assoc())) by {
        reveal(and_assoc);
        reveal_with_fuel(mentions, 5);
        reveal_with_fuel(is_symbol_free, 5);
    }
    assert(is_closed(and_x_1())) by {
        reveal(and_x_1);
        reveal_with_fuel(mentions, 5);
        reveal_with_fuel(is_symbol_free, 5);
    }
    assert(is_closed(and_x_x())) by {
        reveal(and_x_x);
        reveal_with_fuel(mentions, 5);
        reveal_with_fuel(is_symbol_free, 5);
    }
    assert(is_closed(and_x_not_x())) by {
        reveal(and_x_not_x);
        reveal_with_fuel(mentions, 5);
        reveal_with_fuel(is_symbol_free, 5);
    }
    assert(is_closed(and_eq_eq())) by {
        reveal(and_eq_eq);
        reveal_with_fuel(mentions, 5);
        reveal_with_fuel(is_symbol_free, 5);
    }
    assert(is_closed(and_ineq_eq())) by {
        reveal(and_ineq_eq);
        reveal_with_fuel(mentions, 5);
        reveal_with_fuel(is_symbol_free, 5);
    }
    assert(is_closed(and_lt_to_min())) by {
        reveal(and_lt_to_min);
        reveal_with_fuel(mentions, 5);
        reveal_with_fuel(is_symbol_free, 5);
    }
    assert(is_closed(and_min_to_lt())) by {
        reveal(and_min_to_lt);
        reveal_with_fuel(mentions, 5);
        reveal_with_fuel(is_symbol_free, 5);
    }
    assert(is_closed(and_eqlt_to_min())) by {
        reveal(and_eqlt_to_min);
        reveal_with_fuel(mentions, 5);
        reveal_with_fuel(is_symbol_free, 5);
    }
    assert(is_closed(and_min_to_eqlt())) by {
        reveal(and_min_to_eqlt);
        reveal_with_fuel(mentions, 5);
        reveal_with_fuel(is_symbol_free, 5);
    }
    assert(is_closed(and_lt_to_max())) by {
        reveal(and_lt_to_max);
        reveal_with_fuel(mentions, 5);
        reveal_with_fuel(is_symbol_free, 5);
    }
    assert(is_closed(and_max_to_lt())) by {
        reveal(and_max_to_lt);
        reveal_with_fuel(mentions, 5);
        reveal_with_fuel(is_symbol_free, 5);
    }
    assert(is_closed(and_eqlt_to_max())) by {
        reveal(and_eqlt_to_max);
        reveal_with_fuel(mentions, 5);
        reveal_with_fuel(is_symbol_free, 5);
    }
    assert(is_closed(and_max_to_eqlt())) by {
        reveal(and_max_to_eqlt);
        reveal_with_fuel(mentions, 5);
        reveal_with_fuel(is_symbol_free, 5);
    }
    assert(is_closed(and_lt_gt_to_0())) by {
        reveal(and_lt_gt_to_0);
        reveal_with_fuel(mentions, 5);
        reveal_with_fuel(is_symbol_free, 5);
    }
    assert(is_closed(and_eqlt_eqgt_to_0())) by {
        reveal(and_eqlt_eqgt_to_0);
        reveal_with_fuel(mentions, 5);
        reveal_with_fuel(is_symbol_free, 5);
    }
    assert(is_closed(and_eqlt_gt_to_0())) by {
        reveal(and_eqlt_gt_to_0);
        reveal_with_fuel(mentions, 5);
        reveal_with_fuel(is_symbol_free, 5);
    }
}

/// Where the rules of conjunction keep the value.
pub open spec fn conjunction_holds_at(rule: Rule, env: spec_fn(Seq<char>) -> int) -> bool {
    &&& rule == and_x_1() ==> and_x_1_holds_at(env)
    &&& rule == and_x_x() ==> and_x_x_holds_at(env)
}

/// `and-x-1` keeps the value for the truth values zero and one.
pub open spec fn and_x_1_holds_at(env: spec_fn(Seq<char>) -> int) -> bool {
    let x = env(nx());
    x == 0 || x == 1
}

/// `and-x-x` keeps the value for the truth values zero and one.
pub open spec fn and_x_x_holds_at(env: spec_fn(Seq<char>) -> int) -> bool {
    let x = env(nx());
    x == 0 || x == 1
}

proof fn and_comm_keeps_value(env: spec_fn(Seq<char>) -> int)
    ensures
        preserves_value(and_comm(), env),
{
    reveal(and_comm);
    reveal_with_fuel(value, 5);
}

proof fn and_assoc_keeps_value(env: spec_fn(Seq<char>) -> int)
    ensures
        preserves_value(and_assoc(), env),
{
    reveal(and_assoc);
    reveal_with_fuel(value, 5);
}

/// Where the left side of `and-x-1` has a value, the right side has that value
/// exactly where [`and_x_1_holds_at`] says.
pub proof fn law_and_x_1(env: spec_fn(Seq<char>) -> int)
    ensures
        value(and_x_1().lhs, env) is Some ==> (preserves_value(and_x_1(), env)
            <==> and_x_1_holds_at(env)),
{
    reveal(and_x_1);
    reveal_with_fuel(value, 5);
}

/// Where the left side of `and-x-x` has a value, the right side has that value
/// exactly where [`and_x_x_holds_at`] says.
pub proof fn law_and_x_x(env: spec_fn(Seq<char>) -> int)
    ensures
        value(and_x_x().lhs, env) is Some ==> (preserves_value(and_x_x(), env)
            <==> and_x_x_holds_at(env)),
{
    reveal(and_x_x);
    reveal_with_fuel(value, 5);
}

proof fn and_x_not_x_keeps_value(env: spec_fn(Seq<char>) -> int)
    ensures
        preserves_value(and_x_not_x(), env),
{
    reveal(and_x_not_x);
    reveal_with_fuel(value, 5);
}

proof fn and_eq_eq_keeps_value(env: spec_fn(Seq<char>) -> int)
    requires
        guard_allows(and_eq_eq().guard, env),
    ensures
        preserves_value(and_eq_eq(), env),
{
    reveal(and_eq_eq);
    reveal_with_fuel(value, 5);
}

proof fn and_ineq_eq_keeps_value(env: spec_fn(Seq<char>) -> int)
    requires
        guard_allows(and_ineq_eq().guard, env),
    ensures
        preserves_value(and_ineq_eq(), env),
{
    reveal(and_ineq_eq);
    reveal_with_fuel(value, 5);
}

proof fn and_lt_to_min_keeps_value(env: spec_fn(Seq<char>) -> int)
    ensures
        preserves_value(and_lt_to_min(), env),
{
    reveal(and_lt_to_min);
    reveal_with_fuel(value, 5);
}

proof fn and_min_to_lt_keeps_value(env: spec_fn(Seq<char>) -> int)
    ensures
        preserves_value(and_min_to_lt(), env),
{
    reveal(and_min_to_lt);
    reveal_with_fuel(value, 5);
}

proof fn and_eqlt_to_min_keeps_value(env: spec_fn(Seq<char>) -> int)
    ensures
        preserves_value(and_eqlt_to_min(), env),
{
    reveal(and_eqlt_to_min);
    reveal_with_fuel(value, 5);
}

proof fn and_min_to_eqlt_keeps_value(env: spec_fn(Seq<char>) -> int)
    ensures
        preserves_value(and_min_to_eqlt(), env),
{
    reveal(and_min_to_eqlt);
    reveal_with_fuel(value, 5);
}

proof fn and_lt_to_max_keeps_value(env: spec_fn(Seq<char>) -> int)
    ensures
        preserves_value(and_lt_to_max(), env),
{
    reveal(and_lt_to_max);
    reveal_with_fuel(value, 5);
}

proof fn and_max_to_lt_keeps_value(env: spec_fn(Seq<char>) -> int)
    ensures
        preserves_value(and_max_to_lt(), env),
{
    reveal(and_max_to_lt);
    reveal_with_fuel(value, 5);
}

proof fn and_eqlt_to_max_keeps_value(env: spec_fn(Seq<char>) -> int)
    ensures
        preserves_value(and_eqlt_to_max(), env),
{
    reveal(and_eqlt_to_max);
    reveal_with_fuel(value, 5);
}

proof fn and_max_to_eqlt_keeps_value(env: spec_fn(Seq<char>) -> int)
    ensures
        preserves_value(and_max_to_eqlt(), env),
{
    reveal(and_max_to_eqlt);
    reveal_with_fuel(value, 5);
}

proof fn and_lt_gt_to_0_keeps_value(env: spec_fn(Seq<char>) -> int)
    requires
        guard_allows(and_lt_gt_to_0().guard, env),
    ensures
        preserves_value(and_lt_gt_to_0(), env),
{
    reveal(and_lt_gt_to_0);
    reveal_with_fuel(value, 5);
}

proof fn and_eqlt_eqgt_to_0_keeps_value(env: spec_fn(Seq<char>) -> int)
    requires
        guard_allows(and_eqlt_eqgt_to_0().guard, env),
    ensures
        preserves_value(and_eqlt_eqgt_to_0(), env),
{
    reveal(and_eqlt_eqgt_to_0);
    reveal_with_fuel(value, 5);
}

proof fn and_eqlt_gt_to_0_keeps_value(env: spec_fn(Seq<char>) -> int)
    requires
        guard_allows(and_eqlt_gt_to_0().guard, env),
    ensures
        preserves_value(and_eqlt_gt_to_0(), env),
{
    reveal(and_eqlt_gt_to_0);
    reveal_with_fuel(value, 5);
}

/// The rules of conjunction keep the value where [`conjunction_holds_at`] says.
pub proof fn law_conjunction_keeps_values(rule: Rule, env: spec_fn(Seq<char>) -> int)
    requires
        and_rules().contains(rule),
        guard_allows(rule.guard, env),
        conjunction_holds_at(rule, env),
    ensures
        preserves_value(rule, env),
{
    if rule == and_comm() {
        and_comm_keeps_value(env);
    } else if rule == and_assoc() {
        and_assoc_keeps_value(env);
    } else if rule == and_x_1() {
        law_and_x_1(env);
    } else if rule == and_x_x() {
        law_and_x_x(env);
    } else if rule == and_x_not_x() {
        and_x_not_x_keeps_value(env);
    } else if rule == and_eq_eq() {
        and_eq_eq_keeps_value(env);
    } else if rule == and_ineq_eq() {
        and_ineq_eq_keeps_value(env);
    } else if rule == and_lt_to_min() {
        and_lt_to_min_keeps_value(env);
    } else if rule == and_min_to_lt() {
        and_min_to_lt_keeps_value(env);
    } else if rule == and_eqlt_to_min() {
        and_eqlt_to_min_keeps_value(env);
    } else if rule == and_min_to_eqlt() {
        and_min_to_eqlt_keeps_value(env);
    } else if rule == and_lt_to_max() {
        and_lt_to_max_keeps_value(env);
    } else if rule == and_max_to_lt() {
        and_max_to_lt_keeps_value(env);
    } else if rule == and_eqlt_to_max() {
        and_eqlt_to_max_keeps_value(env);
    } else if rule == and_max_to_eqlt() {
        and_max_to_eqlt_keeps_value(env);
    } else if rule == and_lt_gt_to_0() {
        and_lt_gt_to_0_keeps_value(env);
    } else if rule == and_eqlt_eqgt_to_0() {
        and_eqlt_eqgt_to_0_keeps_value(env);
    } else if rule == and_eqlt_gt_to_0() {
        and_eqlt_gt_to_0_keeps_value(env);
    }
}

} // verus!
