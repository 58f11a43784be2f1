//! The rules of minimum: what they are, how they are
//! written, and where they keep the value.
//!
//! The rules are opaque: `reveal` a rule to see its sides and its condition.

use vstd::prelude::*;

use crate::arith::{lemma_quot_keeps_order, lemma_quot_rem, lemma_quot_rem_negate, quot, rem};
use crate::condition::{
    comparator_of, lemma_comparator_texts, sto_compare_c0_c1, sto_is_const_neg, sto_is_const_pos,
    Comparator, Guard,
};
use crate::expr::{is_writable, text};
use crate::rule::{
    e_add, e_and, e_div, e_lt, e_max, e_min, e_mod, e_mul, e_or, e_sub, guard_allows, is_closed,
    is_symbol_free, lemma_variables, mentions, na, nb, nc0, nc1, nx, ny, nz, preserves_value, rule,
    rule_if, va, vb, vc, vc0, vc1, vx, vy, vz, Rule,
};
use crate::rules::{
    holds_rules, is_written, lemma_holds_rules, lemma_written_is_readable, sto_rw, sto_rw_cond,
    StoRw,
};
use crate::semantics::value;

verus! {

#[verifier::opaque]
pub open spec fn min_comm() -> Rule {
    rule("min-comm"@, e_min(va(), vb()), e_min(vb(), va()))
}

#[verifier::opaque]
pub open spec fn min_ass() -> Rule {
    rule("min-ass"@, e_min(e_min(vx(), vy()), vz()), e_min(vx(), e_min(vy(), vz())))
}

#[verifier::opaque]
pub open spec fn min_x_x() -> Rule {
    rule("min-x-x"@, e_min(vx(), vx()), vx())
}

#[verifier::opaque]
pub open spec fn min_max() -> Rule {
    rule("min-max"@, e_min(e_max(vx(), vy()), vx()), vx())
}

#[verifier::opaque]
pub open spec fn min_max_max_x() -> Rule {
    rule(
        "min-max-max-x"@,
        e_min(e_max(vx(), vy()), e_max(vx(), vz())),
        e_max(e_min(vy(), vz()), vx()),
    )
}

#[verifier::opaque]
pub open spec fn min_max_min_y() -> Rule {
    rule(
        "min-max-min-y"@,
        e_min(e_max(e_min(vx(), vy()), vz()), vy()),
        e_min(e_max(vx(), vz()), vy()),
    )
}

#[verifier::opaque]
pub open spec fn min_sub_both() -> Rule {
    rule(
        "min-sub-both"@,
        e_min(e_add(va(), vb()), vc()),
        e_add(e_min(vb(), e_sub(vc(), va())), va()),
    )
}

#[verifier::opaque]
pub open spec fn min_add_both() -> Rule {
    rule(
        "min-add-both"@,
        e_add(e_min(vx(), vy()), vz()),
        e_min(e_add(vx(), vz()), e_add(vy(), vz())),
    )
}

#[verifier::opaque]
pub open spec fn min_x_x_plus_a_pos() -> Rule {
    rule_if("min-x-x-plus-a-pos"@, e_min(vx(), e_add(vx(), va())), vx(), Guard::ConstPos(na()))
}

#[verifier::opaque]
pub open spec fn min_x_x_plus_a_neg() -> Rule {
    rule_if(
        "min-x-x-plus-a-neg"@,
        e_min(vx(), e_add(vx(), va())),
        e_add(vx(), va()),
        Guard::ConstNeg(na()),
    )
}

#[verifier::opaque]
pub open spec fn min_mul_in_pos() -> Rule {
    rule_if(
        "min-mul-in-pos"@,
        e_mul(e_min(vx(), vy()), vz()),
        e_min(e_mul(vx(), vz()), e_mul(vy(), vz())),
        Guard::ConstPos(nz()),
    )
}

#[verifier::opaque]
pub open spec fn min_mul_out_pos() -> Rule {
    rule_if(
        "min-mul-out-pos"@,
        e_min(e_mul(vx(), vz()), e_mul(vy(), vz())),
        e_mul(e_min(vx(), vy()), vz()),
        Guard::ConstPos(nz()),
    )
}

#[verifier::opaque]
pub open spec fn min_mul_in_neg() -> Rule {
    rule_if(
        "min-mul-in-neg"@,
        e_mul(e_min(vx(), vy()), vz()),
        e_max(e_mul(vx(), vz()), e_mul(vy(), vz())),
        Guard::ConstNeg(nz()),
    )
}

#[verifier::opaque]
pub open spec fn min_mul_out_neg() -> Rule {
    rule_if(
        "min-mul-out-neg"@,
        e_max(e_mul(vx(), vz()), e_mul(vy(), vz())),
        e_mul(e_min(vx(), vy()), vz()),
        Guard::ConstNeg(nz()),
    )
}

#[verifier::opaque]
pub open spec fn min_div_in_pos() -> Rule {
    rule_if(
        "min-div-in-pos"@,
        e_div(e_min(vx(), vy()), vz()),
        e_min(e_div(vx(), vz()), e_div(vy(), vz())),
        Guard::ConstPos(nz()),
    )
}

#[verifier::opaque]
pub open spec fn min_div_out_pos() -> Rule {
    rule_if(
        "min-div-out-pos"@,
        e_min(e_div(vx(), vz()), e_div(vy(), vz())),
        e_div(e_min(vx(), vy()), vz()),
        Guard::ConstPos(nz()),
    )
}

#[verifier::opaque]
pub open spec fn min_div_in_neg() -> Rule {
    rule_if(
        "min-div-in-neg"@,
        e_div(e_max(vx(), vy()), vz()),
        e_min(e_div(vx(), vz()), e_div(vy(), vz())),
        Guard::ConstNeg(nz()),
    )
}

#[verifier::opaque]
pub open spec fn min_div_out_neg() -> Rule {
    rule_if(
        "min-div-out-neg"@,
        e_min(e_div(vx(), vz()), e_div(vy(), vz())),
        e_div(e_max(vx(), vy()), vz()),
        Guard::ConstNeg(nz()),
    )
}

#[verifier::opaque]
pub open spec fn min_max_const() -> Rule {
    rule_if(
        "min-max-const"@,
        e_min(e_max(vx(), vc0()), vc1()),
        vc1(),
        Guard::Compare(nc1(), nc0(), Some(Comparator::Le)),
    )
}

#[verifier::opaque]
pub open spec fn min_div_mul() -> Rule {
    rule_if(
        "min-div-mul"@,
        e_min(e_mul(e_div(vx(), vc0()), vc0()), vx()),
        e_mul(e_div(vx(), vc0()), vc0()),
        Guard::ConstPos(nc0()),
    )
}

#[verifier::opaque]
pub open spec fn min_mod_const_to_mod() -> Rule {
    rule_if(
        "min-mod-const-to-mod"@,
        e_min(e_mod(vx(), vc0()), vc1()),
        e_mod(vx(), vc0()),
        Guard::Compare(nc1(), nc0(), Some(Comparator::GeAbsMinusOne)),
    )
}

#[verifier::opaque]
pub open spec fn min_mod_const_to_const() -> Rule {
    rule_if(
        "min-mod-const-to-const"@,
        e_min(e_mod(vx(), vc0()), vc1()),
        vc1(),
        Guard::Compare(nc1(), nc0(), Some(Comparator::LeOneMinusAbs)),
    )
}

#[verifier::opaque]
pub open spec fn min_max_switch() -> Rule {
    rule_if(
        "min-max-switch"@,
        e_min(e_max(vx(), vc0()), vc1()),
        e_max(e_min(vx(), vc1()), vc0()),
        Guard::Compare(nc0(), nc1(), Some(Comparator::Le)),
    )
}

#[verifier::opaque]
pub open spec fn max_min_switch() -> Rule {
    rule_if(
        "max-min-switch"@,
        e_max(e_min(vx(), vc1()), vc0()),
        e_min(e_max(vx(), vc0()), vc1()),
        Guard::Compare(nc0(), nc1(), Some(Comparator::Le)),
    )
}

#[verifier::opaque]
pub open spec fn min_consts_or() -> Rule {
    rule(
        "min-consts-or"@,
        e_lt(e_min(vy(), vc0()), vc1()),
        e_or(e_lt(vy(), vc1()), e_lt(vc0(), vc1())),
    )
}

#[verifier::opaque]
pub open spec fn max_consts_and() -> Rule {
    rule(
        "max-consts-and"@,
        e_lt(e_max(vy(), vc0()), vc1()),
        e_and(e_lt(vy(), vc1()), e_lt(vc0(), vc1())),
    )
}

#[verifier::opaque]
pub open spec fn max_consts_or() -> Rule {
    rule(
        "max-consts-or"@,
        e_lt(vc1(), e_max(vy(), vc0())),
        e_or(e_lt(vc1(), vy()), e_lt(vc1(), vc0())),
    )
}

#[verifier::opaque]
pub open spec fn min_consts_div_pos() -> Rule {
    rule_if(
        "min-consts-div-pos"@,
        e_min(e_mul(vx(), va()), vb()),
        e_mul(e_min(vx(), e_div(vb(), va())), va()),
        Guard::Compare(nb(), na(), Some(Comparator::MultipleOfPos)),
    )
}

#[verifier::opaque]
pub open spec fn min_min_div_pos() -> Rule {
    rule_if(
        "min-min-div-pos"@,
        e_min(e_mul(vx(), va()), e_mul(vy(), vb())),
        e_mul(e_min(vx(), e_mul(vy(), e_div(vb(), va()))), va()),
        Guard::Compare(nb(), na(), Some(Comparator::MultipleOfPos)),
    )
}

#[verifier::opaque]
pub open spec fn min_consts_div_neg() -> Rule {
    rule_if(
        "min-consts-div-neg"@,
        e_min(e_mul(vx(), va()), vb()),
        e_mul(e_max(vx(), e_div(vb(), va())), va()),
        Guard::Compare(nb(), na(), Some(Comparator::MultipleOfNeg)),
    )
}

#[verifier::opaque]
pub open spec fn min_min_div_neg() -> Rule {
    rule_if(
        "min-min-div-neg"@,
        e_min(e_mul(vx(), va()), e_mul(vy(), vb())),
        e_mul(e_max(vx(), e_mul(vy(), e_div(vb(), va()))), va()),
        Guard::Compare(nb(), na(), Some(Comparator::MultipleOfNeg)),
    )
}

/// The rules of minimum.
pub open spec fn min_rules() -> Seq<Rule> {
    seq![
        min_comm(),
        min_ass(),
        min_x_x(),
        min_max(),
        min_max_max_x(),
        min_max_min_y(),
        min_sub_both(),
        min_add_both(),
        min_x_x_plus_a_pos(),
        min_x_x_plus_a_neg(),
        min_mul_in_pos(),
        min_mul_out_pos(),
        min_mul_in_neg(),
        min_mul_out_neg(),
        min_div_in_pos(),
        min_div_out_pos(),
        min_div_in_neg(),
        min_div_out_neg(),
        min_max_const(),
        min_div_mul(),
        min_mod_const_to_mod(),
        min_mod_const_to_const(),
        min_max_switch(),
        max_min_switch(),
        min_consts_or(),
        max_consts_and(),
        max_consts_or(),
        min_consts_div_pos(),
        min_min_div_pos(),
        min_consts_div_neg(),
        min_min_div_neg(),
    ]
}

proof fn min_comm_is_written()
    ensures
        is_written(min_comm(), "min-comm"@, "(min ?a ?b)"@, "(min ?b ?a)"@, Guard::Always),
{
    reveal(min_comm);
    reveal(is_written);
    reveal_with_fuel(text, 5);
    reveal_with_fuel(is_writable, 5);
    lemma_variables();
    reveal_strlit("(min ?a ?b)");
    reveal_strlit("(min ?b ?a)");
}

proof fn min_ass_is_written()
    ensures
        is_written(
            min_ass(),
            "min-ass"@,
            "(min (min ?x ?y) ?z)"@,
            "(min ?x (min ?y ?z))"@,
            Guard::Always,
        ),
{
    reveal(min_ass);
    reveal(is_written);
    reveal_with_fuel(text, 5);
    reveal_with_fuel(is_writable, 5);
    lemma_variables();
    reveal_strlit("(min (min ?x ?y) ?z)");
    reveal_strlit("(min ?x (min ?y ?z))");
}

proof fn min_x_x_is_written()
    ensures
        is_written(min_x_x(), "min-x-x"@, "(min ?x ?x)"@, "?x"@, Guard::Always),
{
    reveal(min_x_x);
    reveal(is_written);
    reveal_with_fuel(text, 5);
    reveal_with_fuel(is_writable, 5);
    lemma_variables();
    reveal_strlit("(min ?x ?x)");
    reveal_strlit("?x");
}

proof fn min_max_is_written()
    ensures
        is_written(min_max(), "min-max"@, "(min (max ?x ?y) ?x)"@, "?x"@, Guard::Always),
{
    reveal(min_max);
    reveal(is_written);
    reveal_with_fuel(text, 5);
    reveal_with_fuel(is_writable, 5);
    lemma_variables();
    reveal_strlit("(min (max ?x ?y) ?x)");
    reveal_strlit("?x");
}

proof fn min_max_max_x_is_written()
    ensures
        is_written(
            min_max_max_x(),
            "min-max-max-x"@,
            "(min (max ?x ?y) (max ?x ?z))"@,
            "(max (min ?y ?z) ?x)"@,
            Guard::Always,
        ),
{
    reveal(min_max_max_x);
    reveal(is_written);
    reveal_with_fuel(text, 5);
    reveal_with_fuel(is_writable, 5);
    lemma_variables();
    reveal_strlit("(min (max ?x ?y) (max ?x ?z))");
    reveal_strlit("(max (min ?y ?z) ?x)");
}

proof fn min_max_min_y_is_written()
    ensures
        is_written(
            min_max_min_y(),
            "min-max-min-y"@,
            "(min (max (min ?x ?y) ?z) ?y)"@,
            "(min (max ?x ?z) ?y)"@,
            Guard::Always,
        ),
{
    reveal(min_max_min_y);
    reveal(is_written);
    reveal_with_fuel(text, 5);
    reveal_with_fuel(is_writable, 5);
    lemma_variables();
    reveal_strlit("(min (max (min ?x ?y) ?z) ?y)");
    reveal_strlit("(min (max ?x ?z) ?y)");
}

proof fn min_sub_both_is_written()
    ensures
        is_written(
            min_sub_both(),
            "min-sub-both"@,
            "(min (+ ?a ?b) ?c)"@,
            "(+ (min ?b (- ?c ?a)) ?a)"@,
            Guard::Always,
        ),
{
    reveal(min_sub_both);
    reveal(is_written);
    reveal_with_fuel(text, 5);
    reveal_with_fuel(is_writable, 5);
    lemma_variables();
    reveal_strlit("(min (+ ?a ?b) ?c)");
    reveal_strlit("(+ (min ?b (- ?c ?a)) ?a)");
}

proof fn min_add_both_is_written()
    ensures
        is_written(
            min_add_both(),
            "min-add-both"@,
            "(+ (min ?x ?y) ?z)"@,
            "(min (+ ?x ?z) (+ ?y ?z))"@,
            Guard::Always,
        ),
{
    reveal(min_add_both);
    reveal(is_written);
    reveal_with_fuel(text, 5);
    reveal_with_fuel(is_writable, 5);
    lemma_variables();
    reveal_strlit("(+ (min ?x ?y) ?z)");
    reveal_strlit("(min (+ ?x ?z) (+ ?y ?z))");
}

proof fn min_x_x_plus_a_pos_is_written()
    ensures
        is_written(
            min_x_x_plus_a_pos(),
            "min-x-x-plus-a-pos"@,
            "(min ?x (+ ?x ?a))"@,
            "?x"@,
            Guard::ConstPos("?a"@),
        ),
{
    reveal(min_x_x_plus_a_pos);
    reveal(is_written);
    reveal_with_fuel(text, 5);
    reveal_with_fuel(is_writable, 5);
    lemma_variables();
    reveal_strlit("(min ?x (+ ?x ?a))");
    reveal_strlit("?x");
}

proof fn min_x_x_plus_a_neg_is_written()
    ensures
        is_written(
            min_x_x_plus_a_neg(),
            "min-x-x-plus-a-neg"@,
            "(min ?x (+ ?x ?a))"@,
            "(+ ?x ?a)"@,
            Guard::ConstNeg("?a"@),
        ),
{
    reveal(min_x_x_plus_a_neg);
    reveal(is_written);
    reveal_with_fuel(text, 5);
    reveal_with_fuel(is_writable, 5);
    lemma_variables();
    reveal_strlit("(min ?x (+ ?x ?a))");
    reveal_strlit("(+ ?x ?a)");
}

proof fn min_mul_in_pos_is_written()
    ensures
        is_written(
            min_mul_in_pos(),
            "min-mul-in-pos"@,
            "(* (min ?x ?y) ?z)"@,
            "(min (* ?x ?z) (* ?y ?z))"@,
            Guard::ConstPos("?z"@),
        ),
{
    reveal(min_mul_in_pos);
    reveal(is_written);
    reveal_with_fuel(text, 5);
    reveal_with_fuel(is_writable, 5);
    lemma_variables();
    reveal_strlit("(* (min ?x ?y) ?z)");
    reveal_strlit("(min (* ?x ?z) (* ?y ?z))");
}

proof fn min_mul_out_pos_is_written()
    ensures
        is_written(
            min_mul_out_pos(),
            "min-mul-out-pos"@,
            "(min (* ?x ?z) (* ?y ?z))"@,
            "(* (min ?x ?y) ?z)"@,
            Guard::ConstPos("?z"@),
        ),
{
    reveal(min_mul_out_pos);
    reveal(is_written);
    reveal_with_fuel(text, 5);
    reveal_with_fuel(is_writable, 5);
    lemma_variables();
    reveal_strlit("(min (* ?x ?z) (* ?y ?z))");
    reveal_strlit("(* (min ?x ?y) ?z)");
}

proof fn min_mul_in_neg_is_written()
    ensures
        is_written(
            min_mul_in_neg(),
            "min-mul-in-neg"@,
            "(* (min ?x ?y) ?z)"@,
            "(max (* ?x ?z) (* ?y ?z))"@,
            Guard::ConstNeg("?z"@),
        ),
{
    reveal(min_mul_in_neg);
    reveal(is_written);
    reveal_with_fuel(text, 5);
    reveal_with_fuel(is_writable, 5);
    lemma_variables();
    reveal_strlit("(* (min ?x ?y) ?z)");
    reveal_strlit("(max (* ?x ?z) (* ?y ?z))");
}

proof fn min_mul_out_neg_is_written()
    ensures
        is_written(
            min_mul_out_neg(),
            "min-mul-out-neg"@,
            "(max (* ?x ?z) (* ?y ?z))"@,
            "(* (min ?x ?y) ?z)"@,
            Guard::ConstNeg("?z"@),
        ),
{
    reveal(min_mul_out_neg);
    reveal(is_written);
    reveal_with_fuel(text, 5);
    reveal_with_fuel(is_writable, 5);
    lemma_variables();
    reveal_strlit("(max (* ?x ?z) (* ?y ?z))");
    reveal_strlit("(* (min ?x ?y) ?z)");
}

proof fn min_div_in_pos_is_written()
    ensures
        is_written(
            min_div_in_pos(),
            "min-div-in-pos"@,
            "(/ (min ?x ?y) ?z)"@,
            "(min (/ ?x ?z) (/ ?y ?z))"@,
            Guard::ConstPos("?z"@),
        ),
{
    reveal(min_div_in_pos);
    reveal(is_written);
    reveal_with_fuel(text, 5);
    reveal_with_fuel(is_writable, 5);
    lemma_variables();
    reveal_strlit("(/ (min ?x ?y) ?z)");
    reveal_strlit("(min (/ ?x ?z) (/ ?y ?z))");
}

proof fn min_div_out_pos_is_written()
    ensures
        is_written(
            min_div_out_pos(),
            "min-div-out-pos"@,
            "(min (/ ?x ?z) (/ ?y ?z))"@,
            "(/ (min ?x ?y) ?z)"@,
            Guard::ConstPos("?z"@),
        ),
{
    reveal(min_div_out_pos);
    reveal(is_written);
    reveal_with_fuel(text, 5);
    reveal_with_fuel(is_writable, 5);
    lemma_variables();
    reveal_strlit("(min (/ ?x ?z) (/ ?y ?z))");
    reveal_strlit("(/ (min ?x ?y) ?z)");
}

proof fn min_div_in_neg_is_written()
    ensures
        is_written(
            min_div_in_neg(),
            "min-div-in-neg"@,
            "(/ (max ?x ?y) ?z)"@,
            "(min (/ ?x ?z) (/ ?y ?z))"@,
            Guard::ConstNeg("?z"@),
        ),
{
    reveal(min_div_in_neg);
    reveal(is_written);
    reveal_with_fuel(text, 5);
    reveal_with_fuel(is_writable, 5);
    lemma_variables();
    reveal_strlit("(/ (max ?x ?y) ?z)");
    reveal_strlit("(min (/ ?x ?z) (/ ?y ?z))");
}

proof fn min_div_out_neg_is_written()
    ensures
        is_written(
            min_div_out_neg(),
            "min-div-out-neg"@,
            "(min (/ ?x ?z) (/ ?y ?z))"@,
            "(/ (max ?x ?y) ?z)"@,
            Guard::ConstNeg("?z"@),
        ),
{
    reveal(min_div_out_neg);
    reveal(is_written);
    reveal_with_fuel(text, 5);
    reveal_with_fuel(is_writable, 5);
    lemma_variables();
    reveal_strlit("(min (/ ?x ?z) (/ ?y ?z))");
    reveal_strlit("(/ (max ?x ?y) ?z)");
}

proof fn min_max_const_is_written()
    ensures
        is_written(
            min_max_const(),
            "min-max-const"@,
            "(min (max ?x ?c0) ?c1)"@,
            "?c1"@,
            Guard::Compare("?c1"@, "?c0"@, comparator_of("<="@)),
        ),
{
    reveal(min_max_const);
    reveal(is_written);
    reveal_with_fuel(text, 5);
    reveal_with_fuel(is_writable, 5);
    lemma_variables();
    lemma_comparator_texts();
    reveal_strlit("(min (max ?x ?c0) ?c1)");
    reveal_strlit("?c1");
}

proof fn min_div_mul_is_written()
    ensures
        is_written(
            min_div_mul(),
            "min-div-mul"@,
            "(min (* (/ ?x ?c0) ?c0) ?x)"@,
            "(* (/ ?x ?c0) ?c0)"@,
            Guard::ConstPos("?c0"@),
        ),
{
    reveal(min_div_mul);
    reveal(is_written);
    reveal_with_fuel(text, 5);
    reveal_with_fuel(is_writable, 5);
    lemma_variables();
    reveal_strlit("(min (* (/ ?x ?c0) ?c0) ?x)");
    reveal_strlit("(* (/ ?x ?c0) ?c0)");
}

proof fn min_mod_const_to_mod_is_written()
    ensures
        is_written(
            min_mod_const_to_mod(),
            "min-mod-const-to-mod"@,
            "(min (% ?x ?c0) ?c1)"@,
            "(% ?x ?c0)"@,
            Guard::Compare("?c1"@, "?c0"@, comparator_of(">=a-1"@)),
        ),
{
    reveal(min_mod_const_to_mod);
    reveal(is_written);
    reveal_with_fuel(text, 5);
    reveal_with_fuel(is_writable, 5);
    lemma_variables();
    lemma_comparator_texts();
    reveal_strlit("(min (% ?x ?c0) ?c1)");
    reveal_strlit("(% ?x ?c0)");
}

proof fn min_mod_const_to_const_is_written()
    ensures
        is_written(
            min_mod_const_to_const(),
            "min-mod-const-to-const"@,
            "(min (% ?x ?c0) ?c1)"@,
            "?c1"@,
            Guard::Compare("?c1"@, "?c0"@, comparator_of("<=-a+1"@)),
        ),
{
    reveal(min_mod_const_to_const);
    reveal(is_written);
    reveal_with_fuel(text, 5);
    reveal_with_fuel(is_writable, 5);
    lemma_variables();
    lemma_comparator_texts();
    reveal_strlit("(min (% ?x ?c0) ?c1)");
    reveal_strlit("?c1");
}

proof fn min_max_switch_is_written()
    ensures
        is_written(
            min_max_switch(),
            "min-max-switch"@,
            "(min (max ?x ?c0) ?c1)"@,
            "(max (min ?x ?c1) ?c0)"@,
            Guard::Compare("?c0"@, "?c1"@, comparator_of("<="@)),
        ),
{
    reveal(min_max_switch);
    reveal(is_written);
    reveal_with_fuel(text, 5);
    reveal_with_fuel(is_writable, 5);
    lemma_variables();
    lemma_comparator_texts();
    reveal_strlit("(min (max ?x ?c0) ?c1)");
    reveal_strlit("(max (min ?x ?c1) ?c0)");
}

proof fn max_min_switch_is_written()
    ensures
        is_written(
            max_min_switch(),
            "max-min-switch"@,
            "(max (min ?x ?c1) ?c0)"@,
            "(min (max ?x ?c0) ?c1)"@,
            Guard::Compare("?c0"@, "?c1"@, comparator_of("<="@)),
        ),
{
    reveal(max_min_switch);
    reveal(is_written);
    reveal_with_fuel(text, 5);
    reveal_with_fuel(is_writable, 5);
    lemma_variables();
    lemma_comparator_texts();
    reveal_strlit("(max (min ?x ?c1) ?c0)");
    reveal_strlit("(min (max ?x ?c0) ?c1)");
}

proof fn min_consts_or_is_written()
    ensures
        is_written(
            min_consts_or(),
            "min-consts-or"@,
            "(< (min ?y ?c0) ?c1)"@,
            "(|| (< ?y ?c1) (< ?c0 ?c1))"@,
            Guard::Always,
        ),
{
    reveal(min_consts_or);
    reveal(is_written);
    reveal_with_fuel(text, 5);
    reveal_with_fuel(is_writable, 5);
    lemma_variables();
    reveal_strlit("(< (min ?y ?c0) ?c1)");
    reveal_strlit("(|| (< ?y ?c1) (< ?c0 ?c1))");
}

proof fn max_consts_and_is_written()
    ensures
        is_written(
            max_consts_and(),
            "max-consts-and"@,
            "(< (max ?y ?c0) ?c1)"@,
            "(&& (< ?y ?c1) (< ?c0 ?c1))"@,
            Guard::Always,
        ),
{
    reveal(max_consts_and);
    reveal(is_written);
    reveal_with_fuel(text, 5);
    reveal_with_fuel(is_writable, 5);
    lemma_variables();
    reveal_strlit("(< (max ?y ?c0) ?c1)");
    reveal_strlit("(&& (< ?y ?c1) (< ?c0 ?c1))");
}

proof fn max_consts_or_is_written()
    ensures
        is_written(
            max_consts_or(),
            "max-consts-or"@,
            "(< ?c1 (max ?y ?c0))"@,
            "(|| (< ?c1 ?y) (< ?c1 ?c0))"@,
            Guard::Always,
        ),
{
    reveal(max_consts_or);
    reveal(is_written);
    reveal_with_fuel(text, 5);
    reveal_with_fuel(is_writable, 5);
    lemma_variables();
    reveal_strlit("(< ?c1 (max ?y ?c0))");
    reveal_strlit("(|| (< ?c1 ?y) (< ?c1 ?c0))");
}

proof fn min_consts_div_pos_is_written()
    ensures
        is_written(
            min_consts_div_pos(),
            "min-consts-div-pos"@,
            "(min (* ?x ?a) ?b)"@,
            "(* (min ?x (/ ?b ?a)) ?a)"@,
            Guard::Compare("?b"@, "?a"@, comparator_of("%0<"@)),
        ),
{
    reveal(min_consts_div_pos);
    reveal(is_written);
    reveal_with_fuel(text, 5);
    reveal_with_fuel(is_writable, 5);
    lemma_variables();
    lemma_comparator_texts();
    reveal_strlit("(min (* ?x ?a) ?b)");
    reveal_strlit("(* (min ?x (/ ?b ?a)) ?a)");
}

proof fn min_min_div_pos_is_written()
    ensures
        is_written(
            min_min_div_pos(),
            "min-min-div-pos"@,
            "(min (* ?x ?a) (* ?y ?b))"@,
            "(* (min ?x (* ?y (/ ?b ?a))) ?a)"@,
            Guard::Compare("?b"@, "?a"@, comparator_of("%0<"@)),
        ),
{
    reveal(min_min_div_pos);
    reveal(is_written);
    reveal_with_fuel(text, 5);
    reveal_with_fuel(is_writable, 5);
    lemma_variables();
    lemma_comparator_texts();
    reveal_strlit("(min (* ?x ?a) (* ?y ?b))");
    reveal_strlit("(* (min ?x (* ?y (/ ?b ?a))) ?a)");
}

proof fn min_consts_div_neg_is_written()
    ensures
        is_written(
            min_consts_div_neg(),
            "min-consts-div-neg"@,
            "(min (* ?x ?a) ?b)"@,
            "(* (max ?x (/ ?b ?a)) ?a)"@,
            Guard::Compare("?b"@, "?a"@, comparator_of("%0>"@)),
        ),
{
    reveal(min_consts_div_neg);
    reveal(is_written);
    reveal_with_fuel(text, 5);
    reveal_with_fuel(is_writable, 5);
    lemma_variables();
    lemma_comparator_texts();
    reveal_strlit("(min (* ?x ?a) ?b)");
    reveal_strlit("(* (max ?x (/ ?b ?a)) ?a)");
}

proof fn min_min_div_neg_is_written()
    ensures
        is_written(
            min_min_div_neg(),
            "min-min-div-neg"@,
            "(min (* ?x ?a) (* ?y ?b))"@,
            "(* (max ?x (* ?y (/ ?b ?a))) ?a)"@,
            Guard::Compare("?b"@, "?a"@, comparator_of("%0>"@)),
        ),
{
    reveal(min_min_div_neg);
    reveal(is_written);
    reveal_with_fuel(text, 5);
    reveal_with_fuel(is_writable, 5);
    lemma_variables();
    lemma_comparator_texts();
    reveal_strlit("(min (* ?x ?a) (* ?y ?b))");
    reveal_strlit("(* (max ?x (* ?y (/ ?b ?a))) ?a)");
}

/// The rules of minimum.
pub fn sto_min() -> (r: Vec<StoRw>)
    ensures
        holds_rules(r@, min_rules()),
{
    proof {
        min_comm_is_written();
        min_ass_is_written();
        min_x_x_is_written();
        min_max_is_written();
        min_max_max_x_is_written();
        min_max_min_y_is_written();
        min_sub_both_is_written();
        min_add_both_is_written();
        min_x_x_plus_a_pos_is_written();
        min_x_x_plus_a_neg_is_written();
        min_mul_in_pos_is_written();
        min_mul_out_pos_is_written();
        min_mul_in_neg_is_written();
        min_mul_out_neg_is_written();
        min_div_in_pos_is_written();
        min_div_out_pos_is_written();
        min_div_in_neg_is_written();
        min_div_out_neg_is_written();
        min_max_const_is_written();
        min_div_mul_is_written();
        min_mod_const_to_mod_is_written();
        min_mod_const_to_const_is_written();
        min_max_switch_is_written();
        max_min_switch_is_written();
        min_consts_or_is_written();
        max_consts_and_is_written();
        max_consts_or_is_written();
        min_consts_div_pos_is_written();
        min_min_div_pos_is_written();
        min_consts_div_neg_is_written();
        min_min_div_neg_is_written();
        lemma_written_is_readable();
    }
    let rules: Vec<StoRw> = vec![
        sto_rw("min-comm", "(min ?a ?b)", "(min ?b ?a)"),
        sto_rw("min-ass", "(min (min ?x ?y) ?z)", "(min ?x (min ?y ?z))"),
        sto_rw("min-x-x", "(min ?x ?x)", "?x"),
        sto_rw("min-max", "(min (max ?x ?y) ?x)", "?x"),
        sto_rw("min-max-max-x", "(min (max ?x ?y) (max ?x ?z))", "(max (min ?y ?z) ?x)"),
        sto_rw("min-max-min-y", "(min (max (min ?x ?y) ?z) ?y)", "(min (max ?x ?z) ?y)"),
        sto_rw("min-sub-both", "(min (+ ?a ?b) ?c)", "(+ (min ?b (- ?c ?a)) ?a)"),
        sto_rw("min-add-both", "(+ (min ?x ?y) ?z)", "(min (+ ?x ?z) (+ ?y ?z))"),
        sto_rw_cond("min-x-x-plus-a-pos", "(min ?x (+ ?x ?a))", "?x", sto_is_const_pos("?a")),
        sto_rw_cond(
            "min-x-x-plus-a-neg",
            "(min ?x (+ ?x ?a))",
            "(+ ?x ?a)",
            sto_is_const_neg("?a"),
        ),
        sto_rw_cond(
            "min-mul-in-pos",
            "(* (min ?x ?y) ?z)",
            "(min (* ?x ?z) (* ?y ?z))",
            sto_is_const_pos("?z"),
        ),
        sto_rw_cond(
            "min-mul-out-pos",
            "(min (* ?x ?z) (* ?y ?z))",
            "(* (min ?x ?y) ?z)",
            sto_is_const_pos("?z"),
        ),
        sto_rw_cond(
            "min-mul-in-neg",
            "(* (min ?x ?y) ?z)",
            "(max (* ?x ?z) (* ?y ?z))",
            sto_is_const_neg("?z"),
        ),
        sto_rw_cond(
            "min-mul-out-neg",
            "(max (* ?x ?z) (* ?y ?z))",
            "(* (min ?x ?y) ?z)",
            sto_is_const_neg("?z"),
        ),
        sto_rw_cond(
            "min-div-in-pos",
            "(/ (min ?x ?y) ?z)",
            "(min (/ ?x ?z) (/ ?y ?z))",
            sto_is_const_pos("?z"),
        ),
        sto_rw_cond(
            "min-div-out-pos",
            "(min (/ ?x ?z) (/ ?y ?z))",
            "(/ (min ?x ?y) ?z)",
            sto_is_const_pos("?z"),
        ),
        sto_rw_cond(
            "min-div-in-neg",
            "(/ (max ?x ?y) ?z)",
            "(min (/ ?x ?z) (/ ?y ?z))",
            sto_is_const_neg("?z"),
        ),
        sto_rw_cond(
            "min-div-out-neg",
            "(min (/ ?x ?z) (/ ?y ?z))",
            "(/ (max ?x ?y) ?z)",
            sto_is_const_neg("?z"),
        ),
        sto_rw_cond(
            "min-max-const",
            "(min (max ?x ?c0) ?c1)",
            "?c1",
            sto_compare_c0_c1("?c1", "?c0", "<="),
        ),
        sto_rw_cond(
            "min-div-mul",
            "(min (* (/ ?x ?c0) ?c0) ?x)",
            "(* (/ ?x ?c0) ?c0)",
            sto_is_const_pos("?c0"),
        ),
        sto_rw_cond(
            "min-mod-const-to-mod",
            "(min (% ?x ?c0) ?c1)",
            "(% ?x ?c0)",
            sto_compare_c0_c1("?c1", "?c0", ">=a-1"),
        ),
        sto_rw_cond(
            "min-mod-const-to-const",
            "(min (% ?x ?c0) ?c1)",
            "?c1",
            sto_compare_c0_c1("?c1", "?c0", "<=-a+1"),
        ),
        sto_rw_cond(
            "min-max-switch",
            "(min (max ?x ?c0) ?c1)",
            "(max (min ?x ?c1) ?c0)",
            sto_compare_c0_c1("?c0", "?c1", "<="),
        ),
        sto_rw_cond(
            "max-min-switch",
            "(max (min ?x ?c1) ?c0)",
            "(min (max ?x ?c0) ?c1)",
            sto_compare_c0_c1("?c0", "?c1", "<="),
        ),
        sto_rw("min-consts-or", "(< (min ?y ?c0) ?c1)", "(|| (< ?y ?c1) (< ?c0 ?c1))"),
        sto_rw("max-consts-and", "(< (max ?y ?c0) ?c1)", "(&& (< ?y ?c1) (< ?c0 ?c1))"),
        sto_rw("max-consts-or", "(< ?c1 (max ?y ?c0))", "(|| (< ?c1 ?y) (< ?c1 ?c0))"),
        sto_rw_cond(
            "min-consts-div-pos",
            "(min (* ?x ?a) ?b)",
            "(* (min ?x (/ ?b ?a)) ?a)",
            sto_compare_c0_c1("?b", "?a", "%0<"),
        ),
        sto_rw_cond(
            "min-min-div-pos",
            "(min (* ?x ?a) (* ?y ?b))",
            "(* (min ?x (* ?y (/ ?b ?a))) ?a)",
            sto_compare_c0_c1("?b", "?a", "%0<"),
        ),
        sto_rw_cond(
            "min-consts-div-neg",
            "(min (* ?x ?a) ?b)",
            "(* (max ?x (/ ?b ?a)) ?a)",
            sto_compare_c0_c1("?b", "?a", "%0>"),
        ),
        sto_rw_cond(
            "min-min-div-neg",
            "(min (* ?x ?a) (* ?y ?b))",
            "(* (max ?x (* ?y (/ ?b ?a))) ?a)",
            sto_compare_c0_c1("?b", "?a", "%0>"),
        ),
    ];
    proof {
        lemma_holds_rules(rules@, min_rules());
    }
    rules
}

/// The rules of minimum speak of nothing but constants and the variables that a
/// match binds.
pub proof fn law_minimum_is_closed(rule: Rule)
    requires
        min_rules().contains(rule),
    ensures
        is_closed(rule),
{
    assert(is_closed(min_comm())) by {
        reveal(min_comm);
        reveal_with_fuel(mentions, 5);
        reveal_with_fuel(is_symbol_free, 5);
    }
    assert(is_closed(min_ass())) by {
        reveal(min_ass);
        reveal_with_fuel(mentions, 5);
        reveal_with_fuel(is_symbol_free, 5);
    }
    assert(is_closed(min_x_x())) by {
        reveal(min_x_x);
        reveal_with_fuel(mentions, 5);
        reveal_with_fuel(is_symbol_free, 5);
    }
    assert(is_closed(min_max())) by {
        reveal(min_max);
        reveal_with_fuel(mentions, 5);
        reveal_with_fuel(is_symbol_free, 5);
    }
    assert(is_closed(min_max_max_x())) by {
        reveal(min_max_max_x);
        reveal_with_fuel(mentions, 5);
        reveal_with_fuel(is_symbol_free, 5);
    }
    assert(is_closed(min_max_min_y())) by {
        reveal(min_max_min_y);
        reveal_with_fuel(mentions, 5);
        reveal_with_fuel(is_symbol_free, 5);
    }
    assert(is_closed(min_sub_both())) by {
        reveal(min_sub_both);
        reveal_with_fuel(mentions, 5);
        reveal_with_fuel(is_symbol_free, 5);
    }
    assert(is_closed(min_add_both())) by {
        reveal(min_add_both);
        reveal_with_fuel(mentions, 5);
        reveal_with_fuel(is_symbol_free, 5);
    }
    assert(is_closed(min_x_x_plus_a_pos())) by {
        reveal(min_x_x_plus_a_pos);
        reveal_with_fuel(mentions, 5);
        reveal_with_fuel(is_symbol_free, 5);
    }
    assert(is_closed(min_x_x_plus_a_neg())) by {
        reveal(min_x_x_plus_a_neg);
        reveal_with_fuel(mentions, 5);
        reveal_with_fuel(is_symbol_free, 5);
    }
    assert(is_closed(min_mul_in_pos())) by {
        reveal(min_mul_in_pos);
        reveal_with_fuel(mentions, 5);
        reveal_with_fuel(is_symbol_free, 5);
    }
    assert(is_closed(min_mul_out_pos())) by {
        reveal(min_mul_out_pos);
        reveal_with_fuel(mentions, 5);
        reveal_with_fuel(is_symbol_free, 5);
    }
    assert(is_closed(min_mul_in_neg())) by {
        reveal(min_mul_in_neg);
        reveal_with_fuel(mentions, 5);
        reveal_with_fuel(is_symbol_free, 5);
    }
    assert(is_closed(min_mul_out_neg())) by {
        reveal(min_mul_out_neg);
        reveal_with_fuel(mentions, 5);
        reveal_with_fuel(is_symbol_free, 5);
    }
    assert(is_closed(min_div_in_pos())) by {
        reveal(min_div_in_pos);
        reveal_with_fuel(mentions, 5);
        reveal_with_fuel(is_symbol_free, 5);
    }
    assert(is_closed(min_div_out_pos())) by {
        reveal(min_div_out_pos);
        reveal_with_fuel(mentions, 5);
        reveal_with_fuel(is_symbol_free, 5);
    }
    assert(is_closed(min_div_in_neg())) by {
        reveal(min_div_in_neg);
        reveal_with_fuel(mentions, 5);
        reveal_with_fuel(is_symbol_free, 5);
    }
    assert(is_closed(min_div_out_neg())) by {
        reveal(min_div_out_neg);
        reveal_with_fuel(mentions, 5);
        reveal_with_fuel(is_symbol_free, 5);
    }
    assert(is_closed(min_max_const())) by {
        reveal(min_max_const);
        reveal_with_fuel(mentions, 5);
        reveal_with_fuel(is_symbol_free, 5);
    }
    assert(is_closed(min_div_mul())) by {
        reveal(min_div_mul);
        reveal_with_fuel(mentions, 5);
        reveal_with_fuel(is_symbol_free, 5);
    }
    assert(is_closed(min_mod_const_to_mod())) by {
        reveal(min_mod_const_to_mod);
        reveal_with_fuel(mentions, 5);
        reveal_with_fuel(is_symbol_free, 5);
    }
    assert(is_closed(min_mod_const_to_const())) by {
        reveal(min_mod_const_to_const);
        reveal_with_fuel(mentions, 5);
        reveal_with_fuel(is_symbol_free, 5);
    }
    assert(is_closed(min_max_switch())) by {
        reveal(min_max_switch);
        reveal_with_fuel(mentions, 5);
        reveal_with_fuel(is_symbol_free, 5);
    }
    assert(is_closed(max_min_switch())) by {
        reveal(max_min_switch);
        reveal_with_fuel(mentions, 5);
        reveal_with_fuel(is_symbol_free, 5);
    }
    assert(is_closed(min_consts_or())) by {
        reveal(min_consts_or);
        reveal_with_fuel(mentions, 5);
        reveal_with_fuel(is_symbol_free, 5);
    }
    assert(is_closed(max_consts_and())) by {
        reveal(max_consts_and);
        reveal_with_fuel(mentions, 5);
        reveal_with_fuel(is_symbol_free, 5);
    }
    assert(is_closed(max_consts_or())) by {
        reveal(max_consts_or);
        reveal_with_fuel(mentions, 5);
        reveal_with_fuel(is_symbol_free, 5);
    }
    assert(is_closed(min_consts_div_pos())) by {
        reveal(min_consts_div_pos);
        reveal_with_fuel(mentions, 5);
        reveal_with_fuel(is_symbol_free, 5);
    }
    assert(is_closed(min_min_div_pos())) by {
        reveal(min_min_div_pos);
        reveal_with_fuel(mentions, 5);
        reveal_with_fuel(is_symbol_free, 5);
    }
    assert(is_closed(min_consts_div_neg())) by {
        reveal(min_consts_div_neg);
        reveal_with_fuel(mentions, 5);
        reveal_with_fuel(is_symbol_free, 5);
    }
    assert(is_closed(min_min_div_neg())) by {
        reveal(min_min_div_neg);
        reveal_with_fuel(mentions, 5);
        reveal_with_fuel(is_symbol_free, 5);
    }
}

/// Where the rules of minimum keep the value.
pub open spec fn minimum_holds_at(rule: Rule, env: spec_fn(Seq<char>) -> int) -> bool {
    &&& rule == min_div_mul() ==> min_div_mul_holds_at(env)
}

/// `min-div-mul` keeps the value for a number that is not negative, or without a
/// remainder.
pub open spec fn min_div_mul_holds_at(env: spec_fn(Seq<char>) -> int) -> bool {
    let x = env(nx());
    let c0 = env(nc0());
    x >= 0 || rem(x, c0) == 0
}

proof fn min_comm_keeps_value(env: spec_fn(Seq<char>) -> int)
    ensures
        preserves_value(min_comm(), env),
{
    reveal(min_comm);
    reveal_with_fuel(value, 5);
}

proof fn min_ass_keeps_value(env: spec_fn(Seq<char>) -> int)
    ensures
        preserves_value(min_ass(), env),
{
    reveal(min_ass);
    reveal_with_fuel(value, 5);
}

proof fn min_x_x_keeps_value(env: spec_fn(Seq<char>) -> int)
    ensures
        preserves_value(min_x_x(), env),
{
    reveal(min_x_x);
    reveal_with_fuel(value, 5);
}

proof fn min_max_keeps_value(env: spec_fn(Seq<char>) -> int)
    ensures
        preserves_value(min_max(), env),
{
    reveal(min_max);
    reveal_with_fuel(value, 5);
}

proof fn min_max_max_x_keeps_value(env: spec_fn(Seq<char>) -> int)
    ensures
        preserves_value(min_max_max_x(), env),
{
    reveal(min_max_max_x);
    reveal_with_fuel(value, 5);
}

proof fn min_max_min_y_keeps_value(env: spec_fn(Seq<char>) -> int)
    ensures
        preserves_value(min_max_min_y(), env),
{
    reveal(min_max_min_y);
    reveal_with_fuel(value, 5);
}

proof fn min_sub_both_keeps_value(env: spec_fn(Seq<char>) -> int)
    ensures
        preserves_value(min_sub_both(), env),
{
    reveal(min_sub_both);
    reveal_with_fuel(value, 5);
}

proof fn min_add_both_keeps_value(env: spec_fn(Seq<char>) -> int)
    ensures
        preserves_value(min_add_both(), env),
{
    reveal(min_add_both);
    reveal_with_fuel(value, 5);
}

proof fn min_x_x_plus_a_pos_keeps_value(env: spec_fn(Seq<char>) -> int)
    requires
        guard_allows(min_x_x_plus_a_pos().guard, env),
    ensures
        preserves_value(min_x_x_plus_a_pos(), env),
{
    reveal(min_x_x_plus_a_pos);
    reveal_with_fuel(value, 5);
}

proof fn min_x_x_plus_a_neg_keeps_value(env: spec_fn(Seq<char>) -> int)
    requires
        guard_allows(min_x_x_plus_a_neg().guard, env),
    ensures
        preserves_value(min_x_x_plus_a_neg(), env),
{
    reveal(min_x_x_plus_a_neg);
    reveal_with_fuel(value, 5);
}

proof fn min_mul_in_pos_keeps_value(env: spec_fn(Seq<char>) -> int)
    requires
        guard_allows(min_mul_in_pos().guard, env),
    ensures
        preserves_value(min_mul_in_pos(), env),
{
    reveal(min_mul_in_pos);
    reveal_with_fuel(value, 5);
    let x: int = env(nx());
    let y: int = env(ny());
    let z: int = env(nz());
    if x <= y {
        assert(x * z <= y * z) by (nonlinear_arith)
            requires
                x <= y,
                z > 0,
        ;
    } else {
        assert(y * z < x * z) by (nonlinear_arith)
            requires
                y < x,
                z > 0,
        ;
    }
}

proof fn min_mul_out_pos_keeps_value(env: spec_fn(Seq<char>) -> int)
    requires
        guard_allows(min_mul_out_pos().guard, env),
    ensures
        preserves_value(min_mul_out_pos(), env),
{
    reveal(min_mul_out_pos);
    reveal_with_fuel(value, 5);
    let x: int = env(nx());
    let y: int = env(ny());
    let z: int = env(nz());
    if x <= y {
        assert(x * z <= y * z) by (nonlinear_arith)
            requires
                x <= y,
                z > 0,
        ;
    } else {
        assert(y * z < x * z) by (nonlinear_arith)
            requires
                y < x,
                z > 0,
        ;
    }
}

proof fn min_mul_in_neg_keeps_value(env: spec_fn(Seq<char>) -> int)
    requires
        guard_allows(min_mul_in_neg().guard, env),
    ensures
        preserves_value(min_mul_in_neg(), env),
{
    reveal(min_mul_in_neg);
    reveal_with_fuel(value, 5);
    let x: int = env(nx());
    let y: int = env(ny());
    let z: int = env(nz());
    if x <= y {
        assert(y * z <= x * z) by (nonlinear_arith)
            requires
                x <= y,
                z < 0,
        ;
    } else {
        assert(x * z < y * z) by (nonlinear_arith)
            requires
                y < x,
                z < 0,
        ;
    }
}

proof fn min_mul_out_neg_keeps_value(env: spec_fn(Seq<char>) -> int)
    requires
        guard_allows(min_mul_out_neg().guard, env),
    ensures
        preserves_value(min_mul_out_neg(), env),
{
    reveal(min_mul_out_neg);
    reveal_with_fuel(value, 5);
    let x: int = env(nx());
    let y: int = env(ny());
    let z: int = env(nz());
    if x <= y {
        assert(y * z <= x * z) by (nonlinear_arith)
            requires
                x <= y,
                z < 0,
        ;
    } else {
        assert(x * z < y * z) by (nonlinear_arith)
            requires
                y < x,
                z < 0,
        ;
    }
}

proof fn min_div_in_pos_keeps_value(env: spec_fn(Seq<char>) -> int)
    requires
        guard_allows(min_div_in_pos().guard, env),
    ensures
        preserves_value(min_div_in_pos(), env),
{
    reveal(min_div_in_pos);
    reveal_with_fuel(value, 5);
    let x: int = env(nx());
    let y: int = env(ny());
    let z: int = env(nz());
    if x <= y {
        lemma_quot_keeps_order(x, y, z);
    } else {
        lemma_quot_keeps_order(y, x, z);
    }
}

proof fn min_div_out_pos_keeps_value(env: spec_fn(Seq<char>) -> int)
    requires
        guard_allows(min_div_out_pos().guard, env),
    ensures
        preserves_value(min_div_out_pos(), env),
{
    reveal(min_div_out_pos);
    reveal_with_fuel(value, 5);
    let x: int = env(nx());
    let y: int = env(ny());
    let z: int = env(nz());
    if x <= y {
        lemma_quot_keeps_order(x, y, z);
    } else {
        lemma_quot_keeps_order(y, x, z);
    }
}

proof fn min_div_in_neg_keeps_value(env: spec_fn(Seq<char>) -> int)
    requires
        guard_allows(min_div_in_neg().guard, env),
    ensures
        preserves_value(min_div_in_neg(), env),
{
    reveal(min_div_in_neg);
    reveal_with_fuel(value, 5);
    let x: int = env(nx());
    let y: int = env(ny());
    let z: int = env(nz());
    lemma_quot_rem_negate(x, -z);
    lemma_quot_rem_negate(y, -z);
    if x <= y {
        lemma_quot_keeps_order(x, y, -z);
    } else {
        lemma_quot_keeps_order(y, x, -z);
    }
}

proof fn min_div_out_neg_keeps_value(env: spec_fn(Seq<char>) -> int)
    requires
        guard_allows(min_div_out_neg().guard, env),
    ensures
        preserves_value(min_div_out_neg(), env),
{
    reveal(min_div_out_neg);
    reveal_with_fuel(value, 5);
    let x: int = env(nx());
    let y: int = env(ny());
    let z: int = env(nz());
    lemma_quot_rem_negate(x, -z);
    lemma_quot_rem_negate(y, -z);
    if x <= y {
        lemma_quot_keeps_order(x, y, -z);
    } else {
        lemma_quot_keeps_order(y, x, -z);
    }
}

proof fn min_max_const_keeps_value(env: spec_fn(Seq<char>) -> int)
    requires
        guard_allows(min_max_const().guard, env),
    ensures
        preserves_value(min_max_const(), env),
{
    reveal(min_max_const);
    reveal_with_fuel(value, 5);
}

/// Where the left side of `min-div-mul` has a value, the right side has that value
/// exactly where [`min_div_mul_holds_at`] says.
pub proof fn law_min_div_mul(env: spec_fn(Seq<char>) -> int)
    requires
        guard_allows(min_div_mul().guard, env),
    ensures
        value(min_div_mul().lhs, env) is Some ==> (preserves_value(min_div_mul(), env)
            <==> min_div_mul_holds_at(env)),
{
    reveal(min_div_mul);
    reveal_with_fuel(value, 5);
    let x: int = env(nx());
    let c0: int = env(nc0());
    lemma_quot_rem(x, c0);
}

proof fn min_mod_const_to_mod_keeps_value(env: spec_fn(Seq<char>) -> int)
    requires
        guard_allows(min_mod_const_to_mod().guard, env),
    ensures
        preserves_value(min_mod_const_to_mod(), env),
{
    reveal(min_mod_const_to_mod);
    reveal_with_fuel(value, 5);
    let x: int = env(nx());
    let c0: int = env(nc0());
    if c0 != 0 {
        lemma_quot_rem(x, c0);
    }
}

proof fn min_mod_const_to_const_keeps_value(env: spec_fn(Seq<char>) -> int)
    requires
        guard_allows(min_mod_const_to_const().guard, env),
    ensures
        preserves_value(min_mod_const_to_const(), env),
{
    reveal(min_mod_const_to_const);
    reveal_with_fuel(value, 5);
    let x: int = env(nx());
    let c0: int = env(nc0());
    if c0 != 0 {
        lemma_quot_rem(x, c0);
    }
}

proof fn min_max_switch_keeps_value(env: spec_fn(Seq<char>) -> int)
    requires
        guard_allows(min_max_switch().guard, env),
    ensures
        preserves_value(min_max_switch(), env),
{
    reveal(min_max_switch);
    reveal_with_fuel(value, 5);
}

proof fn max_min_switch_keeps_value(env: spec_fn(Seq<char>) -> int)
    requires
        guard_allows(max_min_switch().guard, env),
    ensures
        preserves_value(max_min_switch(), env),
{
    reveal(max_min_switch);
    reveal_with_fuel(value, 5);
}

proof fn min_consts_or_keeps_value(env: spec_fn(Seq<char>) -> int)
    ensures
        preserves_value(min_consts_or(), env),
{
    reveal(min_consts_or);
    reveal_with_fuel(value, 5);
}

proof fn max_consts_and_keeps_value(env: spec_fn(Seq<char>) -> int)
    ensures
        preserves_value(max_consts_and(), env),
{
    reveal(max_consts_and);
    reveal_with_fuel(value, 5);
}

proof fn max_consts_or_keeps_value(env: spec_fn(Seq<char>) -> int)
    ensures
        preserves_value(max_consts_or(), env),
{
    reveal(max_consts_or);
    reveal_with_fuel(value, 5);
}

proof fn min_consts_div_pos_keeps_value(env: spec_fn(Seq<char>) -> int)
    requires
        guard_allows(min_consts_div_pos().guard, env),
    ensures
        preserves_value(min_consts_div_pos(), env),
{
    reveal(min_consts_div_pos);
    reveal_with_fuel(value, 5);
    let a: int = env(na());
    let b: int = env(nb());
    let x: int = env(nx());
    lemma_quot_rem(b, a);
    let k: int = quot(b, a);
    if x <= k {
        assert(x * a <= k * a) by (nonlinear_arith)
            requires
                x <= k,
                a > 0,
        ;
    } else {
        assert(x * a >= k * a) by (nonlinear_arith)
            requires
                x > k,
                a > 0,
        ;
    }
}

proof fn min_min_div_pos_keeps_value(env: spec_fn(Seq<char>) -> int)
    requires
        guard_allows(min_min_div_pos().guard, env),
    ensures
        preserves_value(min_min_div_pos(), env),
{
    reveal(min_min_div_pos);
    reveal_with_fuel(value, 5);
    let a: int = env(na());
    let b: int = env(nb());
    let x: int = env(nx());
    let y: int = env(ny());
    lemma_quot_rem(b, a);
    let k: int = y * quot(b, a);
    assert(y * b == k * a) by (nonlinear_arith)
        requires
            b == quot(b, a) * a,
            k == y * quot(b, a),
    ;
    if x <= k {
        assert(x * a <= k * a) by (nonlinear_arith)
            requires
                x <= k,
                a > 0,
        ;
    } else {
        assert(x * a >= k * a) by (nonlinear_arith)
            requires
                x > k,
                a > 0,
        ;
    }
}

proof fn min_consts_div_neg_keeps_value(env: spec_fn(Seq<char>) -> int)
    requires
        guard_allows(min_consts_div_neg().guard, env),
    ensures
        preserves_value(min_consts_div_neg(), env),
{
    reveal(min_consts_div_neg);
    reveal_with_fuel(value, 5);
    let a: int = env(na());
    let b: int = env(nb());
    let x: int = env(nx());
    lemma_quot_rem(b, a);
    let k: int = quot(b, a);
    if x <= k {
        assert(x * a >= k * a) by (nonlinear_arith)
            requires
                x <= k,
                a < 0,
        ;
    } else {
        assert(x * a <= k * a) by (nonlinear_arith)
            requires
                x > k,
                a < 0,
        ;
    }
}

proof fn min_min_div_neg_keeps_value(env: spec_fn(Seq<char>) -> int)
    requires
        guard_allows(min_min_div_neg().guard, env),
    ensures
        preserves_value(min_min_div_neg(), env),
{
    reveal(min_min_div_neg);
    reveal_with_fuel(value, 5);
    let a: int = env(na());
    let b: int = env(nb());
    let x: int = env(nx());
    let y: int = env(ny());
    lemma_quot_rem(b, a);
    let k: int = y * quot(b, a);
    assert(y * b == k * a) by (nonlinear_arith)
        requires
            b == quot(b, a) * a,
            k == y * quot(b, a),
    ;
    if x <= k {
        assert(x * a >= k * a) by (nonlinear_arith)
            requires
                x <= k,
                a < 0,
        ;
    } else {
        assert(x * a <= k * a) by (nonlinear_arith)
            requires
                x > k,
                a < 0,
        ;
    }
}

/// The rules of minimum keep the value where [`minimum_holds_at`] says.
pub proof fn law_minimum_keeps_values(rule: Rule, env: spec_fn(Seq<char>) -> int)
    requires
        min_rules().contains(rule),
        guard_allows(rule.guard, env),
        minimum_holds_at(rule, env),
    ensures
        preserves_value(rule, env),
{
    if rule == min_comm() {
        min_comm_keeps_value(env);
    } else if rule == min_ass() {
        min_ass_keeps_value(env);
    } else if rule == min_x_x() {
        min_x_x_keeps_value(env);
    } else if rule == min_max() {
        min_max_keeps_value(env);
    } else if rule == min_max_max_x() {
        min_max_max_x_keeps_value(env);
    } else if rule == min_max_min_y() {
        min_max_min_y_keeps_value(env);
    } else if rule == min_sub_both() {
        min_sub_both_keeps_value(env);
    } else if rule == min_add_both() {
        min_add_both_keeps_value(env);
    } else if rule == min_x_x_plus_a_pos() {
        min_x_x_plus_a_pos_keeps_value(env);
    } else if rule == min_x_x_plus_a_neg() {
        min_x_x_plus_a_neg_keeps_value(env);
    } else if rule == min_mul_in_pos() {
        min_mul_in_pos_keeps_value(env);
    } else if rule == min_mul_out_pos() {
        min_mul_out_pos_keeps_value(env);
    } else if rule == min_mul_in_neg() {
        min_mul_in_neg_keeps_value(env);
    } else if rule == min_mul_out_neg() {
        min_mul_out_neg_keeps_value(env);
    } else if rule == min_div_in_pos() {
        min_div_in_pos_keeps_value(env);
    } else if rule == min_div_out_pos() {
        min_div_out_pos_keeps_value(env);
    } else if rule == min_div_in_neg() {
        min_div_in_neg_keeps_value(env);
    } else if rule == min_div_out_neg() {
        min_div_out_neg_keeps_value(env);
    } else if rule == min_max_const() {
        min_max_const_keeps_value(env);
    } else if rule == min_div_mul() {
        law_min_div_mul(env);
    } else if rule == min_mod_const_to_mod() {
        min_mod_const_to_mod_keeps_value(env);
    } else if rule == min_mod_const_to_const() {
        min_mod_const_to_const_keeps_value(env);
    } else if rule == min_max_switch() {
        min_max_switch_keeps_value(env);
    } else if rule == max_min_switch() {
        max_min_switch_keeps_value(env);
    } else if rule == min_consts_or() {
        min_consts_or_keeps_value(env);
    } else if rule == max_consts_and() {
        max_consts_and_keeps_value(env);
    } else if rule == max_consts_or() {
        max_consts_or_keeps_value(env);
    } else if rule == min_consts_div_pos() {
        min_consts_div_pos_keeps_value(env);
    } else if rule == min_min_div_pos() {
        min_min_div_pos_keeps_value(env);
    } else if rule == min_consts_div_neg() {
        min_consts_div_neg_keeps_value(env);
    } else if rule == min_min_div_neg() {
        min_min_div_neg_keeps_value(env);
    }
}

} // verus!
