//! The rules of strict order: what they are, how they are
//! written, and where they keep the value.
//!
//! The rules are opaque: `reveal` a rule to see its sides and its condition.

use vstd::prelude::*;

use crate::arith::{lemma_minus_one, lemma_multiple_at_most, lemma_quot_rem, quot, rem};
use crate::condition::{
    comparator_of, lemma_comparator_texts, sto_compare_c0_c1, sto_is_const_neg, sto_is_const_pos,
    Comparator, Guard,
};
use crate::expr::{is_writable, text};
use crate::rule::{
    e_add, e_div, e_gt, e_lt, e_max, e_min, e_mod, e_mul, e_sub, guard_allows, is_closed,
    is_symbol_free, lemma_variables, mentions, na, nb, nc0, num, nx, ny, nz, preserves_value, rule,
    rule_if, va, vb, vc, vc0, vx, vy, vz, Rule,
};
use crate::rules::{
    holds_rules, is_written, lemma_holds_rules, lemma_written_is_readable, sto_rw, sto_rw_cond,
    StoRw,
};
use crate::semantics::value;

verus! {

#[verifier::opaque]
pub open spec fn gt_to_lt() -> Rule {
    rule("gt-to-lt"@, e_gt(vx(), vz()), e_lt(vz(), vx()))
}

#[verifier::opaque]
pub open spec fn lt_swap() -> Rule {
    rule("lt-swap"@, e_lt(vx(), vy()), e_lt(e_mul(num(-1), vy()), e_mul(num(-1), vx())))
}

#[verifier::opaque]
pub open spec fn lt_to_zero() -> Rule {
    rule("lt-to-zero"@, e_lt(va(), va()), num(0))
}

#[verifier::opaque]
pub open spec fn lt_swap_in() -> Rule {
    rule("lt-swap-in"@, e_lt(e_add(vx(), vy()), vz()), e_lt(vx(), e_sub(vz(), vy())))
}

#[verifier::opaque]
pub open spec fn lt_swap_out() -> Rule {
    rule("lt-swap-out"@, e_lt(vz(), e_add(vx(), vy())), e_lt(e_sub(vz(), vy()), vx()))
}

#[verifier::opaque]
pub open spec fn lt_x_x_sub_a() -> Rule {
    rule_if("lt-x-x-sub-a"@, e_lt(e_sub(va(), vy()), va()), num(1), Guard::ConstPos(ny()))
}

#[verifier::opaque]
pub open spec fn lt_const_pos() -> Rule {
    rule_if("lt-const-pos"@, e_lt(num(0), vy()), num(1), Guard::ConstPos(ny()))
}

#[verifier::opaque]
pub open spec fn lt_const_neg() -> Rule {
    rule_if("lt-const-neg"@, e_lt(vy(), num(0)), num(1), Guard::ConstNeg(ny()))
}

#[verifier::opaque]
pub open spec fn min_lt_cancel() -> Rule {
    rule("min-lt-cancel"@, e_lt(e_min(vx(), vy()), vx()), e_lt(vy(), vx()))
}

#[verifier::opaque]
pub open spec fn lt_min_mutual_term() -> Rule {
    rule(
        "lt-min-mutual-term"@,
        e_lt(e_min(vz(), vy()), e_min(vx(), vy())),
        e_lt(vz(), e_min(vx(), vy())),
    )
}

#[verifier::opaque]
pub open spec fn lt_max_mutual_term() -> Rule {
    rule(
        "lt-max-mutual-term"@,
        e_lt(e_max(vz(), vy()), e_max(vx(), vy())),
        e_lt(e_max(vz(), vy()), vx()),
    )
}

#[verifier::opaque]
pub open spec fn lt_min_term_term_plus_pos() -> Rule {
    rule_if(
        "lt-min-term-term+pos"@,
        e_lt(e_min(vz(), vy()), e_min(vx(), e_add(vy(), vc0()))),
        e_lt(e_min(vz(), vy()), vx()),
        Guard::ConstPos(nc0()),
    )
}

#[verifier::opaque]
pub open spec fn lt_max_term_term_plus_pos() -> Rule {
    rule_if(
        "lt-max-term-term+pos"@,
        e_lt(e_max(vz(), e_add(vy(), vc0())), e_max(vx(), vy())),
        e_lt(e_max(vz(), e_add(vy(), vc0())), vx()),
        Guard::ConstPos(nc0()),
    )
}

#[verifier::opaque]
pub open spec fn lt_min_term_plus_neg_term() -> Rule {
    rule_if(
        "lt-min-term+neg-term"@,
        e_lt(e_min(vz(), e_add(vy(), vc0())), e_min(vx(), vy())),
        e_lt(e_min(vz(), e_add(vy(), vc0())), vx()),
        Guard::ConstNeg(nc0()),
    )
}

#[verifier::opaque]
pub open spec fn lt_max_term_plus_neg_term() -> Rule {
    rule_if(
        "lt-max-term+neg-term"@,
        e_lt(e_max(vz(), vy()), e_max(vx(), e_add(vy(), vc0()))),
        e_lt(e_max(vz(), vy()), vx()),
        Guard::ConstNeg(nc0()),
    )
}

#[verifier::opaque]
pub open spec fn lt_min_term_plus_cpos() -> Rule {
    rule_if(
        "lt-min-term+cpos"@,
        e_lt(e_min(vx(), vy()), e_add(vx(), vc0())),
        num(1),
        Guard::ConstPos(nc0()),
    )
}

#[verifier::opaque]
pub open spec fn lt_min_max_cancel() -> Rule {
    rule("lt-min-max-cancel"@, e_lt(e_max(va(), vc()), e_min(va(), vb())), num(0))
}

#[verifier::opaque]
pub open spec fn lt_mul_pos_cancel() -> Rule {
    rule_if(
        "lt-mul-pos-cancel"@,
        e_lt(e_mul(vx(), vy()), vz()),
        e_lt(vx(), e_div(e_sub(e_add(vz(), vy()), num(1)), vy())),
        Guard::ConstPos(ny()),
    )
}

#[verifier::opaque]
pub open spec fn lt_mul_div_cancel() -> Rule {
    rule_if(
        "lt-mul-div-cancel"@,
        e_lt(vy(), e_div(vx(), vz())),
        e_lt(e_sub(e_mul(e_add(vy(), num(1)), vz()), num(1)), vx()),
        Guard::ConstPos(nz()),
    )
}

#[verifier::opaque]
pub open spec fn lt_const_mod() -> Rule {
    rule_if(
        "lt-const-mod"@,
        e_lt(va(), e_mod(vx(), vb())),
        num(1),
        Guard::Compare(na(), nb(), Some(Comparator::LeNegAbs)),
    )
}

#[verifier::opaque]
pub open spec fn lt_const_mod_false() -> Rule {
    rule_if(
        "lt-const-mod-false"@,
        e_lt(va(), e_mod(vx(), vb())),
        num(0),
        Guard::Compare(na(), nb(), Some(Comparator::GeAbs)),
    )
}

/// The rules of strict order.
pub open spec fn lt_rules() -> Seq<Rule> {
    seq![
        gt_to_lt(),
        lt_swap(),
        lt_to_zero(),
        lt_swap_in(),
        lt_swap_out(),
        lt_x_x_sub_a(),
        lt_const_pos(),
        lt_const_neg(),
        min_lt_cancel(),
        lt_min_mutual_term(),
        lt_max_mutual_term(),
        lt_min_term_term_plus_pos(),
        lt_max_term_term_plus_pos(),
        lt_min_term_plus_neg_term(),
        lt_max_term_plus_neg_term(),
        lt_min_term_plus_cpos(),
        lt_min_max_cancel(),
        lt_mul_pos_cancel(),
        lt_mul_div_cancel(),
        lt_const_mod(),
        lt_const_mod_false(),
    ]
}

proof fn gt_to_lt_is_written()
    ensures
        is_written(gt_to_lt(), "gt-to-lt"@, "(> ?x ?z)"@, "(< ?z ?x)"@, Guard::Always),
{
    reveal(gt_to_lt);
    reveal(is_written);
    reveal_with_fuel(text, 5);
    reveal_with_fuel(is_writable, 5);
    lemma_variables();
    reveal_strlit("(> ?x ?z)");
    reveal_strlit("(< ?z ?x)");
}

proof fn lt_swap_is_written()
    ensures
        is_written(lt_swap(), "lt-swap"@, "(< ?x ?y)"@, "(< (* -1 ?y) (* -1 ?x))"@, Guard::Always),
{
    reveal(lt_swap);
    reveal(is_written);
    reveal_with_fuel(text, 5);
    reveal_with_fuel(is_writable, 5);
    lemma_variables();
    reveal_strlit("(< ?x ?y)");
    reveal_strlit("(< (* -1 ?y) (* -1 ?x))");
}

proof fn lt_to_zero_is_written()
    ensures
        is_written(lt_to_zero(), "lt-to-zero"@, "(< ?a ?a)"@, "0"@, Guard::Always),
{
    reveal(lt_to_zero);
    reveal(is_written);
    reveal_with_fuel(text, 5);
    reveal_with_fuel(is_writable, 5);
    lemma_variables();
    reveal_strlit("(< ?a ?a)");
    reveal_strlit("0");
}

proof fn lt_swap_in_is_written()
    ensures
        is_written(
            lt_swap_in(),
            "lt-swap-in"@,
            "(< (+ ?x ?y) ?z)"@,
            "(< ?x (- ?z ?y))"@,
            Guard::Always,
        ),
{
    reveal(lt_swap_in);
    reveal(is_written);
    reveal_with_fuel(text, 5);
    reveal_with_fuel(is_writable, 5);
    lemma_variables();
    reveal_strlit("(< (+ ?x ?y) ?z)");
    reveal_strlit("(< ?x (- ?z ?y))");
}

proof fn lt_swap_out_is_written()
    ensures
        is_written(
            lt_swap_out(),
            "lt-swap-out"@,
            "(< ?z (+ ?x ?y))"@,
            "(< (- ?z ?y) ?x)"@,
            Guard::Always,
        ),
{
    reveal(lt_swap_out);
    reveal(is_written);
    reveal_with_fuel(text, 5);
    reveal_with_fuel(is_writable, 5);
    lemma_variables();
    reveal_strlit("(< ?z (+ ?x ?y))");
    reveal_strlit("(< (- ?z ?y) ?x)");
}

proof fn lt_x_x_sub_a_is_written()
    ensures
        is_written(
            lt_x_x_sub_a(),
            "lt-x-x-sub-a"@,
            "(< (- ?a ?y) ?a)"@,
            "1"@,
            Guard::ConstPos("?y"@),
        ),
{
    reveal(lt_x_x_sub_a);
    reveal(is_written);
    reveal_with_fuel(text, 5);
    reveal_with_fuel(is_writable, 5);
    lemma_variables();
    reveal_strlit("(< (- ?a ?y) ?a)");
    reveal_strlit("1");
}

proof fn lt_const_pos_is_written()
    ensures
        is_written(lt_const_pos(), "lt-const-pos"@, "(< 0 ?y)"@, "1"@, Guard::ConstPos("?y"@)),
{
    reveal(lt_const_pos);
    reveal(is_written);
    reveal_with_fuel(text, 5);
    reveal_with_fuel(is_writable, 5);
    lemma_variables();
    reveal_strlit("(< 0 ?y)");
    reveal_strlit("1");
}

proof fn lt_const_neg_is_written()
    ensures
        is_written(lt_const_neg(), "lt-const-neg"@, "(< ?y 0)"@, "1"@, Guard::ConstNeg("?y"@)),
{
    reveal(lt_const_neg);
    reveal(is_written);
    reveal_with_fuel(text, 5);
    reveal_with_fuel(is_writable, 5);
    lemma_variables();
    reveal_strlit("(< ?y 0)");
    reveal_strlit("1");
}

proof fn min_lt_cancel_is_written()
    ensures
        is_written(
            min_lt_cancel(),
            "min-lt-cancel"@,
            "(< (min ?x ?y) ?x)"@,
            "(< ?y ?x)"@,
            Guard::Always,
        ),
{
    reveal(min_lt_cancel);
    reveal(is_written);
    reveal_with_fuel(text, 5);
    reveal_with_fuel(is_writable, 5);
    lemma_variables();
    reveal_strlit("(< (min ?x ?y) ?x)");
    reveal_strlit("(< ?y ?x)");
}

proof fn lt_min_mutual_term_is_written()
    ensures
        is_written(
            lt_min_mutual_term(),
            "lt-min-mutual-term"@,
            "(< (min ?z ?y) (min ?x ?y))"@,
            "(< ?z (min ?x ?y))"@,
            Guard::Always,
        ),
{
    reveal(lt_min_mutual_term);
    reveal(is_written);
    reveal_with_fuel(text, 5);
    reveal_with_fuel(is_writable, 5);
    lemma_variables();
    reveal_strlit("(< (min ?z ?y) (min ?x ?y))");
    reveal_strlit("(< ?z (min ?x ?y))");
}

proof fn lt_max_mutual_term_is_written()
    ensures
        is_written(
            lt_max_mutual_term(),
            "lt-max-mutual-term"@,
            "(< (max ?z ?y) (max ?x ?y))"@,
            "(< (max ?z ?y) ?x)"@,
            Guard::Always,
        ),
{
    reveal(lt_max_mutual_term);
    reveal(is_written);
    reveal_with_fuel(text, 5);
    reveal_with_fuel(is_writable, 5);
    lemma_variables();
    reveal_strlit("(< (max ?z ?y) (max ?x ?y))");
    reveal_strlit("(< (max ?z ?y) ?x)");
}

proof fn lt_min_term_term_plus_pos_is_written()
    ensures
        is_written(
            lt_min_term_term_plus_pos(),
            "lt-min-term-term+pos"@,
            "(< (min ?z ?y) (min ?x (+ ?y ?c0)))"@,
            "(< (min ?z ?y) ?x)"@,
            Guard::ConstPos("?c0"@),
        ),
{
    reveal(lt_min_term_term_plus_pos);
    reveal(is_written);
    reveal_with_fuel(text, 5);
    reveal_with_fuel(is_writable, 5);
    lemma_variables();
    reveal_strlit("(< (min ?z ?y) (min ?x (+ ?y ?c0)))");
    reveal_strlit("(< (min ?z ?y) ?x)");
}

proof fn lt_max_term_term_plus_pos_is_written()
    ensures
        is_written(
            lt_max_term_term_plus_pos(),
            "lt-max-term-term+pos"@,
            "(< (max ?z (+ ?y ?c0)) (max ?x ?y))"@,
            "(< (max ?z (+ ?y ?c0)) ?x)"@,
            Guard::ConstPos("?c0"@),
        ),
{
    reveal(lt_max_term_term_plus_pos);
    reveal(is_written);
    reveal_with_fuel(text, 5);
    reveal_with_fuel(is_writable, 5);
    lemma_variables();
    reveal_strlit("(< (max ?z (+ ?y ?c0)) (max ?x ?y))");
    reveal_strlit("(< (max ?z (+ ?y ?c0)) ?x)");
}

proof fn lt_min_term_plus_neg_term_is_written()
    ensures
        is_written(
            lt_min_term_plus_neg_term(),
            "lt-min-term+neg-term"@,
            "(< (min ?z (+ ?y ?c0)) (min ?x ?y))"@,
            "(< (min ?z (+ ?y ?c0)) ?x)"@,
            Guard::ConstNeg("?c0"@),
        ),
{
    reveal(lt_min_term_plus_neg_term);
    reveal(is_written);
    reveal_with_fuel(text, 5);
    reveal_with_fuel(is_writable, 5);
    lemma_variables();
    reveal_strlit("(< (min ?z (+ ?y ?c0)) (min ?x ?y))");
    reveal_strlit("(< (min ?z (+ ?y ?c0)) ?x)");
}

proof fn lt_max_term_plus_neg_term_is_written()
    ensures
        is_written(
            lt_max_term_plus_neg_term(),
            "lt-max-term+neg-term"@,
            "(< (max ?z ?y) (max ?x (+ ?y ?c0)))"@,
            "(< (max ?z ?y) ?x)"@,
            Guard::ConstNeg("?c0"@),
        ),
{
    reveal(lt_max_term_plus_neg_term);
    reveal(is_written);
    reveal_with_fuel(text, 5);
    reveal_with_fuel(is_writable, 5);
    lemma_variables();
    reveal_strlit("(< (max ?z ?y) (max ?x (+ ?y ?c0)))");
    reveal_strlit("(< (max ?z ?y) ?x)");
}

proof fn lt_min_term_plus_cpos_is_written()
    ensures
        is_written(
            lt_min_term_plus_cpos(),
            "lt-min-term+cpos"@,
            "(< (min ?x ?y) (+ ?x ?c0))"@,
            "1"@,
            Guard::ConstPos("?c0"@),
        ),
{
    reveal(lt_min_term_plus_cpos);
    reveal(is_written);
    reveal_with_fuel(text, 5);
    reveal_with_fuel(is_writable, 5);
    lemma_variables();
    reveal_strlit("(< (min ?x ?y) (+ ?x ?c0))");
    reveal_strlit("1");
}

proof fn lt_min_max_cancel_is_written()
    ensures
        is_written(
            lt_min_max_cancel(),
            "lt-min-max-cancel"@,
            "(< (max ?a ?c) (min ?a ?b))"@,
            "0"@,
            Guard::Always,
        ),
{
    reveal(lt_min_max_cancel);
    reveal(is_written);
    reveal_with_fuel(text, 5);
    reveal_with_fuel(is_writable, 5);
    lemma_variables();
    reveal_strlit("(< (max ?a ?c) (min ?a ?b))");
    reveal_strlit("0");
}

proof fn lt_mul_pos_cancel_is_written()
    ensures
        is_written(
            lt_mul_pos_cancel(),
            "lt-mul-pos-cancel"@,
            "(< (* ?x ?y) ?z)"@,
            "(< ?x (/ (- (+ ?z ?y) 1) ?y))"@,
            Guard::ConstPos("?y"@),
        ),
{
    reveal(lt_mul_pos_cancel);
    reveal(is_written);
    reveal_with_fuel(text, 5);
    reveal_with_fuel(is_writable, 5);
    lemma_variables();
    reveal_strlit("(< (* ?x ?y) ?z)");
    reveal_strlit("(< ?x (/ (- (+ ?z ?y) 1) ?y))");
}

proof fn lt_mul_div_cancel_is_written()
    ensures
        is_written(
            lt_mul_div_cancel(),
            "lt-mul-div-cancel"@,
            "(< ?y (/ ?x ?z))"@,
            "(< (- (* (+ ?y 1) ?z) 1) ?x)"@,
            Guard::ConstPos("?z"@),
        ),
{
    reveal(lt_mul_div_cancel);
    reveal(is_written);
    reveal_with_fuel(text, 5);
    reveal_with_fuel(is_writable, 5);
    lemma_variables();
    reveal_strlit("(< ?y (/ ?x ?z))");
    reveal_strlit("(< (- (* (+ ?y 1) ?z) 1) ?x)");
}

proof fn lt_const_mod_is_written()
    ensures
        is_written(
            lt_const_mod(),
            "lt-const-mod"@,
            "(< ?a (% ?x ?b))"@,
            "1"@,
            Guard::Compare("?a"@, "?b"@, comparator_of("<=-a"@)),
        ),
{
    reveal(lt_const_mod);
    reveal(is_written);
    reveal_with_fuel(text, 5);
    reveal_with_fuel(is_writable, 5);
    lemma_variables();
    lemma_comparator_texts();
    reveal_strlit("(< ?a (% ?x ?b))");
    reveal_strlit("1");
}

proof fn lt_const_mod_false_is_written()
    ensures
        is_written(
            lt_const_mod_false(),
            "lt-const-mod-false"@,
            "(< ?a (% ?x ?b))"@,
            "0"@,
            Guard::Compare("?a"@, "?b"@, comparator_of(">=a"@)),
        ),
{
    reveal(lt_const_mod_false);
    reveal(is_written);
    reveal_with_fuel(text, 5);
    reveal_with_fuel(is_writable, 5);
    lemma_variables();
    lemma_comparator_texts();
    reveal_strlit("(< ?a (% ?x ?b))");
    reveal_strlit("0");
}

/// The rules of strict order.
pub fn sto_lt() -> (r: Vec<StoRw>)
    ensures
        holds_rules(r@, lt_rules()),
{
    proof {
        gt_to_lt_is_written();
        lt_swap_is_written();
        lt_to_zero_is_written();
        lt_swap_in_is_written();
        lt_swap_out_is_written();
        lt_x_x_sub_a_is_written();
        lt_const_pos_is_written();
        lt_const_neg_is_written();
        min_lt_cancel_is_written();
        lt_min_mutual_term_is_written();
        lt_max_mutual_term_is_written();
        lt_min_term_term_plus_pos_is_written();
        lt_max_term_term_plus_pos_is_written();
        lt_min_term_plus_neg_term_is_written();
        lt_max_term_plus_neg_term_is_written();
        lt_min_term_plus_cpos_is_written();
        lt_min_max_cancel_is_written();
        lt_mul_pos_cancel_is_written();
        lt_mul_div_cancel_is_written();
        lt_const_mod_is_written();
        lt_const_mod_false_is_written();
        lemma_written_is_readable();
    }
    let rules: Vec<StoRw> = vec![
        sto_rw("gt-to-lt", "(> ?x ?z)", "(< ?z ?x)"),
        sto_rw("lt-swap", "(< ?x ?y)", "(< (* -1 ?y) (* -1 ?x))"),
        sto_rw("lt-to-zero", "(< ?a ?a)", "0"),
        sto_rw("lt-swap-in", "(< (+ ?x ?y) ?z)", "(< ?x (- ?z ?y))"),
        sto_rw("lt-swap-out", "(< ?z (+ ?x ?y))", "(< (- ?z ?y) ?x)"),
        sto_rw_cond("lt-x-x-sub-a", "(< (- ?a ?y) ?a)", "1", sto_is_const_pos("?y")),
        sto_rw_cond("lt-const-pos", "(< 0 ?y)", "1", sto_is_const_pos("?y")),
        sto_rw_cond("lt-const-neg", "(< ?y 0)", "1", sto_is_const_neg("?y")),
        sto_rw("min-lt-cancel", "(< (min ?x ?y) ?x)", "(< ?y ?x)"),
        sto_rw("lt-min-mutual-term", "(< (min ?z ?y) (min ?x ?y))", "(< ?z (min ?x ?y))"),
        sto_rw("lt-max-mutual-term", "(< (max ?z ?y) (max ?x ?y))", "(< (max ?z ?y) ?x)"),
        sto_rw_cond(
            "lt-min-term-term+pos",
            "(< (min ?z ?y) (min ?x (+ ?y ?c0)))",
            "(< (min ?z ?y) ?x)",
            sto_is_const_pos("?c0"),
        ),
        sto_rw_cond(
            "lt-max-term-term+pos",
            "(< (max ?z (+ ?y ?c0)) (max ?x ?y))",
            "(< (max ?z (+ ?y ?c0)) ?x)",
            sto_is_const_pos("?c0"),
        ),
        sto_rw_cond(
            "lt-min-term+neg-term",
            "(< (min ?z (+ ?y ?c0)) (min ?x ?y))",
            "(< (min ?z (+ ?y ?c0)) ?x)",
            sto_is_const_neg("?c0"),
        ),
        sto_rw_cond(
            "lt-max-term+neg-term",
            "(< (max ?z ?y) (max ?x (+ ?y ?c0)))",
            "(< (max ?z ?y) ?x)",
            sto_is_const_neg("?c0"),
        ),
        sto_rw_cond("lt-min-term+cpos", "(< (min ?x ?y) (+ ?x ?c0))", "1", sto_is_const_pos("?c0")),
        sto_rw("lt-min-max-cancel", "(< (max ?a ?c) (min ?a ?b))", "0"),
        sto_rw_cond(
            "lt-mul-pos-cancel",
            "(< (* ?x ?y) ?z)",
            "(< ?x (/ (- (+ ?z ?y) 1) ?y))",
            sto_is_const_pos("?y"),
        ),
        sto_rw_cond(
            "lt-mul-div-cancel",
            "(< ?y (/ ?x ?z))",
            "(< (- (* (+ ?y 1) ?z) 1) ?x)",
            sto_is_const_pos("?z"),
        ),
        sto_rw_cond("lt-const-mod", "(< ?a (% ?x ?b))", "1", sto_compare_c0_c1("?a", "?b", "<=-a")),
        sto_rw_cond(
            "lt-const-mod-false",
            "(< ?a (% ?x ?b))",
            "0",
            sto_compare_c0_c1("?a", "?b", ">=a"),
        ),
    ];
    proof {
        lemma_holds_rules(rules@, lt_rules());
    }
    rules
}

/// The rules of strict order speak of nothing but constants and the variables that
/// a match binds.
pub proof fn law_order_is_closed(rule: Rule)
    requires
        lt_rules().contains(rule),
    ensures
        is_closed(rule),
{
    assert(is_closed(gt_to_lt())) by {
        reveal(gt_to_lt);
        reveal_with_fuel(mentions, 5);
        reveal_with_fuel(is_symbol_free, 5);
    }
    assert(is_closed(lt_swap())) by {
        reveal(lt_swap);
        reveal_with_fuel(mentions, 5);
        reveal_with_fuel(is_symbol_free, 5);
    }
    assert(is_closed(lt_to_zero())) by {
        reveal(lt_to_zero);
        reveal_with_fuel(mentions, 5);
        reveal_with_fuel(is_symbol_free, 5);
    }
    assert(is_closed(lt_swap_in())) by {
        reveal(lt_swap_in);
        reveal_with_fuel(mentions, 5);
        reveal_with_fuel(is_symbol_free, 5);
    }
    assert(is_closed(lt_swap_out())) by {
        reveal(lt_swap_out);
        reveal_with_fuel(mentions, 5);
        reveal_with_fuel(is_symbol_free, 5);
    }
    assert(is_closed(lt_x_x_sub_a())) by {
        reveal(lt_x_x_sub_a);
        reveal_with_fuel(mentions, 5);
        reveal_with_fuel(is_symbol_free, 5);
    }
    assert(is_closed(lt_const_pos())) by {
        reveal(lt_const_pos);
        reveal_with_fuel(mentions, 5);
        reveal_with_fuel(is_symbol_free, 5);
    }
    assert(is_closed(lt_const_neg())) by {
        reveal(lt_const_neg);
        reveal_with_fuel(mentions, 5);
        reveal_with_fuel(is_symbol_free, 5);
    }
    assert(is_closed(min_lt_cancel())) by {
        reveal(min_lt_cancel);
        reveal_with_fuel(mentions, 5);
        reveal_with_fuel(is_symbol_free, 5);
    }
    assert(is_closed(lt_min_mutual_term())) by {
        reveal(lt_min_mutual_term);
        reveal_with_fuel(mentions, 5);
        reveal_with_fuel(is_symbol_free, 5);
    }
    assert(is_closed(lt_max_mutual_term())) by {
        reveal(lt_max_mutual_term);
        reveal_with_fuel(mentions, 5);
        reveal_with_fuel(is_symbol_free, 5);
    }
    assert(is_closed(lt_min_term_term_plus_pos())) by {
        reveal(lt_min_term_term_plus_pos);
        reveal_with_fuel(mentions, 5);
        reveal_with_fuel(is_symbol_free, 5);
    }
    assert(is_closed(lt_max_term_term_plus_pos())) by {
        reveal(lt_max_term_term_plus_pos);
        reveal_with_fuel(mentions, 5);
        reveal_with_fuel(is_symbol_free, 5);
    }
    assert(is_closed(lt_min_term_plus_neg_term())) by {
        reveal(lt_min_term_plus_neg_term);
        reveal_with_fuel(mentions, 5);
        reveal_with_fuel(is_symbol_free, 5);
    }
    assert(is_closed(lt_max_term_plus_neg_term())) by {
        reveal(lt_max_term_plus_neg_term);
        reveal_with_fuel(mentions, 5);
        reveal_with_fuel(is_symbol_free, 5);
    }
    assert(is_closed(lt_min_term_plus_cpos())) by {
        reveal(lt_min_term_plus_cpos);
        reveal_with_fuel(mentions, 5);
        reveal_with_fuel(is_symbol_free, 5);
    }
    assert(is_closed(lt_min_max_cancel())) by {
        reveal(lt_min_max_cancel);
        reveal_with_fuel(mentions, 5);
        reveal_with_fuel(is_symbol_free, 5);
    }
    assert(is_closed(lt_mul_pos_cancel())) by {
        reveal(lt_mul_pos_cancel);
        reveal_with_fuel(mentions, 5);
        reveal_with_fuel(is_symbol_free, 5);
    }
    assert(is_closed(lt_mul_div_cancel())) by {
        reveal(lt_mul_div_cancel);
        reveal_with_fuel(mentions, 5);
        reveal_with_fuel(is_symbol_free, 5);
    }
    assert(is_closed(lt_const_mod())) by {
        reveal(lt_const_mod);
        reveal_with_fuel(mentions, 5);
        reveal_with_fuel(is_symbol_free, 5);
    }
    assert(is_closed(lt_const_mod_false())) by {
        reveal(lt_const_mod_false);
        reveal_with_fuel(mentions, 5);
        reveal_with_fuel(is_symbol_free, 5);
    }
}

/// Where the rules of strict order keep the value.
pub open spec fn order_holds_at(rule: Rule, env: spec_fn(Seq<char>) -> int) -> bool {
    &&& rule == lt_mul_pos_cancel() ==> lt_mul_pos_cancel_holds_at(env)
    &&& rule == lt_mul_div_cancel() ==> lt_mul_div_cancel_holds_at(env)
}

/// `lt-mul-pos-cancel` keeps the value except just below a quotient that is rounded
/// up.
pub open spec fn lt_mul_pos_cancel_holds_at(env: spec_fn(Seq<char>) -> int) -> bool {
    let x = env(nx());
    let y = env(ny());
    let z = env(nz());
    z + y > 0 || rem(z + y - 1, y) == 0 || x != quot(z + y - 1, y) - 1
}

/// `lt-mul-div-cancel` keeps the value except just below a quotient that is rounded
/// up.
pub open spec fn lt_mul_div_cancel_holds_at(env: spec_fn(Seq<char>) -> int) -> bool {
    let x = env(nx());
    let y = env(ny());
    let z = env(nz());
    x >= 0 || rem(x, z) == 0 || y != quot(x, z) - 1
}

proof fn gt_to_lt_keeps_value(env: spec_fn(Seq<char>) -> int)
    ensures
        preserves_value(gt_to_lt(), env),
{
    reveal(gt_to_lt);
    reveal_with_fuel(value, 5);
}

proof fn lt_swap_keeps_value(env: spec_fn(Seq<char>) -> int)
    ensures
        preserves_value(lt_swap(), env),
{
    reveal(lt_swap);
    reveal_with_fuel(value, 5);
    let x: int = env(nx());
    let y: int = env(ny());
    lemma_minus_one(x);
    lemma_minus_one(y);
}

proof fn lt_to_zero_keeps_value(env: spec_fn(Seq<char>) -> int)
    ensures
        preserves_value(lt_to_zero(), env),
{
    reveal(lt_to_zero);
    reveal_with_fuel(value, 5);
}

proof fn lt_swap_in_keeps_value(env: spec_fn(Seq<char>) -> int)
    ensures
        preserves_value(lt_swap_in(), env),
{
    reveal(lt_swap_in);
    reveal_with_fuel(value, 5);
}

proof fn lt_swap_out_keeps_value(env: spec_fn(Seq<char>) -> int)
    ensures
        preserves_value(lt_swap_out(), env),
{
    reveal(lt_swap_out);
    reveal_with_fuel(value, 5);
}

proof fn lt_x_x_sub_a_keeps_value(env: spec_fn(Seq<char>) -> int)
    requires
        guard_allows(lt_x_x_sub_a().guard, env),
    ensures
        preserves_value(lt_x_x_sub_a(), env),
{
    reveal(lt_x_x_sub_a);
    reveal_with_fuel(value, 5);
}

proof fn lt_const_pos_keeps_value(env: spec_fn(Seq<char>) -> int)
    requires
        guard_allows(lt_const_pos().guard, env),
    ensures
        preserves_value(lt_const_pos(), env),
{
    reveal(lt_const_pos);
    reveal_with_fuel(value, 5);
}

proof fn lt_const_neg_keeps_value(env: spec_fn(Seq<char>) -> int)
    requires
        guard_allows(lt_const_neg().guard, env),
    ensures
        preserves_value(lt_const_neg(), env),
{
    reveal(lt_const_neg);
    reveal_with_fuel(value, 5);
}

proof fn min_lt_cancel_keeps_value(env: spec_fn(Seq<char>) -> int)
    ensures
        preserves_value(min_lt_cancel(), env),
{
    reveal(min_lt_cancel);
    reveal_with_fuel(value, 5);
}

proof fn lt_min_mutual_term_keeps_value(env: spec_fn(Seq<char>) -> int)
    ensures
        preserves_value(lt_min_mutual_term(), env),
{
    reveal(lt_min_mutual_term);
    reveal_with_fuel(value, 5);
}

proof fn lt_max_mutual_term_keeps_value(env: spec_fn(Seq<char>) -> int)
    ensures
        preserves_value(lt_max_mutual_term(), env),
{
    reveal(lt_max_mutual_term);
    reveal_with_fuel(value, 5);
}

proof fn lt_min_term_term_plus_pos_keeps_value(env: spec_fn(Seq<char>) -> int)
    requires
        guard_allows(lt_min_term_term_plus_pos().guard, env),
    ensures
        preserves_value(lt_min_term_term_plus_pos(), env),
{
    reveal(lt_min_term_term_plus_pos);
    reveal_with_fuel(value, 5);
}

proof fn lt_max_term_term_plus_pos_keeps_value(env: spec_fn(Seq<char>) -> int)
    requires
        guard_allows(lt_max_term_term_plus_pos().guard, env),
    ensures
        preserves_value(lt_max_term_term_plus_pos(), env),
{
    reveal(lt_max_term_term_plus_pos);
    reveal_with_fuel(value, 5);
}

proof fn lt_min_term_plus_neg_term_keeps_value(env: spec_fn(Seq<char>) -> int)
    requires
        guard_allows(lt_min_term_plus_neg_term().guard, env),
    ensures
        preserves_value(lt_min_term_plus_neg_term(), env),
{
    reveal(lt_min_term_plus_neg_term);
    reveal_with_fuel(value, 5);
}

proof fn lt_max_term_plus_neg_term_keeps_value(env: spec_fn(Seq<char>) -> int)
    requires
        guard_allows(lt_max_term_plus_neg_term().guard, env),
    ensures
        preserves_value(lt_max_term_plus_neg_term(), env),
{
    reveal(lt_max_term_plus_neg_term);
    reveal_with_fuel(value, 5);
}

proof fn lt_min_term_plus_cpos_keeps_value(env: spec_fn(Seq<char>) -> int)
    requires
        guard_allows(lt_min_term_plus_cpos().guard, env),
    ensures
        preserves_value(lt_min_term_plus_cpos(), env),
{
    reveal(lt_min_term_plus_cpos);
    reveal_with_fuel(value, 5);
}

proof fn lt_min_max_cancel_keeps_value(env: spec_fn(Seq<char>) -> int)
    ensures
        preserves_value(lt_min_max_cancel(), env),
{
    reveal(lt_min_max_cancel);
    reveal_with_fuel(value, 5);
}

/// Where the left side of `lt-mul-pos-cancel` has a value, the right side has that
/// value exactly where [`lt_mul_pos_cancel_holds_at`] says.
pub proof fn law_lt_mul_pos_cancel(env: spec_fn(Seq<char>) -> int)
    requires
        guard_allows(lt_mul_pos_cancel().guard, env),
    ensures
        value(lt_mul_pos_cancel().lhs, env) is Some ==> (preserves_value(lt_mul_pos_cancel(), env)
            <==> lt_mul_pos_cancel_holds_at(env)),
{
    reveal(lt_mul_pos_cancel);
    reveal_with_fuel(value, 5);
    let x: int = env(nx());
    let y: int = env(ny());
    let z: int = env(nz());
    assert((x + 1) * y == x * y + y) by (nonlinear_arith);
    lemma_multiple_at_most(x + 1, z + y - 1, y);
    lemma_quot_rem(z + y - 1, y);
}

/// Where the left side of `lt-mul-div-cancel` has a value, the right side has that
/// value exactly where [`lt_mul_div_cancel_holds_at`] says.
pub proof fn law_lt_mul_div_cancel(env: spec_fn(Seq<char>) -> int)
    requires
        guard_allows(lt_mul_div_cancel().guard, env),
    ensures
        value(lt_mul_div_cancel().lhs, env) is Some ==> (preserves_value(lt_mul_div_cancel(), env)
            <==> lt_mul_div_cancel_holds_at(env)),
{
    reveal(lt_mul_div_cancel);
    reveal_with_fuel(value, 5);
    let x: int = env(nx());
    let y: int = env(ny());
    let z: int = env(nz());
    lemma_multiple_at_most(y + 1, x, z);
    lemma_quot_rem(x, z);
}

proof fn lt_const_mod_keeps_value(env: spec_fn(Seq<char>) -> int)
    requires
        guard_allows(lt_const_mod().guard, env),
    ensures
        preserves_value(lt_const_mod(), env),
{
    reveal(lt_const_mod);
    reveal_with_fuel(value, 5);
    let b: int = env(nb());
    let x: int = env(nx());
    if b != 0 {
        lemma_quot_rem(x, b);
    }
}

proof fn lt_const_mod_false_keeps_value(env: spec_fn(Seq<char>) -> int)
    requires
        guard_allows(lt_const_mod_false().guard, env),
    ensures
        preserves_value(lt_const_mod_false(), env),
{
    reveal(lt_const_mod_false);
    reveal_with_fuel(value, 5);
    let b: int = env(nb());
    let x: int = env(nx());
    if b != 0 {
        lemma_quot_rem(x, b);
    }
}

/// The rules of strict order keep the value where [`order_holds_at`] says.
pub proof fn law_order_keeps_values(rule: Rule, env: spec_fn(Seq<char>) -> int)
    requires
        lt_rules().contains(rule),
        guard_allows(rule.guard, env),
        order_holds_at(rule, env),
    ensures
        preserves_value(rule, env),
{
    if rule == gt_to_lt() {
        gt_to_lt_keeps_value(env);
    } else if rule == lt_swap() {
        lt_swap_keeps_value(env);
    } else if rule == lt_to_zero() {
        lt_to_zero_keeps_value(env);
    } else if rule == lt_swap_in() {
        lt_swap_in_keeps_value(env);
    } else if rule == lt_swap_out() {
        lt_swap_out_keeps_value(env);
    } else if rule == lt_x_x_sub_a() {
        lt_x_x_sub_a_keeps_value(env);
    } else if rule == lt_const_pos() {
        lt_const_pos_keeps_value(env);
    } else if rule == lt_const_neg() {
        lt_const_neg_keeps_value(env);
    } else if rule == min_lt_cancel() {
        min_lt_cancel_keeps_value(env);
    } else if rule == lt_min_mutual_term() {
        lt_min_mutual_term_keeps_value(env);
    } else if rule == lt_max_mutual_term() {
        lt_max_mutual_term_keeps_value(env);
    } else if rule == lt_min_term_term_plus_pos() {
        lt_min_term_term_plus_pos_keeps_value(env);
    } else if rule == lt_max_term_term_plus_pos() {
        lt_max_term_term_plus_pos_keeps_value(env);
    } else if rule == lt_min_term_plus_neg_term() {
        lt_min_term_plus_neg_term_keeps_value(env);
    } else if rule == lt_max_term_plus_neg_term() {
        lt_max_term_plus_neg_term_keeps_value(env);
    } else if rule == lt_min_term_plus_cpos() {
        lt_min_term_plus_cpos_keeps_value(env);
    } else if rule == lt_min_max_cancel() {
        lt_min_max_cancel_keeps_value(env);
    } else if rule == lt_mul_pos_cancel() {
        law_lt_mul_pos_cancel(env);
    } else if rule == lt_mul_div_cancel() {
        law_lt_mul_div_cancel(env);
    } else if rule == lt_const_mod() {
        lt_const_mod_keeps_value(env);
    } else if rule == lt_const_mod_false() {
        lt_const_mod_false_keeps_value(env);
    }
}

} // verus!
