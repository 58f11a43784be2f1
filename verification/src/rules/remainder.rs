//! The rules of remainders: what they are, how they are
//! written, and where they keep the value.
//!
//! The rules are opaque: `reveal` a rule to see its sides and its condition.

use vstd::prelude::*;

use crate::arith::{
    lemma_minus_one, lemma_quot_of_multiple, lemma_quot_rem, lemma_quot_rem_negate,
    lemma_quot_rem_shift, quot, rem, same_side,
};
use crate::condition::{
    comparator_of, lemma_comparator_texts, sto_compare_c0_c1, Comparator, Guard,
};
use crate::expr::{is_writable, text};
use crate::rule::{
    e_add, e_mod, e_mul, e_sub, guard_allows, is_closed, is_symbol_free, lemma_variables, mentions,
    nc, nc0, nc1, num, nx, ny, preserves_value, rule, rule_if, vc, vc0, vc1, vx, vy, Rule,
};
use crate::rules::{
    holds_rules, is_written, lemma_holds_rules, lemma_written_is_readable, sto_rw, sto_rw_cond,
    StoRw,
};
use crate::semantics::value;

verus! {

#[verifier::opaque]
pub open spec fn mod_zero() -> Rule {
    rule("mod-zero"@, e_mod(num(0), vx()), num(0))
}

#[verifier::opaque]
pub open spec fn mod_x_x() -> Rule {
    rule("mod-x-x"@, e_mod(vx(), vx()), num(0))
}

#[verifier::opaque]
pub open spec fn mod_one() -> Rule {
    rule("mod-one"@, e_mod(vx(), num(1)), num(0))
}

#[verifier::opaque]
pub open spec fn mod_const_add() -> Rule {
    rule_if(
        "mod-const-add"@,
        e_mod(vx(), vc1()),
        e_mod(e_add(vx(), vc1()), vc1()),
        Guard::Compare(nc1(), nx(), Some(Comparator::LeAbs)),
    )
}

#[verifier::opaque]
pub open spec fn mod_const_sub() -> Rule {
    rule_if(
        "mod-const-sub"@,
        e_mod(vx(), vc1()),
        e_mod(e_sub(vx(), vc1()), vc1()),
        Guard::Compare(nc1(), nx(), Some(Comparator::LeAbs)),
    )
}

#[verifier::opaque]
pub open spec fn mod_minus_out() -> Rule {
    rule("mod-minus-out"@, e_mod(e_mul(vx(), num(-1)), vc()), e_mul(num(-1), e_mod(vx(), vc())))
}

#[verifier::opaque]
pub open spec fn mod_minus_in() -> Rule {
    rule("mod-minus-in"@, e_mul(num(-1), e_mod(vx(), vc())), e_mod(e_mul(vx(), num(-1)), vc()))
}

#[verifier::opaque]
pub open spec fn mod_two() -> Rule {
    rule("mod-two"@, e_mod(e_sub(vx(), vy()), num(2)), e_mod(e_add(vx(), vy()), num(2)))
}

#[verifier::opaque]
pub open spec fn mod_consts() -> Rule {
    rule_if(
        "mod-consts"@,
        e_mod(e_add(e_mul(vx(), vc0()), vy()), vc1()),
        e_mod(vy(), vc1()),
        Guard::Compare(nc0(), nc1(), Some(Comparator::Multiple)),
    )
}

#[verifier::opaque]
pub open spec fn mod_multiple() -> Rule {
    rule_if(
        "mod-multiple"@,
        e_mod(e_mul(vc0(), vx()), vc1()),
        num(0),
        Guard::Compare(nc0(), nc1(), Some(Comparator::Multiple)),
    )
}

/// The rules of remainders.
pub open spec fn modulo_rules() -> Seq<Rule> {
    seq![
        mod_zero(),
        mod_x_x(),
        mod_one(),
        mod_const_add(),
        mod_const_sub(),
        mod_minus_out(),
        mod_minus_in(),
        mod_two(),
        mod_consts(),
        mod_multiple(),
    ]
}

proof fn mod_zero_is_written()
    ensures
        is_written(mod_zero(), "mod-zero"@, "(% 0 ?x)"@, "0"@, Guard::Always),
{
    reveal(mod_zero);
    reveal(is_written);
    reveal_with_fuel(text, 5);
    reveal_with_fuel(is_writable, 5);
    lemma_variables();
    reveal_strlit("(% 0 ?x)");
    reveal_strlit("0");
}

proof fn mod_x_x_is_written()
    ensures
        is_written(mod_x_x(), "mod-x-x"@, "(% ?x ?x)"@, "0"@, Guard::Always),
{
    reveal(mod_x_x);
    reveal(is_written);
    reveal_with_fuel(text, 5);
    reveal_with_fuel(is_writable, 5);
    lemma_variables();
    reveal_strlit("(% ?x ?x)");
    reveal_strlit("0");
}

proof fn mod_one_is_written()
    ensures
        is_written(mod_one(), "mod-one"@, "(% ?x 1)"@, "0"@, Guard::Always),
{
    reveal(mod_one);
    reveal(is_written);
    reveal_with_fuel(text, 5);
    reveal_with_fuel(is_writable, 5);
    lemma_variables();
    reveal_strlit("(% ?x 1)");
    reveal_strlit("0");
}

proof fn mod_const_add_is_written()
    ensures
        is_written(
            mod_const_add(),
            "mod-const-add"@,
            "(% ?x ?c1)"@,
            "(% (+ ?x ?c1) ?c1)"@,
            Guard::Compare("?c1"@, "?x"@, comparator_of("<=a"@)),
        ),
{
    reveal(mod_const_add);
    reveal(is_written);
    reveal_with_fuel(text, 5);
    reveal_with_fuel(is_writable, 5);
    lemma_variables();
    lemma_comparator_texts();
    reveal_strlit("(% ?x ?c1)");
    reveal_strlit("(% (+ ?x ?c1) ?c1)");
}

proof fn mod_const_sub_is_written()
    ensures
        is_written(
            mod_const_sub(),
            "mod-const-sub"@,
            "(% ?x ?c1)"@,
            "(% (- ?x ?c1) ?c1)"@,
            Guard::Compare("?c1"@, "?x"@, comparator_of("<=a"@)),
        ),
{
    reveal(mod_const_sub);
    reveal(is_written);
    reveal_with_fuel(text, 5);
    reveal_with_fuel(is_writable, 5);
    lemma_variables();
    lemma_comparator_texts();
    reveal_strlit("(% ?x ?c1)");
    reveal_strlit("(% (- ?x ?c1) ?c1)");
}

proof fn mod_minus_out_is_written()
    ensures
        is_written(
            mod_minus_out(),
            "mod-minus-out"@,
            "(% (* ?x -1) ?c)"@,
            "(* -1 (% ?x ?c))"@,
            Guard::Always,
        ),
{
    reveal(mod_minus_out);
    reveal(is_written);
    reveal_with_fuel(text, 5);
    reveal_with_fuel(is_writable, 5);
    lemma_variables();
    reveal_strlit("(% (* ?x -1) ?c)");
    reveal_strlit("(* -1 (% ?x ?c))");
}

proof fn mod_minus_in_is_written()
    ensures
        is_written(
            mod_minus_in(),
            "mod-minus-in"@,
            "(* -1 (% ?x ?c))"@,
            "(% (* ?x -1) ?c)"@,
            Guard::Always,
        ),
{
    reveal(mod_minus_in);
    reveal(is_written);
    reveal_with_fuel(text, 5);
    reveal_with_fuel(is_writable, 5);
    lemma_variables();
    reveal_strlit("(* -1 (% ?x ?c))");
    reveal_strlit("(% (* ?x -1) ?c)");
}

proof fn mod_two_is_written()
    ensures
        is_written(mod_two(), "mod-two"@, "(% (- ?x ?y) 2)"@, "(% (+ ?x ?y) 2)"@, Guard::Always),
{
    reveal(mod_two);
    reveal(is_written);
    reveal_with_fuel(text, 5);
    reveal_with_fuel(is_writable, 5);
    lemma_variables();
    reveal_strlit("(% (- ?x ?y) 2)");
    reveal_strlit("(% (+ ?x ?y) 2)");
}

proof fn mod_consts_is_written()
    ensures
        is_written(
            mod_consts(),
            "mod-consts"@,
            "(% (+ (* ?x ?c0) ?y) ?c1)"@,
            "(% ?y ?c1)"@,
            Guard::Compare("?c0"@, "?c1"@, comparator_of("%0"@)),
        ),
{
    reveal(mod_consts);
    reveal(is_written);
    reveal_with_fuel(text, 5);
    reveal_with_fuel(is_writable, 5);
    lemma_variables();
    lemma_comparator_texts();
    reveal_strlit("(% (+ (* ?x ?c0) ?y) ?c1)");
    reveal_strlit("(% ?y ?c1)");
}

proof fn mod_multiple_is_written()
    ensures
        is_written(
            mod_multiple(),
            "mod-multiple"@,
            "(% (* ?c0 ?x) ?c1)"@,
            "0"@,
            Guard::Compare("?c0"@, "?c1"@, comparator_of("%0"@)),
        ),
{
    reveal(mod_multiple);
    reveal(is_written);
    reveal_with_fuel(text, 5);
    reveal_with_fuel(is_writable, 5);
    lemma_variables();
    lemma_comparator_texts();
    reveal_strlit("(% (* ?c0 ?x) ?c1)");
    reveal_strlit("0");
}

/// The rules of remainders.
pub fn sto_modulo() -> (r: Vec<StoRw>)
    ensures
        holds_rules(r@, modulo_rules()),
{
    proof {
        mod_zero_is_written();
        mod_x_x_is_written();
        mod_one_is_written();
        mod_const_add_is_written();
        mod_const_sub_is_written();
        mod_minus_out_is_written();
        mod_minus_in_is_written();
        mod_two_is_written();
        mod_consts_is_written();
        mod_multiple_is_written();
        lemma_written_is_readable();
    }
    let rules: Vec<StoRw> = vec![
        sto_rw("mod-zero", "(% 0 ?x)", "0"),
        sto_rw("mod-x-x", "(% ?x ?x)", "0"),
        sto_rw("mod-one", "(% ?x 1)", "0"),
        sto_rw_cond(
            "mod-const-add",
            "(% ?x ?c1)",
            "(% (+ ?x ?c1) ?c1)",
            sto_compare_c0_c1("?c1", "?x", "<=a"),
        ),
        sto_rw_cond(
            "mod-const-sub",
            "(% ?x ?c1)",
            "(% (- ?x ?c1) ?c1)",
            sto_compare_c0_c1("?c1", "?x", "<=a"),
        ),
        sto_rw("mod-minus-out", "(% (* ?x -1) ?c)", "(* -1 (% ?x ?c))"),
        sto_rw("mod-minus-in", "(* -1 (% ?x ?c))", "(% (* ?x -1) ?c)"),
        sto_rw("mod-two", "(% (- ?x ?y) 2)", "(% (+ ?x ?y) 2)"),
        sto_rw_cond(
            "mod-consts",
            "(% (+ (* ?x ?c0) ?y) ?c1)",
            "(% ?y ?c1)",
            sto_compare_c0_c1("?c0", "?c1", "%0"),
        ),
        sto_rw_cond(
            "mod-multiple",
            "(% (* ?c0 ?x) ?c1)",
            "0",
            sto_compare_c0_c1("?c0", "?c1", "%0"),
        ),
    ];
    proof {
        lemma_holds_rules(rules@, modulo_rules());
    }
    rules
}

/// The rules of remainders speak of nothing but constants and the variables that a
/// match binds.
pub proof fn law_remainder_is_closed(rule: Rule)
    requires
        modulo_rules().contains(rule),
    ensures
        is_closed(rule),
{
    assert(is_closed(mod_zero())) by {
        reveal(mod_zero);
        reveal_with_fuel(mentions, 5);
        reveal_with_fuel(is_symbol_free, 5);
    }
    assert(is_closed(mod_x_x())) by {
        reveal(mod_x_x);
        reveal_with_fuel(mentions, 5);
        reveal_with_fuel(is_symbol_free, 5);
    }
    assert(is_closed(mod_one())) by {
        reveal(mod_one);
        reveal_with_fuel(mentions, 5);
        reveal_with_fuel(is_symbol_free, 5);
    }
    assert(is_closed(mod_const_add())) by {
        reveal(mod_const_add);
        reveal_with_fuel(mentions, 5);
        reveal_with_fuel(is_symbol_free, 5);
    }
    assert(is_closed(mod_const_sub())) by {
        reveal(mod_const_sub);
        reveal_with_fuel(mentions, 5);
        reveal_with_fuel(is_symbol_free, 5);
    }
    assert(is_closed(mod_minus_out())) by {
        reveal(mod_minus_out);
        reveal_with_fuel(mentions, 5);
        reveal_with_fuel(is_symbol_free, 5);
    }
    assert(is_closed(mod_minus_in())) by {
        reveal(mod_minus_in);
        reveal_with_fuel(mentions, 5);
        reveal_with_fuel(is_symbol_free, 5);
    }
    assert(is_closed(mod_two())) by {
        reveal(mod_two);
        reveal_with_fuel(mentions, 5);
        reveal_with_fuel(is_symbol_free, 5);
    }
    assert(is_closed(mod_consts())) by {
        reveal(mod_consts);
        reveal_with_fuel(mentions, 5);
        reveal_with_fuel(is_symbol_free, 5);
    }
    assert(is_closed(mod_multiple())) by {
        reveal(mod_multiple);
        reveal_with_fuel(mentions, 5);
        reveal_with_fuel(is_symbol_free, 5);
    }
}

/// Where the rules of remainders keep the value.
pub open spec fn remainder_holds_at(rule: Rule, env: spec_fn(Seq<char>) -> int) -> bool {
    &&& rule == mod_const_add() ==> mod_const_add_holds_at(env)
    &&& rule == mod_const_sub() ==> mod_const_sub_holds_at(env)
    &&& rule == mod_two() ==> mod_two_holds_at(env)
    &&& rule == mod_consts() ==> mod_consts_holds_at(env)
}

/// `mod-const-add` keeps the value without a remainder, or where the dividend does
/// not cross zero.
pub open spec fn mod_const_add_holds_at(env: spec_fn(Seq<char>) -> int) -> bool {
    let x = env(nx());
    let c1 = env(nc1());
    rem(x, c1) == 0 || same_side(x, x + c1)
}

/// `mod-const-sub` keeps the value without a remainder, or where the dividend does
/// not cross zero.
pub open spec fn mod_const_sub_holds_at(env: spec_fn(Seq<char>) -> int) -> bool {
    let x = env(nx());
    let c1 = env(nc1());
    rem(x, c1) == 0 || same_side(x, x - c1)
}

/// `mod-two` keeps the value for an even difference, or where sum and difference
/// lie on the same side of zero.
pub open spec fn mod_two_holds_at(env: spec_fn(Seq<char>) -> int) -> bool {
    let x = env(nx());
    let y = env(ny());
    rem(x - y, 2) == 0 || same_side(x - y, x + y)
}

/// `mod-consts` keeps the value without a remainder, or where the dividend does not
/// cross zero.
pub open spec fn mod_consts_holds_at(env: spec_fn(Seq<char>) -> int) -> bool {
    let x = env(nx());
    let y = env(ny());
    let c0 = env(nc0());
    let c1 = env(nc1());
    rem(y, c1) == 0 || same_side(y, x * c0 + y)
}

proof fn mod_zero_keeps_value(env: spec_fn(Seq<char>) -> int)
    ensures
        preserves_value(mod_zero(), env),
{
    reveal(mod_zero);
    reveal_with_fuel(value, 5);
    let x: int = env(nx());
    if x != 0 {
        lemma_quot_of_multiple(0, x);
    }
}

proof fn mod_x_x_keeps_value(env: spec_fn(Seq<char>) -> int)
    ensures
        preserves_value(mod_x_x(), env),
{
    reveal(mod_x_x);
    reveal_with_fuel(value, 5);
    let x: int = env(nx());
    if x != 0 {
        lemma_quot_of_multiple(1, x);
    }
}

proof fn mod_one_keeps_value(env: spec_fn(Seq<char>) -> int)
    ensures
        preserves_value(mod_one(), env),
{
    reveal(mod_one);
    reveal_with_fuel(value, 5);
    let x: int = env(nx());
    lemma_quot_rem(x, 1);
}

/// Where the left side of `mod-const-add` has a value, the right side has that
/// value exactly where [`mod_const_add_holds_at`] says.
pub proof fn law_mod_const_add(env: spec_fn(Seq<char>) -> int)
    requires
        guard_allows(mod_const_add().guard, env),
    ensures
        value(mod_const_add().lhs, env) is Some ==> (preserves_value(mod_const_add(), env)
            <==> mod_const_add_holds_at(env)),
{
    reveal(mod_const_add);
    reveal_with_fuel(value, 5);
    let x: int = env(nx());
    let c1: int = env(nc1());
    if c1 != 0 {
        lemma_quot_rem_shift(x, c1, 1);
    }
}

/// Where the left side of `mod-const-sub` has a value, the right side has that
/// value exactly where [`mod_const_sub_holds_at`] says.
pub proof fn law_mod_const_sub(env: spec_fn(Seq<char>) -> int)
    requires
        guard_allows(mod_const_sub().guard, env),
    ensures
        value(mod_const_sub().lhs, env) is Some ==> (preserves_value(mod_const_sub(), env)
            <==> mod_const_sub_holds_at(env)),
{
    reveal(mod_const_sub);
    reveal_with_fuel(value, 5);
    let x: int = env(nx());
    let c1: int = env(nc1());
    if c1 != 0 {
        lemma_quot_rem_shift(x, c1, -1);
    }
}

proof fn mod_minus_out_keeps_value(env: spec_fn(Seq<char>) -> int)
    ensures
        preserves_value(mod_minus_out(), env),
{
    reveal(mod_minus_out);
    reveal_with_fuel(value, 5);
    let c: int = env(nc());
    let x: int = env(nx());
    lemma_minus_one(x);
    lemma_minus_one(rem(x, c));
    if c != 0 {
        lemma_quot_rem_negate(x, c);
    }
}

proof fn mod_minus_in_keeps_value(env: spec_fn(Seq<char>) -> int)
    ensures
        preserves_value(mod_minus_in(), env),
{
    reveal(mod_minus_in);
    reveal_with_fuel(value, 5);
    let c: int = env(nc());
    let x: int = env(nx());
    lemma_minus_one(x);
    lemma_minus_one(rem(x, c));
    if c != 0 {
        lemma_quot_rem_negate(x, c);
    }
}

/// Where the left side of `mod-two` has a value, the right side has that value
/// exactly where [`mod_two_holds_at`] says.
pub proof fn law_mod_two(env: spec_fn(Seq<char>) -> int)
    ensures
        value(mod_two().lhs, env) is Some ==> (preserves_value(mod_two(), env)
            <==> mod_two_holds_at(env)),
{
    reveal(mod_two);
    reveal_with_fuel(value, 5);
    let x: int = env(nx());
    let y: int = env(ny());
    lemma_quot_rem_shift(x - y, 2, y);
}

/// Where the left side of `mod-consts` has a value, the right side has that value
/// exactly where [`mod_consts_holds_at`] says.
pub proof fn law_mod_consts(env: spec_fn(Seq<char>) -> int)
    requires
        guard_allows(mod_consts().guard, env),
    ensures
        value(mod_consts().lhs, env) is Some ==> (preserves_value(mod_consts(), env)
            <==> mod_consts_holds_at(env)),
{
    reveal(mod_consts);
    reveal_with_fuel(value, 5);
    let x: int = env(nx());
    let y: int = env(ny());
    let c0: int = env(nc0());
    let c1: int = env(nc1());
    lemma_quot_rem(c0, c1);
    let k: int = quot(c0, c1);
    assert(x * c0 == (x * k) * c1) by (nonlinear_arith)
        requires
            c0 == k * c1,
    ;
    lemma_quot_rem_shift(y, c1, x * k);
}

proof fn mod_multiple_keeps_value(env: spec_fn(Seq<char>) -> int)
    requires
        guard_allows(mod_multiple().guard, env),
    ensures
        preserves_value(mod_multiple(), env),
{
    reveal(mod_multiple);
    reveal_with_fuel(value, 5);
    let x: int = env(nx());
    let c0: int = env(nc0());
    let c1: int = env(nc1());
    lemma_quot_rem(c0, c1);
    let k: int = quot(c0, c1);
    assert(c0 * x == (k * x) * c1) by (nonlinear_arith)
        requires
            c0 == k * c1,
    ;
    lemma_quot_of_multiple(k * x, c1);
}

/// The rules of remainders keep the value where [`remainder_holds_at`] says.
pub proof fn law_remainder_keeps_values(rule: Rule, env: spec_fn(Seq<char>) -> int)
    requires
        modulo_rules().contains(rule),
        guard_allows(rule.guard, env),
        remainder_holds_at(rule, env),
    ensures
        preserves_value(rule, env),
{
    if rule == mod_zero() {
        mod_zero_keeps_value(env);
    } else if rule == mod_x_x() {
        mod_x_x_keeps_value(env);
    } else if rule == mod_one() {
        mod_one_keeps_value(env);
    } else if rule == mod_const_add() {
        law_mod_const_add(env);
    } else if rule == mod_const_sub() {
        law_mod_const_sub(env);
    } else if rule == mod_minus_out() {
        mod_minus_out_keeps_value(env);
    } else if rule == mod_minus_in() {
        mod_minus_in_keeps_value(env);
    } else if rule == mod_two() {
        law_mod_two(env);
    } else if rule == mod_consts() {
        law_mod_consts(env);
    } else if rule == mod_multiple() {
        mod_multiple_keeps_value(env);
    }
}

} // verus!
