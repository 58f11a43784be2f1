//! No two rules have the same name.

use vstd::prelude::*;

use crate::rules::all_rules;
use crate::rules::addition::{
    add_assoc, add_comm, add_const, add_denom_div, add_denom_mul, add_dist_mul, add_div_mod,
    add_fact_mul, add_rules, add_zero,
};
use crate::rules::conjunction::{
    and_assoc, and_comm, and_eq_eq, and_eqlt_eqgt_to_0, and_eqlt_gt_to_0, and_eqlt_to_max,
    and_eqlt_to_min, and_ineq_eq, and_lt_gt_to_0, and_lt_to_max, and_lt_to_min, and_max_to_eqlt,
    and_max_to_lt, and_min_to_eqlt, and_min_to_lt, and_rules, and_x_1, and_x_not_x, and_x_x,
};
use crate::rules::connectives::{and_over_or, andor_rules, or_over_and, or_x_and_x_y};
use crate::rules::disjunction::{or_comm, or_rules, or_to_and};
use crate::rules::division::{
    div_cancel, div_consts_add, div_consts_div, div_consts_mul, div_minus_down, div_minus_in,
    div_minus_out, div_minus_up, div_rules, div_separate, div_zero,
};
use crate::rules::equality::{
    eq_a_b, eq_comm, eq_lt_min, eq_max_c_neg, eq_max_c_pos, eq_max_lt, eq_min_c_neg, eq_min_c_pos,
    eq_min_lt, eq_mul_x_y_0, eq_rules, eq_swap, eq_x_x, eq_x_y_0,
};
use crate::rules::inequality::{ineq_rules, ineq_to_eq};
use crate::rules::maximum::{max_rules, max_to_min};
use crate::rules::minimum::{
    max_consts_and, max_consts_or, max_min_switch, min_add_both, min_ass, min_comm,
    min_consts_div_neg, min_consts_div_pos, min_consts_or, min_div_in_neg, min_div_in_pos,
    min_div_mul, min_div_out_neg, min_div_out_pos, min_max, min_max_const, min_max_max_x,
    min_max_min_y, min_max_switch, min_min_div_neg, min_min_div_pos, min_mod_const_to_const,
    min_mod_const_to_mod, min_mul_in_neg, min_mul_in_pos, min_mul_out_neg, min_mul_out_pos,
    min_rules, min_sub_both, min_x_x, min_x_x_plus_a_neg, min_x_x_plus_a_pos,
};
use crate::rules::multiplication::{
    div_cancel_mul, mul_assoc, mul_cancel_div, mul_comm, mul_max_min, mul_one, mul_rules, mul_zero,
};
use crate::rules::negation::{
    eqgt_to_not_lt, eqlt_to_not_gt, not_eq_to_ineq, not_gt_to_eqlt, not_not, not_rules,
};
use crate::rules::order::{
    gt_to_lt, lt_const_mod, lt_const_mod_false, lt_const_neg, lt_const_pos, lt_max_mutual_term,
    lt_max_term_plus_neg_term, lt_max_term_term_plus_pos, lt_min_max_cancel, lt_min_mutual_term,
    lt_min_term_plus_cpos, lt_min_term_plus_neg_term, lt_min_term_term_plus_pos, lt_mul_div_cancel,
    lt_mul_pos_cancel, lt_rules, lt_swap, lt_swap_in, lt_swap_out, lt_to_zero, lt_x_x_sub_a,
    min_lt_cancel,
};
use crate::rules::remainder::{
    mod_const_add, mod_const_sub, mod_consts, mod_minus_in, mod_minus_out, mod_multiple, mod_one,
    mod_two, mod_x_x, mod_zero, modulo_rules,
};
use crate::rules::subtraction::{sub_rules, sub_to_add};

verus! {

/// The character at a place of a text, as a number; zero behind its end.
spec fn char_at(s: Seq<char>, i: int) -> int {
    if i < s.len() {
        s[i] as int
    } else {
        0
    }
}

/// A number for a name, weighed so that the names of the rules have different
/// numbers.
#[verifier::opaque]
spec fn name_code(s: Seq<char>) -> int {
    4 * s.len() + 6 * char_at(s, 1) + 1 * char_at(s, 2) + 3 * char_at(s, 5) + 3 * char_at(s, 6)
        + 6 * char_at(s, 9) + 5 * char_at(s, 11) + 5 * char_at(s, 13) + 2 * char_at(s, 15)
}

/// The place among all rules of the one whose name has that number.
#[verifier::opaque]
spec fn place(code: int) -> int {
    if code == 1392 {
        0
    } else if code == 1426 {
        1
    } else if code == 1377 {
        2
    } else if code == 2602 {
        3
    } else if code == 2530 {
        4
    } else if code == 2240 {
        5
    } else if code == 2180 {
        6
    } else if code == 2079 {
        7
    } else if code == 1399 {
        8
    } else if code == 1502 {
        9
    } else if code == 1536 {
        10
    } else if code == 1487 {
        11
    } else if code == 1471 {
        12
    } else if code == 3225 {
        13
    } else if code == 2135 {
        14
    } else if code == 3158 {
        15
    } else if code == 1908 {
        16
    } else if code == 1425 {
        17
    } else if code == 2057 {
        18
    } else if code == 2824 {
        19
    } else if code == 2271 {
        20
    } else if code == 2261 {
        21
    } else if code == 2300 {
        22
    } else if code == 3247 {
        23
    } else if code == 3242 {
        24
    } else if code == 3142 {
        25
    } else if code == 2522 {
        26
    } else if code == 1405 {
        27
    } else if code == 1253 {
        28
    } else if code == 1378 {
        29
    } else if code == 1107 {
        30
    } else if code == 2196 {
        31
    } else if code == 1254 {
        32
    } else if code == 1224 {
        33
    } else if code == 1221 {
        34
    } else if code == 1041 {
        35
    } else if code == 2513 {
        36
    } else if code == 2441 {
        37
    } else if code == 2483 {
        38
    } else if code == 2411 {
        39
    } else if code == 1452 {
        40
    } else if code == 1486 {
        41
    } else if code == 1070 {
        42
    } else if code == 1283 {
        43
    } else if code == 1539 {
        44
    } else if code == 1270 {
        45
    } else if code == 2043 {
        46
    } else if code == 2090 {
        47
    } else if code == 2663 {
        48
    } else if code == 2929 {
        49
    } else if code == 3176 {
        50
    } else if code == 2050 {
        51
    } else if code == 2669 {
        52
    } else if code == 2889 {
        53
    } else if code == 3182 {
        54
    } else if code == 2364 {
        55
    } else if code == 3063 {
        56
    } else if code == 2981 {
        57
    } else if code == 1191 {
        58
    } else if code == 1411 {
        59
    } else if code == 2994 {
        60
    } else if code == 2736 {
        61
    } else if code == 2989 {
        62
    } else if code == 2697 {
        63
    } else if code == 1491 {
        64
    } else if code == 1870 {
        65
    } else if code == 1432 {
        66
    } else if code == 1458 {
        67
    } else if code == 1263 {
        68
    } else if code == 1419 {
        69
    } else if code == 2250 {
        70
    } else if code == 2298 {
        71
    } else if code == 2619 {
        72
    } else if code == 2574 {
        73
    } else if code == 3239 {
        74
    } else if code == 3235 {
        75
    } else if code == 3266 {
        76
    } else if code == 2957 {
        77
    } else if code == 3196 {
        78
    } else if code == 2907 {
        79
    } else if code == 3260 {
        80
    } else if code == 2951 {
        81
    } else if code == 3190 {
        82
    } else if code == 2901 {
        83
    } else if code == 2684 {
        84
    } else if code == 2155 {
        85
    } else if code == 3141 {
        86
    } else if code == 3149 {
        87
    } else if code == 3261 {
        88
    } else if code == 3217 {
        89
    } else if code == 2700 {
        90
    } else if code == 3096 {
        91
    } else if code == 2662 {
        92
    } else if code == 3479 {
        93
    } else if code == 2855 {
        94
    } else if code == 3475 {
        95
    } else if code == 2805 {
        96
    } else if code == 1232 {
        97
    } else if code == 1396 {
        98
    } else if code == 1948 {
        99
    } else if code == 2068 {
        100
    } else if code == 2114 {
        101
    } else if code == 2357 {
        102
    } else if code == 2711 {
        103
    } else if code == 2639 {
        104
    } else if code == 2440 {
        105
    } else if code == 2886 {
        106
    } else if code == 2916 {
        107
    } else if code == 2918 {
        108
    } else if code == 2948 {
        109
    } else if code == 2780 {
        110
    } else if code == 2810 {
        111
    } else if code == 2959 {
        112
    } else if code == 3241 {
        113
    } else if code == 3205 {
        114
    } else if code == 3223 {
        115
    } else if code == 2618 {
        116
    } else if code == 3368 {
        117
    } else if code == 2160 {
        118
    } else if code == 1443 {
        119
    } else if code == 1289 {
        120
    } else if code == 1427 {
        121
    } else if code == 2251 {
        122
    } else if code == 2336 {
        123
    } else if code == 2318 {
        124
    } else if code == 2279 {
        125
    } else if code == 1484 {
        126
    } else if code == 2159 {
        127
    } else if code == 2666 {
        128
    } else if code == 2127 {
        129
    } else if code == 2078 {
        130
    } else if code == 2723 {
        131
    } else {
        -1
    }
}

proof fn lemma_addition_places(k: int)
    requires
        0 <= k < add_rules().len(),
    ensures
        place(name_code(add_rules()[k].name)) == k,
{
    reveal(name_code);
    reveal(place);
    if k == 0 {
        reveal(add_comm);
        reveal_strlit("add-comm");
    } else if k == 1 {
        reveal(add_assoc);
        reveal_strlit("add-assoc");
    } else if k == 2 {
        reveal(add_zero);
        reveal_strlit("add-zero");
    } else if k == 3 {
        reveal(add_dist_mul);
        reveal_strlit("add-dist-mul");
    } else if k == 4 {
        reveal(add_fact_mul);
        reveal_strlit("add-fact-mul");
    } else if k == 5 {
        reveal(add_denom_mul);
        reveal_strlit("add-denom-mul");
    } else if k == 6 {
        reveal(add_denom_div);
        reveal_strlit("add-denom-div");
    } else if k == 7 {
        reveal(add_div_mod);
        reveal_strlit("add-div-mod");
    } else {
        reveal(add_const);
        reveal_strlit("add-const");
    }
}

proof fn lemma_multiplication_places(k: int)
    requires
        0 <= k < mul_rules().len(),
    ensures
        place(name_code(mul_rules()[k].name)) == 9 + k,
{
    reveal(name_code);
    reveal(place);
    if k == 0 {
        reveal(mul_comm);
        reveal_strlit("mul-comm");
    } else if k == 1 {
        reveal(mul_assoc);
        reveal_strlit("mul-assoc");
    } else if k == 2 {
        reveal(mul_zero);
        reveal_strlit("mul-zero");
    } else if k == 3 {
        reveal(mul_one);
        reveal_strlit("mul-one");
    } else if k == 4 {
        reveal(mul_cancel_div);
        reveal_strlit("mul-cancel-div");
    } else if k == 5 {
        reveal(mul_max_min);
        reveal_strlit("mul-max-min");
    } else {
        reveal(div_cancel_mul);
        reveal_strlit("div-cancel-mul");
    }
}

proof fn lemma_subtraction_places(k: int)
    requires
        0 <= k < sub_rules().len(),
    ensures
        place(name_code(sub_rules()[k].name)) == 16 + k,
{
    reveal(name_code);
    reveal(place);
    reveal(sub_to_add);
    reveal_strlit("sub-to-add");
}

proof fn lemma_division_places(k: int)
    requires
        0 <= k < div_rules().len(),
    ensures
        place(name_code(div_rules()[k].name)) == 17 + k,
{
    reveal(name_code);
    reveal(place);
    if k == 0 {
        reveal(div_zero);
        reveal_strlit("div-zero");
    } else if k == 1 {
        reveal(div_cancel);
        reveal_strlit("div-cancel");
    } else if k == 2 {
        reveal(div_minus_down);
        reveal_strlit("div-minus-down");
    } else if k == 3 {
        reveal(div_minus_up);
        reveal_strlit("div-minus-up");
    } else if k == 4 {
        reveal(div_minus_in);
        reveal_strlit("div-minus-in");
    } else if k == 5 {
        reveal(div_minus_out);
        reveal_strlit("div-minus-out");
    } else if k == 6 {
        reveal(div_consts_div);
        reveal_strlit("div-consts-div");
    } else if k == 7 {
        reveal(div_consts_mul);
        reveal_strlit("div-consts-mul");
    } else if k == 8 {
        reveal(div_consts_add);
        reveal_strlit("div-consts-add");
    } else {
        reveal(div_separate);
        reveal_strlit("div-separate");
    }
}

proof fn lemma_equality_places(k: int)
    requires
        0 <= k < eq_rules().len(),
    ensures
        place(name_code(eq_rules()[k].name)) == 27 + k,
{
    reveal(name_code);
    reveal(place);
    if k == 0 {
        reveal(eq_comm);
        reveal_strlit("eq-comm");
    } else if k == 1 {
        reveal(eq_x_y_0);
        reveal_strlit("eq-x-y-0");
    } else if k == 2 {
        reveal(eq_swap);
        reveal_strlit("eq-swap");
    } else if k == 3 {
        reveal(eq_x_x);
        reveal_strlit("eq-x-x");
    } else if k == 4 {
        reveal(eq_mul_x_y_0);
        reveal_strlit("eq-mul-x-y-0");
    } else if k == 5 {
        reveal(eq_max_lt);
        reveal_strlit("eq-max-lt");
    } else if k == 6 {
        reveal(eq_min_lt);
        reveal_strlit("Eq-min-lt");
    } else if k == 7 {
        reveal(eq_lt_min);
        reveal_strlit("Eq-lt-min");
    } else if k == 8 {
        reveal(eq_a_b);
        reveal_strlit("Eq-a-b");
    } else if k == 9 {
        reveal(eq_max_c_pos);
        reveal_strlit("Eq-max-c-pos");
    } else if k == 10 {
        reveal(eq_max_c_neg);
        reveal_strlit("Eq-max-c-neg");
    } else if k == 11 {
        reveal(eq_min_c_pos);
        reveal_strlit("Eq-min-c-pos");
    } else {
        reveal(eq_min_c_neg);
        reveal_strlit("Eq-min-c-neg");
    }
}

proof fn lemma_conjunction_places(k: int)
    requires
        0 <= k < and_rules().len(),
    ensures
        place(name_code(and_rules()[k].name)) == 40 + k,
{
    reveal(name_code);
    reveal(place);
    if k == 0 {
        reveal(and_comm);
        reveal_strlit("and-comm");
    } else if k == 1 {
        reveal(and_assoc);
        reveal_strlit("and-assoc");
    } else if k == 2 {
        reveal(and_x_1);
        reveal_strlit("and-x-1");
    } else if k == 3 {
        reveal(and_x_x);
        reveal_strlit("and-x-x");
    } else if k == 4 {
        reveal(and_x_not_x);
        reveal_strlit("and-x-not-x");
    } else if k == 5 {
        reveal(and_eq_eq);
        reveal_strlit("and-eq-eq");
    } else if k == 6 {
        reveal(and_ineq_eq);
        reveal_strlit("and-ineq-eq");
    } else if k == 7 {
        reveal(and_lt_to_min);
        reveal_strlit("and-lt-to-min");
    } else if k == 8 {
        reveal(and_min_to_lt);
        reveal_strlit("and-min-to-lt");
    } else if k == 9 {
        reveal(and_eqlt_to_min);
        reveal_strlit("and-eqlt-to-min");
    } else if k == 10 {
        reveal(and_min_to_eqlt);
        reveal_strlit("and-min-to-eqlt");
    } else if k == 11 {
        reveal(and_lt_to_max);
        reveal_strlit("and-lt-to-max");
    } else if k == 12 {
        reveal(and_max_to_lt);
        reveal_strlit("and-max-to-lt");
    } else if k == 13 {
        reveal(and_eqlt_to_max);
        reveal_strlit("and-eqlt-to-max");
    } else if k == 14 {
        reveal(and_max_to_eqlt);
        reveal_strlit("and-max-to-eqlt");
    } else if k == 15 {
        reveal(and_lt_gt_to_0);
        reveal_strlit("and-lt-gt-to-0");
    } else if k == 16 {
        reveal(and_eqlt_eqgt_to_0);
        reveal_strlit("and-eqlt-eqgt-to-0");
    } else {
        reveal(and_eqlt_gt_to_0);
        reveal_strlit("and-eqlt-gt-to-0");
    }
}

proof fn lemma_disjunction_places(k: int)
    requires
        0 <= k < or_rules().len(),
    ensures
        place(name_code(or_rules()[k].name)) == 58 + k,
{
    reveal(name_code);
    reveal(place);
    if k == 0 {
        reveal(or_to_and);
        reveal_strlit("or-to-and");
    } else {
        reveal(or_comm);
        reveal_strlit("or-comm");
    }
}

proof fn lemma_negation_places(k: int)
    requires
        0 <= k < not_rules().len(),
    ensures
        place(name_code(not_rules()[k].name)) == 60 + k,
{
    reveal(name_code);
    reveal(place);
    if k == 0 {
        reveal(eqlt_to_not_gt);
        reveal_strlit("eqlt-to-not-gt");
    } else if k == 1 {
        reveal(not_gt_to_eqlt);
        reveal_strlit("not-gt-to-eqlt");
    } else if k == 2 {
        reveal(eqgt_to_not_lt);
        reveal_strlit("eqgt-to-not-lt");
    } else if k == 3 {
        reveal(not_eq_to_ineq);
        reveal_strlit("not-eq-to-ineq");
    } else {
        reveal(not_not);
        reveal_strlit("not-not");
    }
}

proof fn lemma_maximum_places(k: int)
    requires
        0 <= k < max_rules().len(),
    ensures
        place(name_code(max_rules()[k].name)) == 65 + k,
{
    reveal(name_code);
    reveal(place);
    reveal(max_to_min);
    reveal_strlit("max-to-min");
}

proof fn lemma_minimum_places(k: int)
    requires
        0 <= k < min_rules().len(),
    ensures
        place(name_code(min_rules()[k].name)) == 66 + k,
{
    reveal(name_code);
    reveal(place);
    if k == 0 {
        reveal(min_comm);
        reveal_strlit("min-comm");
    } else if k == 1 {
        reveal(min_ass);
        reveal_strlit("min-ass");
    } else if k == 2 {
        reveal(min_x_x);
        reveal_strlit("min-x-x");
    } else if k == 3 {
        reveal(min_max);
        reveal_strlit("min-max");
    } else if k == 4 {
        reveal(min_max_max_x);
        reveal_strlit("min-max-max-x");
    } else if k == 5 {
        reveal(min_max_min_y);
        reveal_strlit("min-max-min-y");
    } else if k == 6 {
        reveal(min_sub_both);
        reveal_strlit("min-sub-both");
    } else if k == 7 {
        reveal(min_add_both);
        reveal_strlit("min-add-both");
    } else if k == 8 {
        reveal(min_x_x_plus_a_pos);
        reveal_strlit("min-x-x-plus-a-pos");
    } else if k == 9 {
        reveal(min_x_x_plus_a_neg);
        reveal_strlit("min-x-x-plus-a-neg");
    } else if k == 10 {
        reveal(min_mul_in_pos);
        reveal_strlit("min-mul-in-pos");
    } else if k == 11 {
        reveal(min_mul_out_pos);
        reveal_strlit("min-mul-out-pos");
    } else if k == 12 {
        reveal(min_mul_in_neg);
        reveal_strlit("min-mul-in-neg");
    } else if k == 13 {
        reveal(min_mul_out_neg);
        reveal_strlit("min-mul-out-neg");
    } else if k == 14 {
        reveal(min_div_in_pos);
        reveal_strlit("min-div-in-pos");
    } else if k == 15 {
        reveal(min_div_out_pos);
        reveal_strlit("min-div-out-pos");
    } else if k == 16 {
        reveal(min_div_in_neg);
        reveal_strlit("min-div-in-neg");
    } else if k == 17 {
        reveal(min_div_out_neg);
        reveal_strlit("min-div-out-neg");
    } else if k == 18 {
        reveal(min_max_const);
        reveal_strlit("min-max-const");
    } else if k == 19 {
        reveal(min_div_mul);
        reveal_strlit("min-div-mul");
    } else if k == 20 {
        reveal(min_mod_const_to_mod);
        reveal_strlit("min-mod-const-to-mod");
    } else if k == 21 {
        reveal(min_mod_const_to_const);
        reveal_strlit("min-mod-const-to-const");
    } else if k == 22 {
        reveal(min_max_switch);
        reveal_strlit("min-max-switch");
    } else if k == 23 {
        reveal(max_min_switch);
        reveal_strlit("max-min-switch");
    } else if k == 24 {
        reveal(min_consts_or);
        reveal_strlit("min-consts-or");
    } else if k == 25 {
        reveal(max_consts_and);
        reveal_strlit("max-consts-and");
    } else if k == 26 {
        reveal(max_consts_or);
        reveal_strlit("max-consts-or");
    } else if k == 27 {
        reveal(min_consts_div_pos);
        reveal_strlit("min-consts-div-pos");
    } else if k == 28 {
        reveal(min_min_div_pos);
        reveal_strlit("min-min-div-pos");
    } else if k == 29 {
        reveal(min_consts_div_neg);
        reveal_strlit("min-consts-div-neg");
    } else {
        reveal(min_min_div_neg);
        reveal_strlit("min-min-div-neg");
    }
}

proof fn lemma_order_places(k: int)
    requires
        0 <= k < lt_rules().len(),
    ensures
        place(name_code(lt_rules()[k].name)) == 97 + k,
{
    reveal(name_code);
    reveal(place);
    if k == 0 {
        reveal(gt_to_lt);
        reveal_strlit("gt-to-lt");
    } else if k == 1 {
        reveal(lt_swap);
        reveal_strlit("lt-swap");
    } else if k == 2 {
        reveal(lt_to_zero);
        reveal_strlit("lt-to-zero");
    } else if k == 3 {
        reveal(lt_swap_in);
        reveal_strlit("lt-swap-in");
    } else if k == 4 {
        reveal(lt_swap_out);
        reveal_strlit("lt-swap-out");
    } else if k == 5 {
        reveal(lt_x_x_sub_a);
        reveal_strlit("lt-x-x-sub-a");
    } else if k == 6 {
        reveal(lt_const_pos);
        reveal_strlit("lt-const-pos");
    } else if k == 7 {
        reveal(lt_const_neg);
        reveal_strlit("lt-const-neg");
    } else if k == 8 {
        reveal(min_lt_cancel);
        reveal_strlit("min-lt-cancel");
    } else if k == 9 {
        reveal(lt_min_mutual_term);
        reveal_strlit("lt-min-mutual-term");
    } else if k == 10 {
        reveal(lt_max_mutual_term);
        reveal_strlit("lt-max-mutual-term");
    } else if k == 11 {
        reveal(lt_min_term_term_plus_pos);
        reveal_strlit("lt-min-term-term+pos");
    } else if k == 12 {
        reveal(lt_max_term_term_plus_pos);
        reveal_strlit("lt-max-term-term+pos");
    } else if k == 13 {
        reveal(lt_min_term_plus_neg_term);
        reveal_strlit("lt-min-term+neg-term");
    } else if k == 14 {
        reveal(lt_max_term_plus_neg_term);
        reveal_strlit("lt-max-term+neg-term");
    } else if k == 15 {
        reveal(lt_min_term_plus_cpos);
        reveal_strlit("lt-min-term+cpos");
    } else if k == 16 {
        reveal(lt_min_max_cancel);
        reveal_strlit("lt-min-max-cancel");
    } else if k == 17 {
        reveal(lt_mul_pos_cancel);
        reveal_strlit("lt-mul-pos-cancel");
    } else if k == 18 {
        reveal(lt_mul_div_cancel);
        reveal_strlit("lt-mul-div-cancel");
    } else if k == 19 {
        reveal(lt_const_mod);
        reveal_strlit("lt-const-mod");
    } else {
        reveal(lt_const_mod_false);
        reveal_strlit("lt-const-mod-false");
    }
}

proof fn lemma_inequality_places(k: int)
    requires
        0 <= k < ineq_rules().len(),
    ensures
        place(name_code(ineq_rules()[k].name)) == 118 + k,
{
    reveal(name_code);
    reveal(place);
    reveal(ineq_to_eq);
    reveal_strlit("ineq-to-eq");
}

proof fn lemma_remainder_places(k: int)
    requires
        0 <= k < modulo_rules().len(),
    ensures
        place(name_code(modulo_rules()[k].name)) == 119 + k,
{
    reveal(name_code);
    reveal(place);
    if k == 0 {
        reveal(mod_zero);
        reveal_strlit("mod-zero");
    } else if k == 1 {
        reveal(mod_x_x);
        reveal_strlit("mod-x-x");
    } else if k == 2 {
        reveal(mod_one);
        reveal_strlit("mod-one");
    } else if k == 3 {
        reveal(mod_const_add);
        reveal_strlit("mod-const-add");
    } else if k == 4 {
        reveal(mod_const_sub);
        reveal_strlit("mod-const-sub");
    } else if k == 5 {
        reveal(mod_minus_out);
        reveal_strlit("mod-minus-out");
    } else if k == 6 {
        reveal(mod_minus_in);
        reveal_strlit("mod-minus-in");
    } else if k == 7 {
        reveal(mod_two);
        reveal_strlit("mod-two");
    } else if k == 8 {
        reveal(mod_consts);
        reveal_strlit("mod-consts");
    } else {
        reveal(mod_multiple);
        reveal_strlit("mod-multiple");
    }
}

proof fn lemma_connectives_places(k: int)
    requires
        0 <= k < andor_rules().len(),
    ensures
        place(name_code(andor_rules()[k].name)) == 129 + k,
{
    reveal(name_code);
    reveal(place);
    if k == 0 {
        reveal(and_over_or);
        reveal_strlit("and-over-or");
    } else if k == 1 {
        reveal(or_over_and);
        reveal_strlit("or-over-and");
    } else {
        reveal(or_x_and_x_y);
        reveal_strlit("or-x-and-x-y");
    }
}

proof fn lemma_place(i: int)
    requires
        0 <= i < all_rules().len(),
    ensures
        place(name_code(all_rules()[i].name)) == i,
{
    if i < 9 {
        lemma_addition_places(i);
    } else if i < 16 {
        lemma_multiplication_places(i - 9);
    } else if i < 17 {
        lemma_subtraction_places(i - 16);
    } else if i < 27 {
        lemma_division_places(i - 17);
    } else if i < 40 {
        lemma_equality_places(i - 27);
    } else if i < 58 {
        lemma_conjunction_places(i - 40);
    } else if i < 60 {
        lemma_disjunction_places(i - 58);
    } else if i < 65 {
        lemma_negation_places(i - 60);
    } else if i < 66 {
        lemma_maximum_places(i - 65);
    } else if i < 97 {
        lemma_minimum_places(i - 66);
    } else if i < 118 {
        lemma_order_places(i - 97);
    } else if i < 119 {
        lemma_inequality_places(i - 118);
    } else if i < 129 {
        lemma_remainder_places(i - 119);
    } else {
        lemma_connectives_places(i - 129);
    }
}

/// No two rules have the same name.
pub proof fn law_names_are_distinct(i: int, j: int)
    requires
        0 <= i < j < all_rules().len(),
    ensures
        all_rules()[i].name != all_rules()[j].name,
{
    lemma_place(i);
    lemma_place(j);
}

} // verus!
