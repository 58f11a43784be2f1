//! When the conditions of rules hold.

use vstd::prelude::*;

use crate::analysis::StoData;
use crate::arith::{lemma_quot_of_multiple, lemma_quot_rem, quot};
use crate::condition::{
    bindings, bound_constant, bound_node, comparator_holds, comparator_of,
    comparator_text, compares_safely, evaluate, lemma_comparator_reads_back,
    lemma_comparator_texts, variable_name, Comparator, Condition, Guard,
};
use crate::numeral::{all_digits, digits, digits_value, is_digit};

verus! {

/// `c` is `k` times `c1`.
pub open spec fn is_times(c: int, k: int, c1: int) -> bool {
    c == k * c1
}

/// The comparisons of two numbers hold exactly where their relation does.
pub proof fn law_order_comparisons(c: int, c1: int)
    ensures
        comparator_holds(Comparator::Lt, c, c1) <==> c < c1,
        comparator_holds(Comparator::Le, c, c1) <==> c <= c1,
        comparator_holds(Comparator::LePlusOne, c, c1) <==> c - 1 <= c1,
        comparator_holds(Comparator::Gt, c, c1) <==> c > c1,
        comparator_holds(Comparator::Ge, c, c1) <==> c >= c1,
        comparator_holds(Comparator::Ne, c, c1) <==> !(c == c1),
{
}

/// The comparisons with a magnitude hold exactly where the number compares with the
/// other and with its opposite.
pub proof fn law_magnitude_comparisons(c: int, c1: int)
    ensures
        comparator_holds(Comparator::LtAbs, c, c1) <==> (c < c1 || c < -c1),
        comparator_holds(Comparator::LeAbs, c, c1) <==> (c <= c1 || c <= -c1),
        comparator_holds(Comparator::GtAbs, c, c1) <==> (c > c1 && c > -c1),
        comparator_holds(Comparator::GeAbs, c, c1) <==> (c >= c1 && c >= -c1),
        comparator_holds(Comparator::LeNegAbs, c, c1) <==> (c <= c1 && c <= -c1),
        comparator_holds(Comparator::LeOneMinusAbs, c, c1) <==> (c - 1 <= c1 && c - 1 <= -c1),
        comparator_holds(Comparator::GeAbsMinusOne, c, c1) <==> (c + 1 >= c1 && c + 1 >= -c1),
{
}

/// Divisibility holds exactly where there is a factor.
pub proof fn law_multiple_comparisons(c: int, c1: int)
    ensures
        comparator_holds(Comparator::Multiple, c, c1)
            <==> c1 != 0 && (exists|k: int| is_times(c, k, c1)),
        comparator_holds(Comparator::NotMultiple, c, c1)
            <==> c1 != 0 && !(exists|k: int| is_times(c, k, c1)),
        comparator_holds(Comparator::MultipleOfPos, c, c1)
            <==> c1 > 0 && (exists|k: int| is_times(c, k, c1)),
        comparator_holds(Comparator::MultipleOfNeg, c, c1)
            <==> c1 < 0 && (exists|k: int| is_times(c, k, c1)),
{
    if c1 != 0 {
        lemma_quot_rem(c, c1);
        assert(is_times(c, quot(c, c1), c1) || !comparator_holds(Comparator::Multiple, c, c1));
        if exists|k: int| is_times(c, k, c1) {
            let k = choose|k: int| is_times(c, k, c1);
            lemma_quot_of_multiple(k, c1);
        }
    }
}

/// How comparisons relate: which are opposites, which mirror each other, and which do
/// not look at a sign.
pub proof fn law_comparisons_relate(c: int, c1: int)
    ensures
        comparator_holds(Comparator::Lt, c, c1) != comparator_holds(Comparator::Ge, c, c1),
        comparator_holds(Comparator::Gt, c, c1) != comparator_holds(Comparator::Le, c, c1),
        comparator_holds(Comparator::LtAbs, c, c1) != comparator_holds(Comparator::GeAbs, c, c1),
        comparator_holds(Comparator::GtAbs, c, c1) != comparator_holds(Comparator::LeAbs, c, c1),
        comparator_holds(Comparator::Ne, c, c1) == comparator_holds(Comparator::Ne, c1, c),
        comparator_holds(Comparator::Ne, c, c1) != (c == c1),
        comparator_holds(Comparator::Ne, c, c1)
            == (comparator_holds(Comparator::Lt, c, c1) || comparator_holds(Comparator::Gt, c, c1)),
        !(comparator_holds(Comparator::Lt, c, c1) && comparator_holds(Comparator::Gt, c, c1)),
        comparator_holds(Comparator::Lt, c, c1) == comparator_holds(Comparator::Gt, c1, c),
        comparator_holds(Comparator::Le, c, c1) == comparator_holds(Comparator::Ge, c1, c),
        comparator_holds(Comparator::LePlusOne, c, c1)
            == comparator_holds(Comparator::Le, c - 1, c1),
        comparator_holds(Comparator::GeAbsMinusOne, c, c1)
            == comparator_holds(Comparator::GeAbs, c + 1, c1),
        comparator_holds(Comparator::LeOneMinusAbs, c, c1)
            == comparator_holds(Comparator::LeNegAbs, c - 1, c1),
        comparator_holds(Comparator::LeNegAbs, c, c1)
            == comparator_holds(Comparator::GeAbs, -c, c1),
        comparator_holds(Comparator::LtAbs, c, c1) == comparator_holds(Comparator::LtAbs, c, -c1),
        comparator_holds(Comparator::LeAbs, c, c1) == comparator_holds(Comparator::LeAbs, c, -c1),
        comparator_holds(Comparator::GtAbs, c, c1) == comparator_holds(Comparator::GtAbs, c, -c1),
        comparator_holds(Comparator::GeAbs, c, c1) == comparator_holds(Comparator::GeAbs, c, -c1),
        comparator_holds(Comparator::LeNegAbs, c, c1)
            == comparator_holds(Comparator::LeNegAbs, c, -c1),
        comparator_holds(Comparator::LeOneMinusAbs, c, c1)
            == comparator_holds(Comparator::LeOneMinusAbs, c, -c1),
        comparator_holds(Comparator::GeAbsMinusOne, c, c1)
            == comparator_holds(Comparator::GeAbsMinusOne, c, -c1),
        c1 != 0
            ==> comparator_holds(Comparator::Multiple, c, c1)
            != comparator_holds(Comparator::NotMultiple, c, c1),
        comparator_holds(Comparator::Multiple, c, c1)
            == (comparator_holds(Comparator::MultipleOfPos, c, c1)
            || comparator_holds(Comparator::MultipleOfNeg, c, c1)),
        !(comparator_holds(Comparator::MultipleOfPos, c, c1)
            && comparator_holds(Comparator::MultipleOfNeg, c, c1)),
        comparator_holds(Comparator::MultipleOfPos, c, c1)
            == comparator_holds(Comparator::MultipleOfNeg, c, -c1),
{
    law_multiple_comparisons(c, c1);
    let d = -c1;
    law_multiple_comparisons(c, d);
    assert forall|k: int| #[trigger] is_times(c, k, c1) implies is_times(c, -k, d) by {
        assert(k * c1 == (-k) * (-c1)) by (nonlinear_arith);
    }
    assert forall|k: int| #[trigger] is_times(c, k, d) implies is_times(c, -k, c1) by {
        assert(k * (-c1) == (-k) * c1) by (nonlinear_arith);
    }
}

/// A comparison overflows only where the number it compares with, its magnitude or
/// a quotient leaves the range of a word.
pub proof fn law_comparisons_overflow_rarely(c: i64, c1: i64)
    ensures
        compares_safely(Comparator::Lt, c, c1),
        compares_safely(Comparator::LtAbs, c, c1) <==> -c1 <= i64::MAX,
        compares_safely(Comparator::Le, c, c1),
        compares_safely(Comparator::LePlusOne, c, c1) <==> c1 + 1 <= i64::MAX,
        compares_safely(Comparator::LeAbs, c, c1) <==> -c1 <= i64::MAX,
        compares_safely(Comparator::LeNegAbs, c, c1) <==> -c1 <= i64::MAX,
        compares_safely(Comparator::LeOneMinusAbs, c, c1) <==> -c1 <= i64::MAX,
        compares_safely(Comparator::Gt, c, c1),
        compares_safely(Comparator::GtAbs, c, c1) <==> -c1 <= i64::MAX,
        compares_safely(Comparator::Ge, c, c1),
        compares_safely(Comparator::GeAbs, c, c1) <==> -c1 <= i64::MAX,
        compares_safely(Comparator::GeAbsMinusOne, c, c1) <==> -c1 <= i64::MAX,
        compares_safely(Comparator::Ne, c, c1),
        !compares_safely(Comparator::Multiple, c, c1) <==> c == i64::MIN && c1 == -1,
        !compares_safely(Comparator::NotMultiple, c, c1) <==> c == i64::MIN && c1 == -1,
        compares_safely(Comparator::MultipleOfPos, c, c1),
        !compares_safely(Comparator::MultipleOfNeg, c, c1) <==> c == i64::MIN && c1 == -1,
{
}

/// A text names the comparison that is spelled so, and no other text names it.
pub proof fn law_comparisons_are_named(s: Seq<char>, k: Comparator)
    ensures
        comparator_of(s) == Some(k) <==> s == comparator_text(k),
{
    lemma_comparator_reads_back(k);
}

/// Every text but the seventeen spellings names no comparison.
pub proof fn law_other_texts_name_nothing(s: Seq<char>)
    requires
        s != "<"@,
        s != "<a"@,
        s != "<="@,
        s != "<=+1"@,
        s != "<=a"@,
        s != "<=-a"@,
        s != "<=-a+1"@,
        s != ">"@,
        s != ">a"@,
        s != ">="@,
        s != ">=a"@,
        s != ">=a-1"@,
        s != "!="@,
        s != "%0"@,
        s != "!%0"@,
        s != "%0<"@,
        s != "%0>"@,
    ensures
        comparator_of(s) is None,
{
    lemma_comparator_texts();
    if let Some(k) = comparator_of(s) {
        law_comparisons_are_named(s, k);
    }
}

/// A variable is written as a question mark and a name, and stands for itself. A text
/// without the question mark, or with nothing behind it, is no variable.
pub proof fn law_variables_are_named(s: Seq<char>)
    ensures
        s.len() > 1 && s[0] == '?' && s[1] != '#' ==> variable_name(s) == Some(s),
        s.len() <= 1 || s[0] != '?' ==> variable_name(s) is None,
{
}

/// A numbered variable is written with digits, and stands for its number: leading
/// zeros and a plus sign make no difference.
pub proof fn law_variables_are_numbered(t: Seq<char>)
    requires
        all_digits(t),
    ensures
        digits_value(t) <= u32::MAX ==> variable_name(seq!['?', '#'] + t) == Some(
            seq!['?', '#'] + digits(digits_value(t) as nat),
        ),
        variable_name(seq!['?', '#', '+'] + t) == variable_name(seq!['?', '#'] + t),
        digits_value(t) > u32::MAX ==> variable_name(seq!['?', '#'] + t) is None,
{
    let s = seq!['?', '#'] + t;
    let p = seq!['?', '#', '+'] + t;
    assert(s.skip(2) =~= t);
    assert(p.skip(2).skip(1) =~= t);
    assert(p.skip(2)[0] == '+');
    assert(is_digit(t[0]));
    lemma_digits_are_not_negative(t);
}

proof fn lemma_digits_are_not_negative(t: Seq<char>)
    requires
        forall|i: int| 0 <= i < t.len() ==> is_digit(#[trigger] t[i]),
    ensures
        digits_value(t) >= 0,
    decreases t.len(),
{
    if t.len() > 0 {
        let u = t.drop_last();
        assert forall|i: int| 0 <= i < u.len() implies is_digit(#[trigger] u[i]) by {
            assert(u[i] == t[i]);
        }
        assert(is_digit(t[t.len() - 1]));
        lemma_digits_are_not_negative(u);
    }
}

/// A condition is the test it is named after, on its variables in order.
pub proof fn law_conditions_are_as_named(var: String, var1: String, k: Option<Comparator>)
    ensures
        Condition::Always@ == Guard::Always,
        Condition::ConstPos(var)@ == Guard::ConstPos(var@),
        Condition::ConstNeg(var)@ == Guard::ConstNeg(var@),
        Condition::NotZero(var)@ == Guard::NotZero(var@),
        Condition::Compare(var, var1, k)@ == Guard::Compare(var@, var1@, k),
{
}

/// The constant of a variable is the constant of the node that the substitution binds
/// it to. There is none where the text is no variable, the variable is not bound, or
/// the node is not there.
pub proof fn law_constants_are_looked_up(
    analysis: Seq<StoData>,
    subst: egg::Subst,
    var: Seq<char>,
    name: Seq<char>,
)
    ensures
        variable_name(var) is None ==> bound_constant(analysis, subst, var) is None,
        variable_name(var) == Some(name) && !bindings(subst).contains_key(name)
            ==> bound_constant(analysis, subst, var) is None,
        variable_name(var) == Some(name) && bindings(subst).contains_key(name)
            && bindings(subst)[name] >= analysis.len() ==> bound_constant(
            analysis,
            subst,
            var,
        ) is None,
        variable_name(var) == Some(name) && bindings(subst).contains_key(name)
            && bindings(subst)[name] < analysis.len() ==> bound_constant(analysis, subst, var)
            == Some(analysis[bindings(subst)[name] as int].constant),
        variable_name(var) == Some(name) && bindings(subst).contains_key(name) ==> bound_node(
            subst,
            var,
        ) == Some(bindings(subst)[name]),
{
}

/// Of a variable that is bound to a node with a constant, the tests on its sign hold
/// exactly where the constant has that sign.
pub proof fn law_sign_conditions_hold(
    analysis: Seq<StoData>,
    subst: egg::Subst,
    var: Seq<char>,
    c: i64,
)
    requires
        bound_constant(analysis, subst, var) == Some(Some(c)),
    ensures
        evaluate(Guard::ConstPos(var), analysis, subst) == Some(true) <==> c > 0,
        evaluate(Guard::ConstPos(var), analysis, subst) == Some(false) <==> c <= 0,
        evaluate(Guard::ConstNeg(var), analysis, subst) == Some(true) <==> c < 0,
        evaluate(Guard::ConstNeg(var), analysis, subst) == Some(false) <==> c >= 0,
        evaluate(Guard::NotZero(var), analysis, subst) == Some(true) <==> c != 0,
        evaluate(Guard::NotZero(var), analysis, subst) == Some(false) <==> c == 0,
{
}

/// Of a variable that is bound to a node without a constant, it is not known that it
/// is positive or negative, and it counts as not zero.
pub proof fn law_unknown_signs(analysis: Seq<StoData>, subst: egg::Subst, var: Seq<char>)
    requires
        bound_constant(analysis, subst, var) == Some(None::<i64>),
    ensures
        evaluate(Guard::ConstPos(var), analysis, subst) == Some(false),
        evaluate(Guard::ConstNeg(var), analysis, subst) == Some(false),
        evaluate(Guard::NotZero(var), analysis, subst) == Some(true),
{
}

/// A constant is positive, negative or zero: exactly one test on its sign holds, or
/// the test that it is not zero fails.
pub proof fn law_sign_conditions_relate(
    analysis: Seq<StoData>,
    subst: egg::Subst,
    var: Seq<char>,
    c: i64,
)
    requires
        bound_constant(analysis, subst, var) == Some(Some(c)),
    ensures
        (evaluate(Guard::NotZero(var), analysis, subst) == Some(true)) == ((evaluate(
            Guard::ConstPos(var),
            analysis,
            subst,
        ) == Some(true)) || (evaluate(Guard::ConstNeg(var), analysis, subst) == Some(true))),
        !(evaluate(Guard::ConstPos(var), analysis, subst) == Some(true) && evaluate(
            Guard::ConstNeg(var),
            analysis,
            subst,
        ) == Some(true)),
{
}

/// A test on a variable without a node cannot be evaluated, and a rule without a
/// condition applies always.
pub proof fn law_conditions_need_nodes(
    analysis: Seq<StoData>,
    subst: egg::Subst,
    var: Seq<char>,
    var1: Seq<char>,
    k: Option<Comparator>,
)
    ensures
        evaluate(Guard::Always, analysis, subst) == Some(true),
        bound_constant(analysis, subst, var) is None ==> {
            &&& evaluate(Guard::ConstPos(var), analysis, subst) is None
            &&& evaluate(Guard::ConstNeg(var), analysis, subst) is None
            &&& evaluate(Guard::NotZero(var), analysis, subst) is None
            &&& evaluate(Guard::Compare(var, var1, k), analysis, subst) is None
        },
        bound_constant(analysis, subst, var1) is None ==> evaluate(
            Guard::Compare(var, var1, k),
            analysis,
            subst,
        ) is None,
{
}

/// A comparison never holds where one of the nodes has no constant, nor where no
/// comparison was named.
pub proof fn law_comparisons_need_constants(
    analysis: Seq<StoData>,
    subst: egg::Subst,
    var: Seq<char>,
    var1: Seq<char>,
    k: Option<Comparator>,
)
    requires
        bound_constant(analysis, subst, var) is Some,
        bound_constant(analysis, subst, var1) is Some,
        k is None || bound_constant(analysis, subst, var) == Some(None::<i64>) || bound_constant(
            analysis,
            subst,
            var1,
        ) == Some(None::<i64>),
    ensures
        evaluate(Guard::Compare(var, var1, k), analysis, subst) == Some(false),
{
}

/// What a comparison of two bound constants answers, by the text that names it. There
/// is no answer where the comparison overflows.
pub proof fn law_named_comparisons_hold(
    analysis: Seq<StoData>,
    subst: egg::Subst,
    var: Seq<char>,
    var1: Seq<char>,
    c: i64,
    c1: i64,
)
    requires
        bound_constant(analysis, subst, var) == Some(Some(c)),
        bound_constant(analysis, subst, var1) == Some(Some(c1)),
    ensures
        evaluate(Guard::Compare(var, var1, comparator_of("<"@)), analysis, subst) == Some(
            c < c1,
        ),
        evaluate(Guard::Compare(var, var1, comparator_of("<a"@)), analysis, subst)
            == if c1 == i64::MIN {
            None
        } else {
            Some(c < c1 || c < -c1)
        },
        evaluate(Guard::Compare(var, var1, comparator_of("<="@)), analysis, subst) == Some(
            c <= c1,
        ),
        evaluate(Guard::Compare(var, var1, comparator_of("<=+1"@)), analysis, subst)
            == if c1 == i64::MAX {
            None
        } else {
            Some(c - 1 <= c1)
        },
        evaluate(Guard::Compare(var, var1, comparator_of("<=a"@)), analysis, subst)
            == if c1 == i64::MIN {
            None
        } else {
            Some(c <= c1 || c <= -c1)
        },
        evaluate(Guard::Compare(var, var1, comparator_of("<=-a"@)), analysis, subst)
            == if c1 == i64::MIN {
            None
        } else {
            Some(c <= c1 && c <= -c1)
        },
        evaluate(Guard::Compare(var, var1, comparator_of("<=-a+1"@)), analysis, subst)
            == if c1 == i64::MIN {
            None
        } else {
            Some(c - 1 <= c1 && c - 1 <= -c1)
        },
        evaluate(Guard::Compare(var, var1, comparator_of(">"@)), analysis, subst) == Some(
            c > c1,
        ),
        evaluate(Guard::Compare(var, var1, comparator_of(">a"@)), analysis, subst)
            == if c1 == i64::MIN {
            None
        } else {
            Some(c > c1 && c > -c1)
        },
        evaluate(Guard::Compare(var, var1, comparator_of(">="@)), analysis, subst) == Some(
            c >= c1,
        ),
        evaluate(Guard::Compare(var, var1, comparator_of(">=a"@)), analysis, subst)
            == if c1 == i64::MIN {
            None
        } else {
            Some(c >= c1 && c >= -c1)
        },
        evaluate(Guard::Compare(var, var1, comparator_of(">=a-1"@)), analysis, subst)
            == if c1 == i64::MIN {
            None
        } else {
            Some(c + 1 >= c1 && c + 1 >= -c1)
        },
        evaluate(Guard::Compare(var, var1, comparator_of("!="@)), analysis, subst) == Some(
            !(c == c1),
        ),
        evaluate(Guard::Compare(var, var1, comparator_of("%0"@)), analysis, subst)
            == if c == i64::MIN && c1 == -1 {
            None
        } else {
            Some(c1 != 0 && (exists|k: int| is_times(c as int, k, c1 as int)))
        },
        evaluate(Guard::Compare(var, var1, comparator_of("!%0"@)), analysis, subst)
            == if c == i64::MIN && c1 == -1 {
            None
        } else {
            Some(c1 != 0 && !(exists|k: int| is_times(c as int, k, c1 as int)))
        },
        evaluate(Guard::Compare(var, var1, comparator_of("%0<"@)), analysis, subst) == Some(
            c1 > 0 && (exists|k: int| is_times(c as int, k, c1 as int)),
        ),
        evaluate(Guard::Compare(var, var1, comparator_of("%0>"@)), analysis, subst)
            == if c == i64::MIN && c1 == -1 {
            None
        } else {
            Some(c1 < 0 && (exists|k: int| is_times(c as int, k, c1 as int)))
        },
{
    lemma_comparator_texts();
    law_order_comparisons(c as int, c1 as int);
    law_magnitude_comparisons(c as int, c1 as int);
    law_multiple_comparisons(c as int, c1 as int);
}

/// Whether a condition holds depends on the constants of its variables and on nothing
/// else of the state or the match.
pub proof fn law_only_constants_count(
    guard: Guard,
    one: Seq<StoData>,
    other: Seq<StoData>,
    subst: egg::Subst,
    subst1: egg::Subst,
)
    requires
        match guard {
            Guard::Always => true,
            Guard::ConstPos(v) | Guard::ConstNeg(v) | Guard::NotZero(v) => bound_constant(
                one,
                subst,
                v,
            ) == bound_constant(other, subst1, v),
            Guard::Compare(v, v1, _) => bound_constant(one, subst, v) == bound_constant(
                other,
                subst1,
                v,
            ) && bound_constant(one, subst, v1) == bound_constant(other, subst1, v1),
        },
    ensures
        evaluate(guard, one, subst) == evaluate(guard, other, subst1),
{
}

} // verus!
