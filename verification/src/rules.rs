//! The rewrite rules.

use vstd::prelude::*;

use crate::condition::{Condition, Guard};
use crate::expr::{holds_parts_of, is_writable, text, Expr};
use crate::pattern::{pat, read_pattern, Pattern};
use crate::rule::{is_closed, Rule};
use crate::rule_names::law_names_are_distinct;
use crate::rules::addition::add_rules;
use crate::rules::conjunction::and_rules;
use crate::rules::connectives::andor_rules;
use crate::rules::disjunction::or_rules;
use crate::rules::division::div_rules;
use crate::rules::equality::eq_rules;
use crate::rules::inequality::ineq_rules;
use crate::rules::maximum::max_rules;
use crate::rules::minimum::min_rules;
use crate::rules::multiplication::mul_rules;
use crate::rules::negation::not_rules;
use crate::rules::order::lt_rules;
use crate::rules::remainder::modulo_rules;
use crate::rules::subtraction::sub_rules;
use crate::soundness::law_rules_are_closed;

pub mod addition;
pub mod conjunction;
pub mod connectives;
pub mod disjunction;
pub mod division;
pub mod equality;
pub mod inequality;
pub mod maximum;
pub mod minimum;
pub mod multiplication;
pub mod negation;
pub mod order;
pub mod remainder;
pub mod subtraction;

pub use crate::rules::addition::sto_add;
pub use crate::rules::conjunction::sto_and;
pub use crate::rules::connectives::sto_andor;
pub use crate::rules::disjunction::sto_or;
pub use crate::rules::division::sto_div;
pub use crate::rules::equality::sto_eq;
pub use crate::rules::inequality::sto_ineq;
pub use crate::rules::maximum::sto_max;
pub use crate::rules::minimum::sto_min;
pub use crate::rules::multiplication::sto_mul;
pub use crate::rules::negation::sto_not;
pub use crate::rules::order::sto_lt;
pub use crate::rules::remainder::sto_modulo;
pub use crate::rules::subtraction::sto_sub;

verus! {

/// A rewrite rule that a sampler can apply: what the searcher matches is replaced
/// by what the applier makes of the match, where the condition holds.
#[derive(Clone, Debug)]
pub struct StoRewrite {
    pub name: String,
    pub searcher: Pattern,
    pub applier: Pattern,
    pub condition: Condition,
}

pub type StoRw = StoRewrite;

impl View for StoRewrite {
    type V = Rule;

    open spec fn view(&self) -> Rule {
        Rule {
            name: self.name@,
            lhs: self.searcher@,
            rhs: self.applier@,
            guard: self.condition@,
        }
    }
}

impl StoRewrite {
    /// Both patterns are well-formed.
    pub open spec fn wf(&self) -> bool {
        self.searcher.wf() && self.applier.wf()
    }
}

/// The pattern is the one that is read from how the expression is written. It denotes
/// the expression, and holds no node besides.
pub open spec fn presents(pattern: Pattern, e: Expr) -> bool {
    &&& pattern.wf()
    &&& pattern@ == e
    &&& read_pattern(text(e)) == Some(pattern.shapes())
    &&& holds_parts_of(pattern.shapes(), e)
}

/// The vector holds the rules, in order, and the patterns of each rewrite present the
/// sides of its rule.
pub open spec fn holds_rules(v: Seq<StoRw>, rules: Seq<Rule>) -> bool {
    &&& v.len() == rules.len()
    &&& forall|i: int|
        0 <= i < v.len() ==> {
            &&& (#[trigger] v[i])@ == rules[i]
            &&& presents(v[i].searcher, rules[i].lhs)
            &&& presents(v[i].applier, rules[i].rhs)
        }
}

/// The rewrite is the rule, and its patterns present the sides of the rule.
#[verifier::opaque]
pub open spec fn is_rule(rewrite: StoRw, rule: Rule) -> bool {
    &&& rewrite@ == rule
    &&& presents(rewrite.searcher, rule.lhs)
    &&& presents(rewrite.applier, rule.rhs)
}

/// Rewrites that are the rules one by one hold the rules.
pub proof fn lemma_holds_rules(v: Seq<StoRw>, rules: Seq<Rule>)
    requires
        v.len() == rules.len(),
        forall|i: int| 0 <= i < v.len() ==> is_rule(#[trigger] v[i], rules[i]),
    ensures
        holds_rules(v, rules),
{
    reveal(is_rule);
}

/// The rule has that name and condition, and its sides are written as the two
/// texts.
#[verifier::opaque]
pub open spec fn is_written(
    rule: Rule,
    name: Seq<char>,
    lhs: Seq<char>,
    rhs: Seq<char>,
    guard: Guard,
) -> bool {
    &&& rule.name == name
    &&& rule.guard == guard
    &&& is_writable(rule.lhs)
    &&& is_writable(rule.rhs)
    &&& text(rule.lhs) =~= lhs
    &&& text(rule.rhs) =~= rhs
    &&& lhs.len() <= u32::MAX
    &&& rhs.len() <= u32::MAX
}

/// The text is read as a pattern. That is known of a text that a writable
/// expression is written as, and of others by what they are read as.
#[verifier::opaque]
pub open spec fn is_readable(s: Seq<char>) -> bool {
    &&& s.len() <= u32::MAX
    &&& (read_pattern(s) is Some || exists|e: Expr| is_writable(e) && #[trigger] text(e) == s)
}

/// The texts that a rule is written as are read as patterns.
pub proof fn lemma_written_is_readable()
    ensures
        forall|rule: Rule, name: Seq<char>, lhs: Seq<char>, rhs: Seq<char>, guard: Guard| #[trigger]
            is_written(rule, name, lhs, rhs, guard) ==> is_readable(lhs) && is_readable(rhs),
{
    reveal(is_written);
    reveal(is_readable);
}

/// The rewrite has that name and condition, and its patterns are those that the two
/// texts are read as.
pub open spec fn is_read_from(
    rewrite: StoRw,
    name: Seq<char>,
    lhs: Seq<char>,
    rhs: Seq<char>,
    guard: Guard,
) -> bool {
    &&& rewrite.name@ == name
    &&& read_pattern(lhs) == Some(rewrite.searcher.shapes())
    &&& read_pattern(rhs) == Some(rewrite.applier.shapes())
    &&& rewrite.condition@ == guard
    &&& rewrite.wf()
}

/// A rewrite without a condition, from the texts of its patterns.
pub fn sto_rw(name: &str, lhs: &str, rhs: &str) -> (r: StoRw)
    requires
        is_readable(lhs@),
        is_readable(rhs@),
    ensures
        is_read_from(r, name@, lhs@, rhs@, Guard::Always),
        forall|rule: Rule| #[trigger]
            is_written(rule, name@, lhs@, rhs@, Guard::Always) ==> is_rule(r, rule),
{
    sto_rw_cond(name, lhs, rhs, Condition::Always)
}

/// A rewrite with a condition, from the texts of its patterns.
pub fn sto_rw_cond(name: &str, lhs: &str, rhs: &str, cond: Condition) -> (r: StoRw)
    requires
        is_readable(lhs@),
        is_readable(rhs@),
    ensures
        is_read_from(r, name@, lhs@, rhs@, cond@),
        forall|rule: Rule| #[trigger]
            is_written(rule, name@, lhs@, rhs@, cond@) ==> is_rule(r, rule),
{
    reveal(is_readable);
    try_sto_rw_cond(name, lhs, rhs, cond).unwrap()
}

/// A rewrite with a condition, from the texts of its patterns. `None` where one of
/// the texts is not read as a pattern.
pub fn try_sto_rw_cond(name: &str, lhs: &str, rhs: &str, cond: Condition) -> (r: Option<StoRw>)
    requires
        lhs@.len() <= u32::MAX,
        rhs@.len() <= u32::MAX,
    ensures
        match r {
            Some(rewrite) => is_read_from(rewrite, name@, lhs@, rhs@, cond@),
            None => read_pattern(lhs@) is None || read_pattern(rhs@) is None,
        },
        r is None ==> !(is_readable(lhs@) && is_readable(rhs@)),
        forall|rule: Rule| #[trigger]
            is_written(rule, name@, lhs@, rhs@, cond@) ==> (r matches Some(rewrite) && is_rule(
                rewrite,
                rule,
            )),
{
    reveal(is_written);
    reveal(is_readable);
    reveal(is_rule);
    match (pat(lhs), pat(rhs)) {
        (Some(searcher), Some(applier)) => Some(
            StoRewrite { name: name.to_owned(), searcher, applier, condition: cond },
        ),
        _ => None,
    }
}

/// All rules, set by set.
pub open spec fn all_rules() -> Seq<Rule> {
    add_rules() + mul_rules() + sub_rules() + div_rules() + eq_rules() + and_rules() + or_rules()
        + not_rules() + max_rules() + min_rules() + lt_rules() + ineq_rules() + modulo_rules()
        + andor_rules()
}

proof fn lemma_holds_both(v: Seq<StoRw>, rules: Seq<Rule>, w: Seq<StoRw>, more: Seq<Rule>)
    requires
        holds_rules(v, rules),
        holds_rules(w, more),
    ensures
        holds_rules(v + w, rules + more),
{
    let vw = v + w;
    let both = rules + more;
    assert forall|i: int| 0 <= i < vw.len() implies {
        &&& (#[trigger] vw[i])@ == both[i]
        &&& presents(vw[i].searcher, both[i].lhs)
        &&& presents(vw[i].applier, both[i].rhs)
    } by {
        if i < v.len() {
            assert(vw[i] == v[i]);
        } else {
            assert(vw[i] == w[i - v.len()]);
        }
    }
}

fn extend(
    rules: &mut Vec<StoRw>,
    set: Vec<StoRw>,
    Ghost(known): Ghost<Seq<Rule>>,
    Ghost(more): Ghost<Seq<Rule>>,
)
    requires
        holds_rules(old(rules)@, known),
        holds_rules(set@, more),
    ensures
        holds_rules(final(rules)@, known + more),
{
    proof {
        lemma_holds_both(rules@, known, set@, more);
    }
    let mut set = set;
    rules.append(&mut set);
}

/// All rules, set by set. No two have the same name, and a match of a rule binds
/// every variable that its right side or its condition needs.
pub fn all_sto_rules() -> (r: Vec<StoRw>)
    ensures
        holds_rules(r@, all_rules()),
        forall|i: int, j: int|
            0 <= i < j < r@.len() ==> (#[trigger] r@[i]).name@ != (#[trigger] r@[j]).name@,
        forall|i: int| 0 <= i < r@.len() ==> is_closed((#[trigger] r@[i])@),
{
    let mut rules = sto_add();
    let ghost known = add_rules();
    extend(&mut rules, sto_mul(), Ghost(known), Ghost(mul_rules()));
    proof {
        known = known + mul_rules();
    }
    extend(&mut rules, sto_sub(), Ghost(known), Ghost(sub_rules()));
    proof {
        known = known + sub_rules();
    }
    extend(&mut rules, sto_div(), Ghost(known), Ghost(div_rules()));
    proof {
        known = known + div_rules();
    }
    extend(&mut rules, sto_eq(), Ghost(known), Ghost(eq_rules()));
    proof {
        known = known + eq_rules();
    }
    extend(&mut rules, sto_and(), Ghost(known), Ghost(and_rules()));
    proof {
        known = known + and_rules();
    }
    extend(&mut rules, sto_or(), Ghost(known), Ghost(or_rules()));
    proof {
        known = known + or_rules();
    }
    extend(&mut rules, sto_not(), Ghost(known), Ghost(not_rules()));
    proof {
        known = known + not_rules();
    }
    extend(&mut rules, sto_max(), Ghost(known), Ghost(max_rules()));
    proof {
        known = known + max_rules();
    }
    extend(&mut rules, sto_min(), Ghost(known), Ghost(min_rules()));
    proof {
        known = known + min_rules();
    }
    extend(&mut rules, sto_lt(), Ghost(known), Ghost(lt_rules()));
    proof {
        known = known + lt_rules();
    }
    extend(&mut rules, sto_ineq(), Ghost(known), Ghost(ineq_rules()));
    proof {
        known = known + ineq_rules();
    }
    extend(&mut rules, sto_modulo(), Ghost(known), Ghost(modulo_rules()));
    proof {
        known = known + modulo_rules();
    }
    extend(&mut rules, sto_andor(), Ghost(known), Ghost(andor_rules()));
    proof {
        assert forall|i: int, j: int| 0 <= i < j < rules@.len() implies (#[trigger] rules@[i]).name@
            != (#[trigger] rules@[j]).name@ by {
            law_names_are_distinct(i, j);
            assert(rules@[i]@ == all_rules()[i]);
            assert(rules@[j]@ == all_rules()[j]);
        }
        assert forall|i: int| 0 <= i < rules@.len() implies is_closed((#[trigger] rules@[i])@) by {
            assert(rules@[i]@ == all_rules()[i]);
            law_rules_are_closed(all_rules()[i]);
        }
    }
    rules
}

} // verus!
