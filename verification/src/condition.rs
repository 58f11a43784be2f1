//! Conditions of rules: tests on the constants that the variables of a match are
//! bound to.

use vstd::prelude::*;

use crate::analysis::{State, StoData};
use crate::arith::{abs, rem};
use crate::math::Id;
use crate::numeral::{digits, is_digit, lemma_digits, u32_value};

verus! {

/// A comparison of two constants, `c` and `c1`.
#[derive(Clone, Copy, Debug, PartialEq, Eq, Structural)]
pub enum Comparator {
    /// `c < c1`
    Lt,
    /// `c < |c1|`
    LtAbs,
    /// `c <= c1`
    Le,
    /// `c <= c1 + 1`
    LePlusOne,
    /// `c <= |c1|`
    LeAbs,
    /// `c <= -|c1|`
    LeNegAbs,
    /// `c <= 1 - |c1|`
    LeOneMinusAbs,
    /// `c > c1`
    Gt,
    /// `c > |c1|`
    GtAbs,
    /// `c >= c1`
    Ge,
    /// `c >= |c1|`
    GeAbs,
    /// `c >= |c1| - 1`
    GeAbsMinusOne,
    /// `c != c1`
    Ne,
    /// `c` is a multiple of `c1`, and `c1` is not zero
    Multiple,
    /// `c` is no multiple of `c1`, and `c1` is not zero
    NotMultiple,
    /// `c` is a multiple of `c1`, and `c1` is positive
    MultipleOfPos,
    /// `c` is a multiple of `c1`, and `c1` is negative
    MultipleOfNeg,
}

/// How a comparison is spelled.
pub open spec fn comparator_text(k: Comparator) -> Seq<char> {
    match k {
        Comparator::Lt => seq!['<'],
        Comparator::LtAbs => seq!['<', 'a'],
        Comparator::Le => seq!['<', '='],
        Comparator::LePlusOne => seq!['<', '=', '+', '1'],
        Comparator::LeAbs => seq!['<', '=', 'a'],
        Comparator::LeNegAbs => seq!['<', '=', '-', 'a'],
        Comparator::LeOneMinusAbs => seq!['<', '=', '-', 'a', '+', '1'],
        Comparator::Gt => seq!['>'],
        Comparator::GtAbs => seq!['>', 'a'],
        Comparator::Ge => seq!['>', '='],
        Comparator::GeAbs => seq!['>', '=', 'a'],
        Comparator::GeAbsMinusOne => seq!['>', '=', 'a', '-', '1'],
        Comparator::Ne => seq!['!', '='],
        Comparator::Multiple => seq!['%', '0'],
        Comparator::NotMultiple => seq!['!', '%', '0'],
        Comparator::MultipleOfPos => seq!['%', '0', '<'],
        Comparator::MultipleOfNeg => seq!['%', '0', '>'],
    }
}

/// The comparison that `text` spells, if it spells one.
pub open spec fn comparator_of(text: Seq<char>) -> Option<Comparator> {
    if exists|k: Comparator| #[trigger] comparator_text(k) == text {
        Some(choose|k: Comparator| #[trigger] comparator_text(k) == text)
    } else {
        None
    }
}

/// The comparison holds of `c` and `c1`.
pub open spec fn comparator_holds(k: Comparator, c: int, c1: int) -> bool {
    match k {
        Comparator::Lt => c < c1,
        Comparator::LtAbs => c < abs(c1),
        Comparator::Le => c <= c1,
        Comparator::LePlusOne => c <= c1 + 1,
        Comparator::LeAbs => c <= abs(c1),
        Comparator::LeNegAbs => c <= -abs(c1),
        Comparator::LeOneMinusAbs => c <= 1 - abs(c1),
        Comparator::Gt => c > c1,
        Comparator::GtAbs => c > abs(c1),
        Comparator::Ge => c >= c1,
        Comparator::GeAbs => c >= abs(c1),
        Comparator::GeAbsMinusOne => c >= abs(c1) - 1,
        Comparator::Ne => c != c1,
        Comparator::Multiple => c1 != 0 && rem(c, c1) == 0,
        Comparator::NotMultiple => c1 != 0 && rem(c, c1) != 0,
        Comparator::MultipleOfPos => c1 > 0 && rem(c, c1) == 0,
        Comparator::MultipleOfNeg => c1 < 0 && rem(c, c1) == 0,
    }
}

/// The machine evaluates the comparison without overflow.
pub open spec fn compares_safely(k: Comparator, c: i64, c1: i64) -> bool {
    match k {
        Comparator::LePlusOne => c1 < i64::MAX,
        Comparator::LtAbs | Comparator::LeAbs | Comparator::LeNegAbs | Comparator::LeOneMinusAbs
        | Comparator::GtAbs | Comparator::GeAbs | Comparator::GeAbsMinusOne => c1 > i64::MIN,
        Comparator::Multiple | Comparator::NotMultiple | Comparator::MultipleOfNeg => !(c
            == i64::MIN && c1 == -1),
        _ => true,
    }
}

/// A number for a spelling, from its length and the characters that tell the
/// comparisons apart.
spec fn signature(s: Seq<char>) -> int {
    let second = if s.len() > 1 {
        s[1] as int
    } else {
        0
    };
    let third = if s.len() > 2 {
        s[2] as int
    } else {
        0
    };
    s.len() + 10 * (s[0] as int + 1000 * (second + 1000 * third))
}

spec fn comparator_signature(k: Comparator) -> int {
    match k {
        Comparator::Lt => 601,
        Comparator::LtAbs => 970602,
        Comparator::Le => 610602,
        Comparator::LePlusOne => 430610604,
        Comparator::LeAbs => 970610603,
        Comparator::LeNegAbs => 450610604,
        Comparator::LeOneMinusAbs => 450610606,
        Comparator::Gt => 621,
        Comparator::GtAbs => 970622,
        Comparator::Ge => 610622,
        Comparator::GeAbs => 970610623,
        Comparator::GeAbsMinusOne => 970610625,
        Comparator::Ne => 610332,
        Comparator::Multiple => 480372,
        Comparator::NotMultiple => 480370333,
        Comparator::MultipleOfPos => 600480373,
        Comparator::MultipleOfNeg => 620480373,
    }
}

proof fn lemma_comparator_signature(k: Comparator)
    ensures
        signature(comparator_text(k)) == comparator_signature(k),
{
}

proof fn lemma_comparator_text_injective(k1: Comparator, k2: Comparator)
    requires
        comparator_text(k1) == comparator_text(k2),
    ensures
        k1 == k2,
{
    lemma_comparator_signature(k1);
    lemma_comparator_signature(k2);
}

/// A comparison is read back from its spelling.
pub proof fn lemma_comparator_reads_back(k: Comparator)
    ensures
        comparator_of(comparator_text(k)) == Some(k),
{
    let other = choose|o: Comparator| #[trigger] comparator_text(o) == comparator_text(k);
    lemma_comparator_text_injective(other, k);
}

/// What each of the comparisons is spelled as, as text.
pub proof fn lemma_comparator_texts()
    ensures
        comparator_text(Comparator::Lt) == "<"@,
        comparator_text(Comparator::LtAbs) == "<a"@,
        comparator_text(Comparator::Le) == "<="@,
        comparator_text(Comparator::LePlusOne) == "<=+1"@,
        comparator_text(Comparator::LeAbs) == "<=a"@,
        comparator_text(Comparator::LeNegAbs) == "<=-a"@,
        comparator_text(Comparator::LeOneMinusAbs) == "<=-a+1"@,
        comparator_text(Comparator::Gt) == ">"@,
        comparator_text(Comparator::GtAbs) == ">a"@,
        comparator_text(Comparator::Ge) == ">="@,
        comparator_text(Comparator::GeAbs) == ">=a"@,
        comparator_text(Comparator::GeAbsMinusOne) == ">=a-1"@,
        comparator_text(Comparator::Ne) == "!="@,
        comparator_text(Comparator::Multiple) == "%0"@,
        comparator_text(Comparator::NotMultiple) == "!%0"@,
        comparator_text(Comparator::MultipleOfPos) == "%0<"@,
        comparator_text(Comparator::MultipleOfNeg) == "%0>"@,
        comparator_of("<"@) == Some(Comparator::Lt),
        comparator_of("<a"@) == Some(Comparator::LtAbs),
        comparator_of("<="@) == Some(Comparator::Le),
        comparator_of("<=+1"@) == Some(Comparator::LePlusOne),
        comparator_of("<=a"@) == Some(Comparator::LeAbs),
        comparator_of("<=-a"@) == Some(Comparator::LeNegAbs),
        comparator_of("<=-a+1"@) == Some(Comparator::LeOneMinusAbs),
        comparator_of(">"@) == Some(Comparator::Gt),
        comparator_of(">a"@) == Some(Comparator::GtAbs),
        comparator_of(">="@) == Some(Comparator::Ge),
        comparator_of(">=a"@) == Some(Comparator::GeAbs),
        comparator_of(">=a-1"@) == Some(Comparator::GeAbsMinusOne),
        comparator_of("!="@) == Some(Comparator::Ne),
        comparator_of("%0"@) == Some(Comparator::Multiple),
        comparator_of("!%0"@) == Some(Comparator::NotMultiple),
        comparator_of("%0<"@) == Some(Comparator::MultipleOfPos),
        comparator_of("%0>"@) == Some(Comparator::MultipleOfNeg),
{
    reveal_strlit("<");
    assert("<"@ =~= comparator_text(Comparator::Lt));
    lemma_comparator_reads_back(Comparator::Lt);
    reveal_strlit("<a");
    assert("<a"@ =~= comparator_text(Comparator::LtAbs));
    lemma_comparator_reads_back(Comparator::LtAbs);
    reveal_strlit("<=");
    assert("<="@ =~= comparator_text(Comparator::Le));
    lemma_comparator_reads_back(Comparator::Le);
    reveal_strlit("<=+1");
    assert("<=+1"@ =~= comparator_text(Comparator::LePlusOne));
    lemma_comparator_reads_back(Comparator::LePlusOne);
    reveal_strlit("<=a");
    assert("<=a"@ =~= comparator_text(Comparator::LeAbs));
    lemma_comparator_reads_back(Comparator::LeAbs);
    reveal_strlit("<=-a");
    assert("<=-a"@ =~= comparator_text(Comparator::LeNegAbs));
    lemma_comparator_reads_back(Comparator::LeNegAbs);
    reveal_strlit("<=-a+1");
    assert("<=-a+1"@ =~= comparator_text(Comparator::LeOneMinusAbs));
    lemma_comparator_reads_back(Comparator::LeOneMinusAbs);
    reveal_strlit(">");
    assert(">"@ =~= comparator_text(Comparator::Gt));
    lemma_comparator_reads_back(Comparator::Gt);
    reveal_strlit(">a");
    assert(">a"@ =~= comparator_text(Comparator::GtAbs));
    lemma_comparator_reads_back(Comparator::GtAbs);
    reveal_strlit(">=");
    assert(">="@ =~= comparator_text(Comparator::Ge));
    lemma_comparator_reads_back(Comparator::Ge);
    reveal_strlit(">=a");
    assert(">=a"@ =~= comparator_text(Comparator::GeAbs));
    lemma_comparator_reads_back(Comparator::GeAbs);
    reveal_strlit(">=a-1");
    assert(">=a-1"@ =~= comparator_text(Comparator::GeAbsMinusOne));
    lemma_comparator_reads_back(Comparator::GeAbsMinusOne);
    reveal_strlit("!=");
    assert("!="@ =~= comparator_text(Comparator::Ne));
    lemma_comparator_reads_back(Comparator::Ne);
    reveal_strlit("%0");
    assert("%0"@ =~= comparator_text(Comparator::Multiple));
    lemma_comparator_reads_back(Comparator::Multiple);
    reveal_strlit("!%0");
    assert("!%0"@ =~= comparator_text(Comparator::NotMultiple));
    lemma_comparator_reads_back(Comparator::NotMultiple);
    reveal_strlit("%0<");
    assert("%0<"@ =~= comparator_text(Comparator::MultipleOfPos));
    lemma_comparator_reads_back(Comparator::MultipleOfPos);
    reveal_strlit("%0>");
    assert("%0>"@ =~= comparator_text(Comparator::MultipleOfNeg));
    lemma_comparator_reads_back(Comparator::MultipleOfNeg);
}

fn read_comparator(text: &String) -> (r: Option<Comparator>)
    ensures
        r == comparator_of(text@),
{
    proof {
        lemma_comparator_texts();
    }
    if *text == "<".to_owned() {
        Some(Comparator::Lt)
    } else if *text == "<a".to_owned() {
        Some(Comparator::LtAbs)
    } else if *text == "<=".to_owned() {
        Some(Comparator::Le)
    } else if *text == "<=+1".to_owned() {
        Some(Comparator::LePlusOne)
    } else if *text == "<=a".to_owned() {
        Some(Comparator::LeAbs)
    } else if *text == "<=-a".to_owned() {
        Some(Comparator::LeNegAbs)
    } else if *text == "<=-a+1".to_owned() {
        Some(Comparator::LeOneMinusAbs)
    } else if *text == ">".to_owned() {
        Some(Comparator::Gt)
    } else if *text == ">a".to_owned() {
        Some(Comparator::GtAbs)
    } else if *text == ">=".to_owned() {
        Some(Comparator::Ge)
    } else if *text == ">=a".to_owned() {
        Some(Comparator::GeAbs)
    } else if *text == ">=a-1".to_owned() {
        Some(Comparator::GeAbsMinusOne)
    } else if *text == "!=".to_owned() {
        Some(Comparator::Ne)
    } else if *text == "%0".to_owned() {
        Some(Comparator::Multiple)
    } else if *text == "!%0".to_owned() {
        Some(Comparator::NotMultiple)
    } else if *text == "%0<".to_owned() {
        Some(Comparator::MultipleOfPos)
    } else if *text == "%0>".to_owned() {
        Some(Comparator::MultipleOfNeg)
    } else {
        None
    }
}

fn magnitude(x: i64) -> (r: i64)
    requires
        x > i64::MIN,
    ensures
        r == abs(x as int),
{
    if x < 0 {
        -x
    } else {
        x
    }
}

fn is_multiple(c: i64, c1: i64) -> (r: bool)
    requires
        !(c == i64::MIN && c1 == -1),
    ensures
        r == (c1 != 0 && rem(c as int, c1 as int) == 0),
{
    match c.checked_rem(c1) {
        Some(rest) => rest == 0,
        None => false,
    }
}

/// Evaluates a comparison of two constants.
pub fn compare(k: Comparator, c: i64, c1: i64) -> (r: bool)
    requires
        compares_safely(k, c, c1),
    ensures
        r == comparator_holds(k, c as int, c1 as int),
{
    match k {
        Comparator::Lt => c < c1,
        Comparator::LtAbs => c < magnitude(c1),
        Comparator::Le => c <= c1,
        Comparator::LePlusOne => c <= c1 + 1,
        Comparator::LeAbs => c <= magnitude(c1),
        Comparator::LeNegAbs => c <= -magnitude(c1),
        Comparator::LeOneMinusAbs => c <= 1 - magnitude(c1),
        Comparator::Gt => c > c1,
        Comparator::GtAbs => c > magnitude(c1),
        Comparator::Ge => c >= c1,
        Comparator::GeAbs => c >= magnitude(c1),
        Comparator::GeAbsMinusOne => c >= magnitude(c1) - 1,
        Comparator::Ne => c != c1,
        Comparator::Multiple => is_multiple(c, c1),
        Comparator::NotMultiple => c1 != 0 && !is_multiple(c, c1),
        Comparator::MultipleOfPos => c1 > 0 && is_multiple(c, c1),
        Comparator::MultipleOfNeg => c1 < 0 && is_multiple(c, c1),
    }
}

/// Tells whether a comparison of two constants evaluates without overflow.
pub fn safe_to_compare(k: Comparator, c: i64, c1: i64) -> (r: bool)
    ensures
        r == compares_safely(k, c, c1),
{
    match k {
        Comparator::LePlusOne => c1 < i64::MAX,
        Comparator::LtAbs | Comparator::LeAbs | Comparator::LeNegAbs | Comparator::LeOneMinusAbs
        | Comparator::GtAbs | Comparator::GeAbs | Comparator::GeAbsMinusOne => c1 > i64::MIN,
        Comparator::Multiple | Comparator::NotMultiple | Comparator::MultipleOfNeg => !(c
            == i64::MIN && c1 == -1),
        _ => true,
    }
}

/// What an `egg::Var` is read from and written as: a question mark and a name
/// after it. A name that begins with `#` is a 32-bit number, which is written
/// without leading zeros.
pub open spec fn variable_name(s: Seq<char>) -> Option<Seq<char>> {
    if s.len() > 1 && s[0] == '?' {
        if s[1] == '#' {
            match u32_value(s.skip(2)) {
                Some(n) => Some(seq!['?', '#'] + digits(n as nat)),
                None => None,
            }
        } else {
            Some(s)
        }
    } else {
        None
    }
}

/// A text that may be missing.
pub open spec fn text_of(s: Option<String>) -> Option<Seq<char>> {
    match s {
        Some(s) => Some(s@),
        None => None,
    }
}

/// `FromStr` and then `Display` of `egg::Var`. A text without a leading question
/// mark, or with nothing behind it, is rejected, and so is `?#` followed by
/// anything but a 32-bit number. Other texts are kept as they are, except that a
/// number loses its leading zeros and its plus sign.
#[verifier::external_body]
pub(crate) fn v(s: &str) -> (r: Option<String>)
    ensures
        text_of(r) == variable_name(s@),
{
    s.parse::<egg::Var>().ok().map(|var| var.to_string())
}

/// A substitution of `egg`, from variables to the nodes they are bound to.
#[verifier::external_type_specification]
#[verifier::external_body]
pub struct ExSubst(egg::Subst);

/// What a substitution binds: under a text that a variable is written as, the index
/// of the node that the variable read from that text is bound to.
pub uninterp spec fn bindings(subst: egg::Subst) -> Map<Seq<char>, Id>;

/// What is bound under a variable, if anything is.
pub open spec fn binding(bound: Map<Seq<char>, Id>, var: Seq<char>) -> Option<Id> {
    if bound.contains_key(var) {
        Some(bound[var])
    } else {
        None
    }
}

/// `Subst::get` of `egg`, at the variable that is read from `var`. It gives the
/// index that the variable is bound to, or nothing where it is not bound.
#[verifier::external_body]
pub(crate) fn lookup(subst: &egg::Subst, var: &str) -> (r: Option<Id>)
    requires
        variable_name(var@) == Some(var@),
    ensures
        r == binding(bindings(*subst), var@),
{
    subst.get(var.parse().unwrap()).map(|id| usize::from(*id))
}

/// A written variable is read as itself.
pub proof fn lemma_variable_name_settles(s: Seq<char>)
    requires
        variable_name(s) is Some,
    ensures
        variable_name(variable_name(s)->0) == variable_name(s),
{
    if s[1] == '#' {
        let n = u32_value(s.skip(2))->0;
        let t = seq!['?', '#'] + digits(n as nat);
        lemma_digits(n as nat);
        assert(t.skip(2) =~= digits(n as nat));
        assert(is_digit(digits(n as nat)[0]));
    }
}

/// A condition of a rule.
#[derive(Clone, Debug)]
pub enum Condition {
    /// No condition.
    Always,
    /// The variable is bound to a positive constant.
    ConstPos(String),
    /// The variable is bound to a negative constant.
    ConstNeg(String),
    /// The variable is not bound to the constant zero.
    NotZero(String),
    /// Both variables are bound to constants, and the comparison holds of them;
    /// it never does where it is missing.
    Compare(String, String, Option<Comparator>),
}

/// What a [`Condition`] holds.
pub enum Guard {
    Always,
    ConstPos(Seq<char>),
    ConstNeg(Seq<char>),
    NotZero(Seq<char>),
    Compare(Seq<char>, Seq<char>, Option<Comparator>),
}

impl View for Condition {
    type V = Guard;

    open spec fn view(&self) -> Guard {
        match self {
            Condition::Always => Guard::Always,
            Condition::ConstPos(var) => Guard::ConstPos(var@),
            Condition::ConstNeg(var) => Guard::ConstNeg(var@),
            Condition::NotZero(var) => Guard::NotZero(var@),
            Condition::Compare(var, var1, k) => Guard::Compare(var@, var1@, *k),
        }
    }
}

/// The index of the node that a variable is bound to. `None` where the text is no
/// variable or the variable is not bound.
pub open spec fn bound_node(subst: egg::Subst, var: Seq<char>) -> Option<Id> {
    match variable_name(var) {
        Some(name) => binding(bindings(subst), name),
        None => None,
    }
}

/// The constant of the node that a variable is bound to. `None` where the text
/// is no variable, the variable is not bound, or there is no such node; inside,
/// `None` where the node has no constant.
pub open spec fn bound_constant(
    analysis: Seq<StoData>,
    subst: egg::Subst,
    var: Seq<char>,
) -> Option<Option<i64>> {
    match bound_node(subst, var) {
        Some(id) => if id < analysis.len() {
            Some(analysis[id as int].constant)
        } else {
            None
        },
        None => None,
    }
}

/// Whether a condition holds of a match. `None` where it cannot be evaluated: a
/// variable has no node, or a comparison overflows.
pub open spec fn evaluate(guard: Guard, analysis: Seq<StoData>, subst: egg::Subst) -> Option<bool> {
    match guard {
        Guard::Always => Some(true),
        Guard::ConstPos(var) => match bound_constant(analysis, subst, var) {
            Some(k) => Some(k matches Some(c) && c > 0),
            None => None,
        },
        Guard::ConstNeg(var) => match bound_constant(analysis, subst, var) {
            Some(k) => Some(k matches Some(c) && c < 0),
            None => None,
        },
        Guard::NotZero(var) => match bound_constant(analysis, subst, var) {
            Some(k) => Some(k != Some(0i64)),
            None => None,
        },
        Guard::Compare(var, var1, k) => match (
            bound_constant(analysis, subst, var),
            bound_constant(analysis, subst, var1),
        ) {
            (Some(Some(c)), Some(Some(c1))) => match k {
                Some(k) => if compares_safely(k, c, c1) {
                    Some(comparator_holds(k, c as int, c1 as int))
                } else {
                    None
                },
                None => Some(false),
            },
            (Some(_), Some(_)) => Some(false),
            _ => None,
        },
    }
}

/// The condition that a variable is bound to a positive constant.
pub fn sto_is_const_pos(var: &str) -> (r: Condition)
    ensures
        r@ == Guard::ConstPos(var@),
{
    Condition::ConstPos(var.to_owned())
}

/// The condition that a variable is bound to a negative constant.
pub fn sto_is_const_neg(var: &str) -> (r: Condition)
    ensures
        r@ == Guard::ConstNeg(var@),
{
    Condition::ConstNeg(var.to_owned())
}

/// The condition that a variable is not bound to the constant zero. It holds of
/// a node without a constant.
pub fn sto_is_not_zero(var: &str) -> (r: Condition)
    ensures
        r@ == Guard::NotZero(var@),
{
    Condition::NotZero(var.to_owned())
}

/// The condition that two variables are bound to constants of which a comparison
/// holds. Where `comp` spells no comparison the condition never holds.
pub fn sto_compare_c0_c1(var: &str, var1: &str, comp: &str) -> (r: Condition)
    ensures
        r@ == Guard::Compare(var@, var1@, comparator_of(comp@)),
{
    Condition::Compare(var.to_owned(), var1.to_owned(), read_comparator(&comp.to_owned()))
}

/// The constant of a node, if it has one.
pub fn const_of(state: &State, id: Id) -> (r: Option<i64>)
    requires
        id < state.analysis@.len(),
    ensures
        r == state.analysis@[id as int].constant,
{
    state.analysis[id].constant
}

fn const_of_var(state: &State, subst: &egg::Subst, var: &str) -> (r: Option<Option<i64>>)
    ensures
        r == bound_constant(state.analysis@, *subst, var@),
{
    match v(var) {
        Some(name) => {
            proof {
                lemma_variable_name_settles(var@);
            }
            match lookup(subst, name.as_str()) {
                Some(id) => if id < state.analysis.len() {
                    Some(const_of(state, id))
                } else {
                    None
                },
                None => None,
            }
        },
        None => None,
    }
}

impl Condition {
    /// Whether the condition holds of a match, given the state and the
    /// substitution of the match. `None` where it cannot be evaluated: a variable
    /// is not bound to a node, or a comparison overflows.
    pub fn try_holds(&self, state: &State, _pos: Id, subst: &egg::Subst) -> (r: Option<bool>)
        ensures
            r == evaluate(self@, state.analysis@, *subst),
    {
        match self {
            Condition::Always => Some(true),
            Condition::ConstPos(var) => match const_of_var(state, subst, var.as_str()) {
                Some(Some(c)) => Some(c > 0),
                Some(None) => Some(false),
                None => None,
            },
            Condition::ConstNeg(var) => match const_of_var(state, subst, var.as_str()) {
                Some(Some(c)) => Some(c < 0),
                Some(None) => Some(false),
                None => None,
            },
            Condition::NotZero(var) => match const_of_var(state, subst, var.as_str()) {
                Some(Some(c)) => Some(c != 0),
                Some(None) => Some(true),
                None => None,
            },
            Condition::Compare(var, var1, k) => match (
                const_of_var(state, subst, var.as_str()),
                const_of_var(state, subst, var1.as_str()),
            ) {
                (Some(Some(c)), Some(Some(c1))) => match k {
                    Some(k) => if safe_to_compare(*k, c, c1) {
                        Some(compare(*k, c, c1))
                    } else {
                        None
                    },
                    None => Some(false),
                },
                (Some(_), Some(_)) => Some(false),
                _ => None,
            },
        }
    }

    /// Whether the condition holds of a match, given the state and the
    /// substitution of the match.
    pub fn holds(&self, state: &State, pos: Id, subst: &egg::Subst) -> (r: bool)
        requires
            evaluate(self@, state.analysis@, *subst) is Some,
        ensures
            Some(r) == evaluate(self@, state.analysis@, *subst),
    {
        self.try_holds(state, pos, subst).unwrap()
    }
}

} // verus!
