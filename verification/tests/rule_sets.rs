use egg::{Id, Subst, Var};
use std::collections::BTreeMap;
use stochastic_rules::analysis::{State, StoConstantFold, StoData};
use stochastic_rules::condition::{sto_is_const_pos, Comparator, Condition};
use stochastic_rules::math::{Math, Parts};
use stochastic_rules::pattern::{Pattern, PatternNode};
use stochastic_rules::rules::{
    all_sto_rules, sto_add, sto_and, sto_andor, sto_div, sto_eq, sto_ineq, sto_lt, sto_max,
    sto_min, sto_modulo, sto_mul, sto_not, sto_or, sto_rw, sto_rw_cond, sto_sub, try_sto_rw_cond,
    StoRw,
};

fn name_of(node: &Math) -> &'static str {
    match node {
        Math::Add(_) => "+",
        Math::Sub(_) => "-",
        Math::Mul(_) => "*",
        Math::Div(_) => "/",
        Math::Mod(_) => "%",
        Math::Max(_) => "max",
        Math::Min(_) => "min",
        Math::Not(_) => "!",
        Math::Lt(_) => "<",
        Math::Gt(_) => ">",
        Math::Let(_) => "<=",
        Math::Get(_) => ">=",
        Math::Eq(_) => "==",
        Math::IEq(_) => "!=",
        Math::And(_) => "&&",
        Math::Or(_) => "||",
        _ => unreachable!(),
    }
}

fn written_at(pattern: &Pattern, i: usize) -> String {
    match &pattern.ast[i] {
        PatternNode::Var(v) => v.clone(),
        PatternNode::ENode(node) => match node.parts() {
            Parts::Constant(c) => format!("{}", c),
            Parts::Symbol => format!("{:?}", node),
            Parts::Not(a) => format!("(! {})", written_at(pattern, a)),
            Parts::Binary(_, a, b) => format!(
                "({} {} {})",
                name_of(node),
                written_at(pattern, a),
                written_at(pattern, b)
            ),
        },
    }
}

fn written(pattern: &Pattern) -> String {
    written_at(pattern, pattern.ast.len() - 1)
}

fn condition(cond: &Condition) -> String {
    match cond {
        Condition::Always => String::new(),
        Condition::ConstPos(v) => format!("{} > 0", v),
        Condition::ConstNeg(v) => format!("{} < 0", v),
        Condition::NotZero(v) => format!("{} not 0", v),
        Condition::Compare(v, w, k) => {
            let k: Comparator = k.unwrap();
            format!("{} {:?} {}", v, k, w)
        }
    }
}

fn check(rules: Vec<StoRw>, table: &[(&str, &str, &str, &str)]) {
    assert_eq!(rules.len(), table.len());
    for (rule, (name, lhs, rhs, cond)) in rules.iter().zip(table) {
        assert_eq!(rule.name, *name);
        assert_eq!(written(&rule.searcher), *lhs, "{}", name);
        assert_eq!(written(&rule.applier), *rhs, "{}", name);
        assert_eq!(condition(&rule.condition), *cond, "{}", name);
    }
}

#[test]
fn addition_rules_are_as_written() {
    check(
        sto_add(),
        &[
            ("add-comm", "(+ ?a ?b)", "(+ ?b ?a)", ""),
            ("add-assoc", "(+ ?a (+ ?b ?c))", "(+ (+ ?a ?b) ?c)", ""),
            ("add-zero", "(+ ?a 0)", "?a", ""),
            ("add-dist-mul", "(* ?a (+ ?b ?c))", "(+ (* ?a ?b) (* ?a ?c))", ""),
            ("add-fact-mul", "(+ (* ?a ?b) (* ?a ?c))", "(* ?a (+ ?b ?c))", ""),
            ("add-denom-mul", "(+ (/ ?a ?b) ?c)", "(/ (+ ?a (* ?b ?c)) ?b)", ""),
            ("add-denom-div", "(/ (+ ?a (* ?b ?c)) ?b)", "(+ (/ ?a ?b) ?c)", ""),
            ("add-div-mod", "(+ (/ ?x 2) (% ?x 2))", "(/ (+ ?x 1) 2)", ""),
            (
                "add-const",
                "(+ (* ?x ?a) (* ?y ?b))",
                "(* (+ (* ?x (/ ?a ?b)) ?y) ?b)",
                "?a Multiple ?b",
            ),
        ],
    );
}

#[test]
fn multiplication_rules_are_as_written() {
    check(
        sto_mul(),
        &[
            ("mul-comm", "(* ?a ?b)", "(* ?b ?a)", ""),
            ("mul-assoc", "(* ?a (* ?b ?c))", "(* (* ?a ?b) ?c)", ""),
            ("mul-zero", "(* ?a 0)", "0", ""),
            ("mul-one", "(* ?a 1)", "?a", ""),
            ("mul-cancel-div", "(* (/ ?a ?b) ?b)", "(- ?a (% ?a ?b))", ""),
            ("mul-max-min", "(* (max ?a ?b) (min ?a ?b))", "(* ?a ?b)", ""),
            ("div-cancel-mul", "(/ (* ?y ?x) ?x)", "?y", ""),
        ],
    );
}

#[test]
fn subtraction_rules_are_as_written() {
    check(
        sto_sub(),
        &[
            ("sub-to-add", "(- ?a ?b)", "(+ ?a (* -1 ?b))", ""),
        ],
    );
}

#[test]
fn division_rules_are_as_written() {
    check(
        sto_div(),
        &[
            ("div-zero", "(/ 0 ?x)", "0", ""),
            ("div-cancel", "(/ ?a ?a)", "1", "?a not 0"),
            ("div-minus-down", "(/ (* -1 ?a) ?b)", "(/ ?a (* -1 ?b))", ""),
            ("div-minus-up", "(/ ?a (* -1 ?b))", "(/ (* -1 ?a) ?b)", ""),
            ("div-minus-in", "(* -1 (/ ?a ?b))", "(/ (* -1 ?a) ?b)", ""),
            ("div-minus-out", "(/ (* -1 ?a) ?b)", "(* -1 (/ ?a ?b))", ""),
            ("div-consts-div", "(/ (* ?x ?a) ?b)", "(/ ?x (/ ?b ?a))", "?b MultipleOfPos ?a"),
            ("div-consts-mul", "(/ (* ?x ?a) ?b)", "(* ?x (/ ?a ?b))", "?a MultipleOfPos ?b"),
            (
                "div-consts-add",
                "(/ (+ (* ?x ?a) ?y) ?b)",
                "(+ (* ?x (/ ?a ?b)) (/ ?y ?b))",
                "?a MultipleOfPos ?b",
            ),
            ("div-separate", "(/ (+ ?x ?a) ?b)", "(+ (/ ?x ?b) (/ ?a ?b))", "?a MultipleOfPos ?b"),
        ],
    );
}

#[test]
fn equality_rules_are_as_written() {
    check(
        sto_eq(),
        &[
            ("eq-comm", "(== ?x ?y)", "(== ?y ?x)", ""),
            ("eq-x-y-0", "(== ?x ?y)", "(== (- ?x ?y) 0)", ""),
            ("eq-swap", "(== (+ ?x ?y) ?z)", "(== ?x (- ?z ?y))", ""),
            ("eq-x-x", "(== ?x ?x)", "1", ""),
            ("eq-mul-x-y-0", "(== (* ?x ?y) 0)", "(|| (== ?x 0) (== ?y 0))", ""),
            ("eq-max-lt", "(== (max ?x ?y) ?y)", "(<= ?x ?y)", ""),
            ("Eq-min-lt", "(== (min ?x ?y) ?y)", "(<= ?y ?x)", ""),
            ("Eq-lt-min", "(<= ?y ?x)", "(== (min ?x ?y) ?y)", ""),
            ("Eq-a-b", "(== (* ?a ?x) ?b)", "0", "?b NotMultiple ?a"),
            ("Eq-max-c-pos", "(== (max ?x ?c) 0)", "0", "?c > 0"),
            ("Eq-max-c-neg", "(== (max ?x ?c) 0)", "(== ?x 0)", "?c < 0"),
            ("Eq-min-c-pos", "(== (min ?x ?c) 0)", "0", "?c < 0"),
            ("Eq-min-c-neg", "(== (min ?x ?c) 0)", "(== ?x 0)", "?c > 0"),
        ],
    );
}

#[test]
fn conjunction_rules_are_as_written() {
    check(
        sto_and(),
        &[
            ("and-comm", "(&& ?y ?x)", "(&& ?x ?y)", ""),
            ("and-assoc", "(&& ?a (&& ?b ?c))", "(&& (&& ?a ?b) ?c)", ""),
            ("and-x-1", "(&& 1 ?x)", "?x", ""),
            ("and-x-x", "(&& ?x ?x)", "?x", ""),
            ("and-x-not-x", "(&& ?x (! ?x))", "0", ""),
            ("and-eq-eq", "(&& (== ?x ?c0) (== ?x ?c1))", "0", "?c1 Ne ?c0"),
            ("and-ineq-eq", "(&& (!= ?x ?c0) (== ?x ?c1))", "(== ?x ?c1)", "?c1 Ne ?c0"),
            ("and-lt-to-min", "(&& (< ?x ?y) (< ?x ?z))", "(< ?x (min ?y ?z))", ""),
            ("and-min-to-lt", "(< ?x (min ?y ?z))", "(&& (< ?x ?y) (< ?x ?z))", ""),
            ("and-eqlt-to-min", "(&& (<= ?x ?y) (<= ?x ?z))", "(<= ?x (min ?y ?z))", ""),
            ("and-min-to-eqlt", "(<= ?x (min ?y ?z))", "(&& (<= ?x ?y) (<= ?x ?z))", ""),
            ("and-lt-to-max", "(&& (< ?y ?x) (< ?z ?x))", "(< (max ?y ?z) ?x)", ""),
            ("and-max-to-lt", "(> ?x (max ?y ?z))", "(&& (< ?z ?x) (< ?y ?x))", ""),
            ("and-eqlt-to-max", "(&& (<= ?y ?x) (<= ?z ?x))", "(<= (max ?y ?z) ?x)", ""),
            ("and-max-to-eqlt", "(>= ?x (max ?y ?z))", "(&& (<= ?z ?x) (<= ?y ?x))", ""),
            ("and-lt-gt-to-0", "(&& (< ?c0 ?x) (< ?x ?c1))", "0", "?c1 LePlusOne ?c0"),
            ("and-eqlt-eqgt-to-0", "(&& (<= ?c0 ?x) (<= ?x ?c1))", "0", "?c1 Lt ?c0"),
            ("and-eqlt-gt-to-0", "(&& (<= ?c0 ?x) (< ?x ?c1))", "0", "?c1 Le ?c0"),
        ],
    );
}

#[test]
fn disjunction_rules_are_as_written() {
    check(
        sto_or(),
        &[
            ("or-to-and", "(|| ?x ?y)", "(! (&& (! ?x) (! ?y)))", ""),
            ("or-comm", "(|| ?y ?x)", "(|| ?x ?y)", ""),
        ],
    );
}

#[test]
fn negation_rules_are_as_written() {
    check(
        sto_not(),
        &[
            ("eqlt-to-not-gt", "(<= ?x ?y)", "(! (< ?y ?x))", ""),
            ("not-gt-to-eqlt", "(! (< ?y ?x))", "(<= ?x ?y)", ""),
            ("eqgt-to-not-lt", "(>= ?x ?y)", "(! (< ?x ?y))", ""),
            ("not-eq-to-ineq", "(! (== ?x ?y))", "(!= ?x ?y)", ""),
            ("not-not", "(! (! ?x))", "?x", ""),
        ],
    );
}

#[test]
fn maximum_rules_are_as_written() {
    check(
        sto_max(),
        &[
            ("max-to-min", "(max ?a ?b)", "(* -1 (min (* -1 ?a) (* -1 ?b)))", ""),
        ],
    );
}

#[test]
fn minimum_rules_are_as_written() {
    check(
        sto_min(),
        &[
            ("min-comm", "(min ?a ?b)", "(min ?b ?a)", ""),
            ("min-ass", "(min (min ?x ?y) ?z)", "(min ?x (min ?y ?z))", ""),
            ("min-x-x", "(min ?x ?x)", "?x", ""),
            ("min-max", "(min (max ?x ?y) ?x)", "?x", ""),
            ("min-max-max-x", "(min (max ?x ?y) (max ?x ?z))", "(max (min ?y ?z) ?x)", ""),
            ("min-max-min-y", "(min (max (min ?x ?y) ?z) ?y)", "(min (max ?x ?z) ?y)", ""),
            ("min-sub-both", "(min (+ ?a ?b) ?c)", "(+ (min ?b (- ?c ?a)) ?a)", ""),
            ("min-add-both", "(+ (min ?x ?y) ?z)", "(min (+ ?x ?z) (+ ?y ?z))", ""),
            ("min-x-x-plus-a-pos", "(min ?x (+ ?x ?a))", "?x", "?a > 0"),
            ("min-x-x-plus-a-neg", "(min ?x (+ ?x ?a))", "(+ ?x ?a)", "?a < 0"),
            ("min-mul-in-pos", "(* (min ?x ?y) ?z)", "(min (* ?x ?z) (* ?y ?z))", "?z > 0"),
            ("min-mul-out-pos", "(min (* ?x ?z) (* ?y ?z))", "(* (min ?x ?y) ?z)", "?z > 0"),
            ("min-mul-in-neg", "(* (min ?x ?y) ?z)", "(max (* ?x ?z) (* ?y ?z))", "?z < 0"),
            ("min-mul-out-neg", "(max (* ?x ?z) (* ?y ?z))", "(* (min ?x ?y) ?z)", "?z < 0"),
            ("min-div-in-pos", "(/ (min ?x ?y) ?z)", "(min (/ ?x ?z) (/ ?y ?z))", "?z > 0"),
            ("min-div-out-pos", "(min (/ ?x ?z) (/ ?y ?z))", "(/ (min ?x ?y) ?z)", "?z > 0"),
            ("min-div-in-neg", "(/ (max ?x ?y) ?z)", "(min (/ ?x ?z) (/ ?y ?z))", "?z < 0"),
            ("min-div-out-neg", "(min (/ ?x ?z) (/ ?y ?z))", "(/ (max ?x ?y) ?z)", "?z < 0"),
            ("min-max-const", "(min (max ?x ?c0) ?c1)", "?c1", "?c1 Le ?c0"),
            ("min-div-mul", "(min (* (/ ?x ?c0) ?c0) ?x)", "(* (/ ?x ?c0) ?c0)", "?c0 > 0"),
            ("min-mod-const-to-mod", "(min (% ?x ?c0) ?c1)", "(% ?x ?c0)", "?c1 GeAbsMinusOne ?c0"),
            ("min-mod-const-to-const", "(min (% ?x ?c0) ?c1)", "?c1", "?c1 LeOneMinusAbs ?c0"),
            ("min-max-switch", "(min (max ?x ?c0) ?c1)", "(max (min ?x ?c1) ?c0)", "?c0 Le ?c1"),
            ("max-min-switch", "(max (min ?x ?c1) ?c0)", "(min (max ?x ?c0) ?c1)", "?c0 Le ?c1"),
            ("min-consts-or", "(< (min ?y ?c0) ?c1)", "(|| (< ?y ?c1) (< ?c0 ?c1))", ""),
            ("max-consts-and", "(< (max ?y ?c0) ?c1)", "(&& (< ?y ?c1) (< ?c0 ?c1))", ""),
            ("max-consts-or", "(< ?c1 (max ?y ?c0))", "(|| (< ?c1 ?y) (< ?c1 ?c0))", ""),
            (
                "min-consts-div-pos",
                "(min (* ?x ?a) ?b)",
                "(* (min ?x (/ ?b ?a)) ?a)",
                "?b MultipleOfPos ?a",
            ),
            (
                "min-min-div-pos",
                "(min (* ?x ?a) (* ?y ?b))",
                "(* (min ?x (* ?y (/ ?b ?a))) ?a)",
                "?b MultipleOfPos ?a",
            ),
            (
                "min-consts-div-neg",
                "(min (* ?x ?a) ?b)",
                "(* (max ?x (/ ?b ?a)) ?a)",
                "?b MultipleOfNeg ?a",
            ),
            (
                "min-min-div-neg",
                "(min (* ?x ?a) (* ?y ?b))",
                "(* (max ?x (* ?y (/ ?b ?a))) ?a)",
                "?b MultipleOfNeg ?a",
            ),
        ],
    );
}

#[test]
fn order_rules_are_as_written() {
    check(
        sto_lt(),
        &[
            ("gt-to-lt", "(> ?x ?z)", "(< ?z ?x)", ""),
            ("lt-swap", "(< ?x ?y)", "(< (* -1 ?y) (* -1 ?x))", ""),
            ("lt-to-zero", "(< ?a ?a)", "0", ""),
            ("lt-swap-in", "(< (+ ?x ?y) ?z)", "(< ?x (- ?z ?y))", ""),
            ("lt-swap-out", "(< ?z (+ ?x ?y))", "(< (- ?z ?y) ?x)", ""),
            ("lt-x-x-sub-a", "(< (- ?a ?y) ?a)", "1", "?y > 0"),
            ("lt-const-pos", "(< 0 ?y)", "1", "?y > 0"),
            ("lt-const-neg", "(< ?y 0)", "1", "?y < 0"),
            ("min-lt-cancel", "(< (min ?x ?y) ?x)", "(< ?y ?x)", ""),
            ("lt-min-mutual-term", "(< (min ?z ?y) (min ?x ?y))", "(< ?z (min ?x ?y))", ""),
            ("lt-max-mutual-term", "(< (max ?z ?y) (max ?x ?y))", "(< (max ?z ?y) ?x)", ""),
            (
                "lt-min-term-term+pos",
                "(< (min ?z ?y) (min ?x (+ ?y ?c0)))",
                "(< (min ?z ?y) ?x)",
                "?c0 > 0",
            ),
            (
                "lt-max-term-term+pos",
                "(< (max ?z (+ ?y ?c0)) (max ?x ?y))",
                "(< (max ?z (+ ?y ?c0)) ?x)",
                "?c0 > 0",
            ),
            (
                "lt-min-term+neg-term",
                "(< (min ?z (+ ?y ?c0)) (min ?x ?y))",
                "(< (min ?z (+ ?y ?c0)) ?x)",
                "?c0 < 0",
            ),
            (
                "lt-max-term+neg-term",
                "(< (max ?z ?y) (max ?x (+ ?y ?c0)))",
                "(< (max ?z ?y) ?x)",
                "?c0 < 0",
            ),
            ("lt-min-term+cpos", "(< (min ?x ?y) (+ ?x ?c0))", "1", "?c0 > 0"),
            ("lt-min-max-cancel", "(< (max ?a ?c) (min ?a ?b))", "0", ""),
            ("lt-mul-pos-cancel", "(< (* ?x ?y) ?z)", "(< ?x (/ (- (+ ?z ?y) 1) ?y))", "?y > 0"),
            ("lt-mul-div-cancel", "(< ?y (/ ?x ?z))", "(< (- (* (+ ?y 1) ?z) 1) ?x)", "?z > 0"),
            ("lt-const-mod", "(< ?a (% ?x ?b))", "1", "?a LeNegAbs ?b"),
            ("lt-const-mod-false", "(< ?a (% ?x ?b))", "0", "?a GeAbs ?b"),
        ],
    );
}

#[test]
fn inequality_rules_are_as_written() {
    check(
        sto_ineq(),
        &[
            ("ineq-to-eq", "(!= ?x ?y)", "(! (== ?x ?y))", ""),
        ],
    );
}

#[test]
fn remainder_rules_are_as_written() {
    check(
        sto_modulo(),
        &[
            ("mod-zero", "(% 0 ?x)", "0", ""),
            ("mod-x-x", "(% ?x ?x)", "0", ""),
            ("mod-one", "(% ?x 1)", "0", ""),
            ("mod-const-add", "(% ?x ?c1)", "(% (+ ?x ?c1) ?c1)", "?c1 LeAbs ?x"),
            ("mod-const-sub", "(% ?x ?c1)", "(% (- ?x ?c1) ?c1)", "?c1 LeAbs ?x"),
            ("mod-minus-out", "(% (* ?x -1) ?c)", "(* -1 (% ?x ?c))", ""),
            ("mod-minus-in", "(* -1 (% ?x ?c))", "(% (* ?x -1) ?c)", ""),
            ("mod-two", "(% (- ?x ?y) 2)", "(% (+ ?x ?y) 2)", ""),
            ("mod-consts", "(% (+ (* ?x ?c0) ?y) ?c1)", "(% ?y ?c1)", "?c0 Multiple ?c1"),
            ("mod-multiple", "(% (* ?c0 ?x) ?c1)", "0", "?c0 Multiple ?c1"),
        ],
    );
}

#[test]
fn connective_rules_are_as_written() {
    check(
        sto_andor(),
        &[
            ("and-over-or", "(&& ?a (|| ?b ?c))", "(|| (&& ?a ?b) (&& ?a ?c))", ""),
            ("or-over-and", "(|| ?a (&& ?b ?c))", "(&& (|| ?a ?b) (|| ?a ?c))", ""),
            ("or-x-and-x-y", "(|| ?x (&& ?x ?y))", "?x", ""),
        ],
    );
}

#[test]
fn all_rules_are_the_sets_in_order() {
    let sets = vec![
        sto_add(),
        sto_mul(),
        sto_sub(),
        sto_div(),
        sto_eq(),
        sto_and(),
        sto_or(),
        sto_not(),
        sto_max(),
        sto_min(),
        sto_lt(),
        sto_ineq(),
        sto_modulo(),
        sto_andor(),
    ];
    let names: Vec<String> = sets.into_iter().flatten().map(|rule| rule.name).collect();
    let all: Vec<String> = all_sto_rules().into_iter().map(|rule| rule.name).collect();
    assert_eq!(all.len(), 132);
    assert_eq!(all, names);
}

#[test]
fn rule_names_are_distinct() {
    let mut names: Vec<String> = all_sto_rules().into_iter().map(|rule| rule.name).collect();
    names.sort();
    let count = names.len();
    names.dedup();
    assert_eq!(names.len(), count);
}

#[test]
fn rewrites_are_made_from_any_text_that_is_read() {
    let plain = sto_rw("r", "( + ( / ?x 2 )   ?y )", "(0)");
    assert_eq!(plain.name, "r");
    assert_eq!(written(&plain.searcher), "(+ (/ ?x 2) ?y)");
    assert_eq!(written(&plain.applier), "0");
    assert_eq!(condition(&plain.condition), "");
    let guarded = sto_rw_cond("s", " ( ! ?x ) ", "?x", sto_is_const_pos("?x"));
    assert_eq!(guarded.name, "s");
    assert_eq!(written(&guarded.searcher), "(! ?x)");
    assert_eq!(written(&guarded.applier), "?x");
    assert_eq!(condition(&guarded.condition), "?x > 0");
}

#[test]
fn rewrites_are_refused_where_a_text_is_not_read() {
    assert!(try_sto_rw_cond("r", "(+ ?x", "?x", Condition::Always).is_none());
    assert!(try_sto_rw_cond("r", "?x", "(+ ?x)", Condition::Always).is_none());
    let made = try_sto_rw_cond("r", "( - ?x ?x )", "0", sto_is_const_pos("?x")).unwrap();
    assert_eq!(made.name, "r");
    assert_eq!(written(&made.searcher), "(- ?x ?x)");
    assert_eq!(written(&made.applier), "0");
    assert_eq!(condition(&made.condition), "?x > 0");
}

fn mark(pattern: &Pattern, i: usize, seen: &mut Vec<bool>) {
    seen[i] = true;
    if let PatternNode::ENode(node) = &pattern.ast[i] {
        for id in node.children() {
            mark(pattern, id, seen);
        }
    }
}

#[test]
fn patterns_hold_no_node_besides() {
    for rule in all_sto_rules() {
        for pattern in [&rule.searcher, &rule.applier] {
            let count = pattern.ast.len();
            let mut seen = vec![false; count];
            mark(pattern, count - 1, &mut seen);
            assert!(seen.iter().all(|s| *s), "{}", rule.name);
        }
    }
}

fn variables(pattern: &Pattern) -> Vec<String> {
    let mut names: Vec<String> = vec![];
    for node in &pattern.ast {
        if let PatternNode::Var(v) = node {
            if !names.contains(v) {
                names.push(v.clone());
            }
        }
    }
    names
}

#[test]
fn matches_bind_what_rules_need() {
    for rule in all_sto_rules() {
        let bound = variables(&rule.searcher);
        for v in variables(&rule.applier) {
            assert!(bound.contains(&v), "{}", rule.name);
        }
        let needed: Vec<&String> = match &rule.condition {
            Condition::Always => vec![],
            Condition::ConstPos(v) | Condition::ConstNeg(v) | Condition::NotZero(v) => vec![v],
            Condition::Compare(v, w, _) => vec![v, w],
        };
        for v in needed {
            assert!(bound.contains(v), "{}", rule.name);
        }
    }
}

fn value(pattern: &Pattern, values: &BTreeMap<String, i64>) -> Option<i64> {
    let mut analysis: Vec<StoData> = vec![];
    for node in &pattern.ast {
        let data = match node {
            PatternNode::Var(v) => StoData { constant: Some(values[v]) },
            PatternNode::ENode(node) => StoConstantFold.try_make(node, &analysis).unwrap(),
        };
        analysis.push(data);
    }
    analysis.last().unwrap().constant
}

fn holds(cond: &Condition, values: &BTreeMap<String, i64>) -> bool {
    let mut subst = Subst::default();
    let mut analysis: Vec<StoData> = vec![];
    for (name, c) in values {
        let var: Var = name.parse().unwrap();
        subst.insert(var, Id::from(analysis.len()));
        analysis.push(StoData { constant: Some(*c) });
    }
    let state = State { rec_expr: vec![], analysis, touched: vec![] };
    cond.holds(&state, 0, &subst)
}

fn grid(names: &[String], reach: i64) -> Vec<BTreeMap<String, i64>> {
    let mut all = vec![BTreeMap::new()];
    for name in names {
        let mut next = vec![];
        for values in &all {
            for c in -reach..=reach {
                let mut more: BTreeMap<String, i64> = values.clone();
                more.insert(name.clone(), c);
                next.push(more);
            }
        }
        all = next;
    }
    all
}

/// The rules that change the value somewhere among small numbers.
fn rules_that_change_a_value() -> Vec<String> {
    let mut changed = vec![];
    for rule in all_sto_rules() {
        let names = variables(&rule.searcher);
        let reach = if names.len() > 3 { 3 } else { 4 };
        let mut keeps = true;
        for values in grid(&names, reach) {
            if !holds(&rule.condition, &values) {
                continue;
            }
            let before = value(&rule.searcher, &values);
            if before.is_some() && value(&rule.applier, &values) != before {
                keeps = false;
            }
        }
        if !keeps {
            changed.push(rule.name);
        }
    }
    changed
}

#[test]
fn rules_keep_values_but_for_the_listed_ones() {
    assert_eq!(
        rules_that_change_a_value(),
        vec![
            "add-denom-mul",
            "add-denom-div",
            "add-div-mod",
            "div-consts-add",
            "div-separate",
            "and-x-1",
            "and-x-x",
            "or-to-and",
            "not-not",
            "min-div-mul",
            "lt-mul-pos-cancel",
            "lt-mul-div-cancel",
            "mod-const-add",
            "mod-const-sub",
            "mod-two",
            "mod-consts",
            "and-over-or",
            "or-over-and",
            "or-x-and-x-y",
        ]
    );
}

fn rule_named(name: &str) -> StoRw {
    all_sto_rules().into_iter().find(|rule| rule.name == name).unwrap()
}

fn sides(name: &str, values: &[(&str, i64)]) -> (Option<i64>, Option<i64>) {
    let rule = rule_named(name);
    let values: BTreeMap<String, i64> = values.iter().map(|(v, c)| (v.to_string(), *c)).collect();
    (value(&rule.searcher, &values), value(&rule.applier, &values))
}

#[test]
fn quotients_do_not_move_across_zero() {
    assert_eq!(sides("add-denom-mul", &[("?a", 7), ("?b", 2), ("?c", 3)]), (Some(6), Some(6)));
    assert_eq!(sides("add-denom-mul", &[("?a", -1), ("?b", 2), ("?c", 1)]), (Some(1), Some(0)));
    assert_eq!(sides("add-div-mod", &[("?x", 5)]), (Some(3), Some(3)));
    assert_eq!(sides("add-div-mod", &[("?x", -1)]), (Some(-1), Some(0)));
    assert_eq!(sides("mod-const-sub", &[("?x", 1), ("?c1", 2)]), (Some(1), Some(-1)));
    assert_eq!(sides("mod-const-sub", &[("?x", 5), ("?c1", 2)]), (Some(1), Some(1)));
}

#[test]
fn rounding_up_moves_a_strict_bound() {
    let at = |x| sides("lt-mul-pos-cancel", &[("?x", x), ("?y", 3), ("?z", -7)]);
    assert_eq!(at(-3), (Some(1), Some(1)));
    assert_eq!(at(-2), (Some(0), Some(1)));
    assert_eq!(at(-1), (Some(0), Some(0)));
}

#[test]
fn connectives_keep_truth_values() {
    assert_eq!(sides("not-not", &[("?x", 1)]), (Some(1), Some(1)));
    assert_eq!(sides("not-not", &[("?x", 2)]), (Some(1), Some(2)));
    assert_eq!(sides("or-to-and", &[("?x", 0), ("?y", 1)]), (Some(1), Some(1)));
    assert_eq!(sides("or-to-and", &[("?x", 0), ("?y", 2)]), (Some(0), Some(1)));
    assert_eq!(sides("or-over-and", &[("?a", 0), ("?b", 2), ("?c", 1)]), (Some(1), Some(0)));
}

#[test]
fn division_by_zero_may_be_rewritten_away() {
    assert_eq!(sides("div-zero", &[("?x", 0)]), (None, Some(0)));
    assert_eq!(sides("mod-x-x", &[("?x", 0)]), (None, Some(0)));
    assert_eq!(sides("div-zero", &[("?x", 5)]), (Some(0), Some(0)));
}

#[test]
fn words_that_overflow_may_differ() {
    // Rearranging an inequality is right on the integers but not where it wraps.
    let values = [("?x", i64::MAX), ("?y", 1), ("?z", 0)];
    assert_eq!(sides("lt-swap-in", &values), (Some(1), Some(0)));
    let small = [("?x", 4), ("?y", 1), ("?z", 6)];
    assert_eq!(sides("lt-swap-in", &small), (Some(1), Some(1)));
}

#[test]
fn some_rules_keep_words_that_wrap_around() {
    let words = [i64::MIN, i64::MIN + 1, -3, -1, 0, 1, 2, i64::MAX - 1, i64::MAX];
    let names = [
        "add-comm",
        "add-assoc",
        "add-zero",
        "add-dist-mul",
        "add-fact-mul",
        "mul-comm",
        "mul-assoc",
        "mul-zero",
        "mul-one",
        "sub-to-add",
        "mul-max-min",
        "eq-x-y-0",
        "eq-swap",
    ];
    for name in names {
        let rule = rule_named(name);
        let mut all: Vec<BTreeMap<String, i64>> = vec![BTreeMap::new()];
        for v in variables(&rule.searcher) {
            let mut next = vec![];
            for values in &all {
                for c in words {
                    let mut more = values.clone();
                    more.insert(v.clone(), c);
                    next.push(more);
                }
            }
            all = next;
        }
        for values in all {
            let before = value(&rule.searcher, &values);
            assert!(before.is_some());
            assert_eq!(value(&rule.applier, &values), before, "{} {:?}", name, values);
        }
    }
}

#[test]
fn a_common_factor_comes_out_of_words_that_wrap_around() {
    let values = [("?x", i64::MAX), ("?a", 6), ("?y", i64::MIN + 5), ("?b", -3)];
    assert_eq!(sides("add-const", &values), (Some(i64::MAX - 20), Some(i64::MAX - 20)));
}
