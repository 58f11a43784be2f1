use egg::{Id, Subst, Var};
use stochastic_rules::analysis::{State, StoData};
use stochastic_rules::condition::{
    compare, const_of, safe_to_compare, sto_compare_c0_c1, sto_is_const_neg, sto_is_const_pos,
    sto_is_not_zero, Comparator, Condition,
};

fn state(values: &[Option<i64>]) -> State {
    State {
        rec_expr: vec![],
        analysis: values.iter().map(|c| StoData { constant: *c }).collect(),
        touched: vec![],
    }
}

fn subst(bound: &[(&str, usize)]) -> Subst {
    let mut s = Subst::default();
    for (name, id) in bound {
        let var: Var = name.parse().unwrap();
        s.insert(var, Id::from(*id));
    }
    s
}

fn holds_of(cond: &Condition, value: Option<i64>) -> bool {
    cond.holds(&state(&[None, value]), 0, &subst(&[("?a", 1)]))
}

fn comparison(comp: &str, c: i64, c1: i64) -> Option<bool> {
    let cond = sto_compare_c0_c1("?a", "?b", comp);
    cond.try_holds(&state(&[Some(c), Some(c1)]), 0, &subst(&[("?a", 0), ("?b", 1)]))
}

#[test]
fn positive_constants() {
    let cond = sto_is_const_pos("?a");
    assert!(holds_of(&cond, Some(1)));
    assert!(!holds_of(&cond, Some(0)));
    assert!(!holds_of(&cond, Some(-1)));
    assert!(!holds_of(&cond, None));
}

#[test]
fn negative_constants() {
    let cond = sto_is_const_neg("?a");
    assert!(holds_of(&cond, Some(-1)));
    assert!(!holds_of(&cond, Some(0)));
    assert!(!holds_of(&cond, Some(1)));
    assert!(!holds_of(&cond, None));
}

#[test]
fn not_zero_holds_of_unknown_nodes() {
    let cond = sto_is_not_zero("?a");
    assert!(holds_of(&cond, Some(5)));
    assert!(holds_of(&cond, Some(-5)));
    assert!(holds_of(&cond, None));
    assert!(!holds_of(&cond, Some(0)));
}

#[test]
fn no_condition_always_holds() {
    assert!(Condition::Always.holds(&state(&[]), 3, &subst(&[])));
}

#[test]
fn each_comparison_on_both_sides_of_its_limit() {
    let table = [
        ("<", (2, 3), (3, 3)),
        ("<a", (2, -3), (3, -3)),
        ("<=", (3, 3), (4, 3)),
        ("<=+1", (4, 3), (5, 3)),
        ("<=a", (3, -3), (4, -3)),
        ("<=-a", (-3, 3), (-2, 3)),
        ("<=-a+1", (-2, -3), (-1, -3)),
        (">", (4, 3), (3, 3)),
        (">a", (4, -3), (3, -3)),
        (">=", (3, 3), (2, 3)),
        (">=a", (3, -3), (2, -3)),
        (">=a-1", (2, -3), (1, -3)),
        ("!=", (2, 3), (3, 3)),
        ("%0", (-6, -3), (-7, -3)),
        ("!%0", (-7, -3), (-6, -3)),
        ("%0<", (-6, 3), (-6, -3)),
        ("%0>", (6, -3), (6, 3)),
    ];
    for (comp, (c, c1), (d, d1)) in table {
        assert_eq!(comparison(comp, c, c1), Some(true), "{} {} {}", comp, c, c1);
        assert_eq!(comparison(comp, d, d1), Some(false), "{} {} {}", comp, d, d1);
    }
}

#[test]
fn divisibility_by_zero_never_holds() {
    for comp in ["%0", "!%0", "%0<", "%0>"] {
        assert_eq!(comparison(comp, 6, 0), Some(false));
        assert_eq!(comparison(comp, 0, 0), Some(false));
    }
}

#[test]
fn an_unknown_comparison_never_holds() {
    for comp in ["", "=", "<>", "<=-", "%", "< "] {
        assert_eq!(comparison(comp, 1, 1), Some(false));
        assert_eq!(comparison(comp, 1, 2), Some(false));
    }
}

#[test]
fn a_comparison_needs_two_constants() {
    let cond = sto_compare_c0_c1("?a", "?b", "<=");
    let bound = subst(&[("?a", 0), ("?b", 1)]);
    assert!(cond.holds(&state(&[Some(1), Some(1)]), 0, &bound));
    assert!(!cond.holds(&state(&[Some(1), None]), 0, &bound));
    assert!(!cond.holds(&state(&[None, Some(1)]), 0, &bound));
    assert!(!cond.holds(&state(&[None, None]), 0, &bound));
}

#[test]
fn the_order_of_the_variables_matters() {
    let bound = subst(&[("?a", 0), ("?b", 1)]);
    let known = state(&[Some(1), Some(2)]);
    assert!(sto_compare_c0_c1("?a", "?b", "<").holds(&known, 0, &bound));
    assert!(!sto_compare_c0_c1("?b", "?a", "<").holds(&known, 0, &bound));
}

#[test]
fn comparisons_that_overflow_are_not_evaluated() {
    assert_eq!(comparison("<=+1", 0, i64::MAX), None);
    assert_eq!(comparison("<=+1", 0, i64::MAX - 1), Some(true));
    for comp in ["<a", "<=a", "<=-a", "<=-a+1", ">a", ">=a", ">=a-1"] {
        assert_eq!(comparison(comp, 0, i64::MIN), None);
        assert!(comparison(comp, 0, i64::MIN + 1).is_some());
    }
    for comp in ["%0", "!%0", "%0>"] {
        assert_eq!(comparison(comp, i64::MIN, -1), None);
        assert!(comparison(comp, i64::MIN + 1, -1).is_some());
    }
    assert_eq!(comparison("%0<", i64::MIN, -1), Some(false));
    assert_eq!(comparison("<", i64::MIN, i64::MAX), Some(true));
}

#[test]
fn unbound_variables_are_not_evaluated() {
    let known = state(&[Some(1)]);
    assert_eq!(sto_is_const_pos("?b").try_holds(&known, 0, &subst(&[("?a", 0)])), None);
    assert_eq!(sto_is_const_neg("?b").try_holds(&known, 0, &subst(&[("?a", 0)])), None);
    assert_eq!(sto_is_not_zero("?b").try_holds(&known, 0, &subst(&[("?a", 0)])), None);
    let cond = sto_compare_c0_c1("?a", "?b", "<");
    assert_eq!(cond.try_holds(&known, 0, &subst(&[("?a", 0)])), None);
    assert_eq!(cond.try_holds(&known, 0, &subst(&[("?b", 0)])), None);
}

#[test]
fn nodes_out_of_range_are_not_evaluated() {
    let known = state(&[Some(1)]);
    assert_eq!(sto_is_const_pos("?a").try_holds(&known, 0, &subst(&[("?a", 1)])), None);
    assert_eq!(sto_is_const_pos("?a").try_holds(&known, 0, &subst(&[("?a", 0)])), Some(true));
}

#[test]
fn texts_that_are_no_variables_are_not_evaluated() {
    let known = state(&[Some(1)]);
    let bound = subst(&[("?a", 0)]);
    for text in ["a", "?", "", "?#", "?#x", "?#4294967296"] {
        assert_eq!(sto_is_const_pos(text).try_holds(&known, 0, &bound), None, "{}", text);
    }
}

#[test]
fn numbered_variables_are_read_as_numbers() {
    let known = state(&[Some(1)]);
    let bound = subst(&[("?#7", 0)]);
    for text in ["?#7", "?#007", "?#+7"] {
        assert_eq!(sto_is_const_pos(text).try_holds(&known, 0, &bound), Some(true), "{}", text);
    }
    assert_eq!(sto_is_const_pos("?#8").try_holds(&known, 0, &bound), None);
    assert_eq!(sto_is_const_pos("?7").try_holds(&known, 0, &bound), None);
    let last = subst(&[("?#4294967295", 0)]);
    assert_eq!(sto_is_const_pos("?#4294967295").try_holds(&known, 0, &last), Some(true));
}

#[test]
fn const_of_reads_the_analysis() {
    let known = state(&[Some(4), None]);
    assert_eq!(const_of(&known, 0), Some(4));
    assert_eq!(const_of(&known, 1), None);
}

#[test]
fn comparators_evaluate_where_safe() {
    assert!(compare(Comparator::LeOneMinusAbs, -1, 2));
    assert!(!compare(Comparator::LeOneMinusAbs, 0, 2));
    assert!(!safe_to_compare(Comparator::NotMultiple, i64::MIN, -1));
    assert!(safe_to_compare(Comparator::MultipleOfPos, i64::MIN, -1));
    assert!(!safe_to_compare(Comparator::LePlusOne, 0, i64::MAX));
}
