use stochastic_rules::analysis::{
    check_goal, fold_binary, fold_node, State, StoConstantFold, StoData,
};
use stochastic_rules::math::{Math, Op, Parts};

fn data(values: &[Option<i64>]) -> Vec<StoData> {
    values.iter().map(|c| StoData { constant: *c }).collect()
}

fn fold(node: Math, values: &[Option<i64>]) -> Option<i64> {
    StoConstantFold.make(&node, &data(values)).constant
}

fn both(node: Math, x: i64, y: i64) -> Option<i64> {
    fold(node, &[Some(x), Some(y)])
}

fn symbol(name: &str) -> Math {
    Math::Symbol(name.to_string())
}

#[test]
fn leaves_fold_to_themselves_or_to_nothing() {
    assert_eq!(fold(Math::Constant(-7), &[]), Some(-7));
    assert_eq!(fold(symbol("x"), &[]), None);
}

#[test]
fn arithmetic_folds() {
    assert_eq!(both(Math::Add([0, 1]), 2, 3), Some(5));
    assert_eq!(both(Math::Sub([0, 1]), 2, 3), Some(-1));
    assert_eq!(both(Math::Sub([1, 0]), 2, 3), Some(1));
    assert_eq!(both(Math::Mul([0, 1]), -4, 3), Some(-12));
    assert_eq!(both(Math::Max([0, 1]), -4, 3), Some(3));
    assert_eq!(both(Math::Min([0, 1]), -4, 3), Some(-4));
}

#[test]
fn arithmetic_wraps_around() {
    assert_eq!(both(Math::Add([0, 1]), i64::MAX, 1), Some(i64::MIN));
    assert_eq!(both(Math::Sub([0, 1]), i64::MIN, 1), Some(i64::MAX));
    assert_eq!(both(Math::Mul([0, 1]), i64::MAX, 2), Some(-2));
    assert_eq!(both(Math::Mul([0, 1]), i64::MIN, -1), Some(i64::MIN));
}

#[test]
fn division_rounds_toward_zero() {
    assert_eq!(both(Math::Div([0, 1]), 7, 2), Some(3));
    assert_eq!(both(Math::Div([0, 1]), -7, 2), Some(-3));
    assert_eq!(both(Math::Div([0, 1]), 7, -2), Some(-3));
    assert_eq!(both(Math::Div([0, 1]), -7, -2), Some(3));
    assert_eq!(both(Math::Mod([0, 1]), 7, 2), Some(1));
    assert_eq!(both(Math::Mod([0, 1]), -7, 2), Some(-1));
    assert_eq!(both(Math::Mod([0, 1]), 7, -2), Some(1));
    assert_eq!(both(Math::Mod([0, 1]), -7, -2), Some(-1));
}

#[test]
fn division_by_zero_does_not_fold() {
    assert_eq!(both(Math::Div([0, 1]), 7, 0), None);
    assert_eq!(both(Math::Mod([0, 1]), 7, 0), None);
    assert_eq!(both(Math::Div([0, 1]), 0, 7), Some(0));
}

#[test]
fn comparisons_fold_to_truth_values() {
    assert_eq!(both(Math::Lt([0, 1]), 1, 2), Some(1));
    assert_eq!(both(Math::Lt([0, 1]), 2, 2), Some(0));
    assert_eq!(both(Math::Gt([0, 1]), 2, 1), Some(1));
    assert_eq!(both(Math::Gt([0, 1]), 2, 2), Some(0));
    assert_eq!(both(Math::Let([0, 1]), 2, 2), Some(1));
    assert_eq!(both(Math::Let([0, 1]), 3, 2), Some(0));
    assert_eq!(both(Math::Get([0, 1]), 2, 2), Some(1));
    assert_eq!(both(Math::Get([0, 1]), 1, 2), Some(0));
    assert_eq!(both(Math::Eq([0, 1]), 2, 2), Some(1));
    assert_eq!(both(Math::Eq([0, 1]), 2, 3), Some(0));
    assert_eq!(both(Math::IEq([0, 1]), 2, 3), Some(1));
    assert_eq!(both(Math::IEq([0, 1]), 2, 2), Some(0));
}

#[test]
fn connectives_fold() {
    assert_eq!(both(Math::And([0, 1]), 5, -3), Some(1));
    assert_eq!(both(Math::And([0, 1]), 5, 0), Some(0));
    assert_eq!(both(Math::And([0, 1]), 0, 5), Some(0));
    assert_eq!(both(Math::Or([0, 1]), 1, 0), Some(1));
    assert_eq!(both(Math::Or([0, 1]), 0, 1), Some(1));
    assert_eq!(both(Math::Or([0, 1]), 0, 0), Some(0));
    assert_eq!(fold(Math::Not(0), &[Some(0)]), Some(1));
    assert_eq!(fold(Math::Not(0), &[Some(5)]), Some(0));
}

#[test]
fn disjunction_asks_for_one() {
    assert_eq!(both(Math::Or([0, 1]), 2, 3), Some(0));
    assert_eq!(both(Math::Or([0, 1]), 2, 1), Some(1));
}

#[test]
fn an_unknown_operand_does_not_fold() {
    assert_eq!(fold(Math::Add([0, 1]), &[None, Some(1)]), None);
    assert_eq!(fold(Math::Mul([0, 1]), &[Some(0), None]), None);
    assert_eq!(fold(Math::Or([0, 1]), &[Some(1), None]), None);
    assert_eq!(fold(Math::Not(0), &[None]), None);
}

#[test]
fn try_make_refuses_what_cannot_be_folded() {
    let least = data(&[Some(i64::MIN), Some(-1)]);
    let fold = StoConstantFold;
    assert!(fold.try_make(&Math::Div([0, 1]), &least).is_none());
    assert!(fold.try_make(&Math::Mod([0, 1]), &least).is_none());
    assert_eq!(fold.try_make(&Math::Div([1, 0]), &least).unwrap().constant, Some(0));
    assert_eq!(fold.try_make(&Math::Mul([0, 1]), &least).unwrap().constant, Some(i64::MIN));
    assert!(fold.try_make(&Math::Add([0, 2]), &least).is_none());
    assert!(fold.try_make(&Math::Add([2, 0]), &least).is_none());
    assert!(fold.try_make(&Math::Not(2), &least).is_none());
    assert_eq!(fold.try_make(&Math::Not(1), &least).unwrap().constant, Some(0));
}

#[test]
fn a_second_operand_is_not_looked_up_behind_an_unknown_first() {
    let unknown = data(&[None, Some(3)]);
    let fold = StoConstantFold;
    assert_eq!(fold.try_make(&Math::Add([0, 9]), &unknown).unwrap().constant, None);
    assert_eq!(fold.try_make(&Math::Div([0, 9]), &unknown).unwrap().constant, None);
    assert_eq!(fold.make(&Math::Min([0, 9]), &unknown).constant, None);
    assert!(fold.try_make(&Math::Add([1, 9]), &unknown).is_none());
    assert!(fold.try_make(&Math::Add([9, 0]), &unknown).is_none());
}

#[test]
fn modify_does_not_look_at_a_node_without_a_constant() {
    let mut s = State { rec_expr: vec![], analysis: data(&[None]), touched: vec![] };
    StoConstantFold.modify(&mut s, 0);
    assert!(s.rec_expr.is_empty());
    assert!(s.touched.is_empty());
}

#[test]
fn fold_binary_computes() {
    assert_eq!(fold_binary(Op::Sub, 3, 10), Some(-7));
    assert_eq!(fold_binary(Op::Mod, -9, 4), Some(-1));
    assert_eq!(fold_binary(Op::Div, 1, 0), None);
}

#[test]
fn goals_are_zero_and_one() {
    assert!(check_goal(&Math::Constant(0)));
    assert!(check_goal(&Math::Constant(1)));
    assert!(!check_goal(&Math::Constant(2)));
    assert!(!check_goal(&Math::Constant(-1)));
    assert!(!check_goal(&symbol("0")));
    assert!(!check_goal(&Math::Not(0)));
}

#[test]
fn cost_is_size_except_for_goals() {
    let fold = StoConstantFold;
    let costs = [4, 7];
    assert_eq!(fold.cost(&Math::Constant(0), &[], &costs), 0);
    assert_eq!(fold.cost(&Math::Constant(1), &[], &costs), 0);
    assert_eq!(fold.cost(&Math::Constant(2), &[], &costs), 1);
    assert_eq!(fold.cost(&symbol("x"), &[], &costs), 1);
    assert_eq!(fold.cost(&Math::Not(1), &[], &costs), 8);
    assert_eq!(fold.cost(&Math::Add([0, 1]), &[], &costs), 12);
    assert_eq!(fold.cost(&Math::Add([0, 0]), &[], &costs), 9);
}

#[test]
fn cost_counts_the_nodes_that_are_no_goals() {
    // (* (+ x 1) (! 5))
    let nodes = vec![
        symbol("x"),
        Math::Constant(1),
        Math::Add([0, 1]),
        Math::Constant(5),
        Math::Not(3),
        Math::Mul([2, 4]),
    ];
    let mut costs: Vec<u64> = vec![];
    for node in &nodes {
        let cost = StoConstantFold.cost(node, &[], &costs);
        costs.push(cost);
    }
    assert_eq!(costs, vec![1, 0, 2, 1, 2, 5]);
}

fn state(nodes: Vec<Math>) -> State {
    let mut analysis: Vec<StoData> = vec![];
    for node in &nodes {
        let made = StoConstantFold.make(node, &analysis);
        analysis.push(made);
    }
    State { rec_expr: nodes, analysis, touched: vec![] }
}

fn constants(state: &State) -> Vec<Option<i64>> {
    state.analysis.iter().map(|d| d.constant).collect()
}

#[test]
fn modify_folds_a_constant_node_and_touches_it() {
    let mut s = state(vec![Math::Constant(2), Math::Constant(3), Math::Add([0, 1]), symbol("x")]);
    assert_eq!(constants(&s), vec![Some(2), Some(3), Some(5), None]);
    StoConstantFold.modify(&mut s, 2);
    assert!(matches!(s.rec_expr[2], Math::Constant(5)));
    assert_eq!(s.touched, vec![2]);
    assert_eq!(constants(&s), vec![Some(2), Some(3), Some(5), None]);
    assert!(matches!(s.rec_expr[0], Math::Constant(2)));
    assert!(matches!(s.rec_expr[3], Math::Symbol(_)));
}

#[test]
fn modify_settles() {
    let mut s = state(vec![Math::Constant(2), Math::Not(0)]);
    StoConstantFold.modify(&mut s, 1);
    StoConstantFold.modify(&mut s, 1);
    assert!(matches!(s.rec_expr[1], Math::Constant(0)));
    assert_eq!(s.touched, vec![1]);
}

#[test]
fn modify_leaves_constants_and_unknown_nodes_alone() {
    let mut s = state(vec![Math::Constant(2), symbol("x"), Math::Add([0, 1])]);
    StoConstantFold.modify(&mut s, 0);
    StoConstantFold.modify(&mut s, 1);
    StoConstantFold.modify(&mut s, 2);
    assert!(matches!(s.rec_expr[0], Math::Constant(2)));
    assert!(matches!(s.rec_expr[1], Math::Symbol(_)));
    assert!(matches!(s.rec_expr[2], Math::Add([0, 1])));
    assert!(s.touched.is_empty());
}

#[test]
fn modify_keeps_the_data_right() {
    let mut s = state(vec![
        Math::Constant(6),
        Math::Constant(4),
        Math::Sub([0, 1]),
        Math::Mul([2, 2]),
    ]);
    StoConstantFold.modify(&mut s, 2);
    let again = state(s.rec_expr.clone());
    assert_eq!(constants(&again), constants(&s));
    assert_eq!(constants(&again)[3], Some(4));
}

#[test]
fn folding_never_costs_more() {
    let node = Math::Add([0, 1]);
    let made = StoConstantFold.make(&node, &data(&[Some(0), Some(7)]));
    let replaced = Math::Constant(fold_node(&node, &made).unwrap());
    let costs = [0, 1];
    assert_eq!(StoConstantFold.cost(&node, &[], &costs), 2);
    assert_eq!(StoConstantFold.cost(&replaced, &[], &costs), 1);
}

#[test]
fn fold_node_tells_what_changes() {
    assert_eq!(fold_node(&Math::Constant(3), &StoData { constant: Some(3) }), None);
    assert_eq!(fold_node(&Math::Constant(4), &StoData { constant: Some(3) }), Some(3));
    assert_eq!(fold_node(&Math::Not(0), &StoData { constant: Some(0) }), Some(0));
    assert_eq!(fold_node(&Math::Not(0), &StoData { constant: None }), None);
}

#[test]
fn default_analysis_folds() {
    let fold = StoConstantFold::default();
    assert_eq!(fold.make(&Math::Constant(9), &[]).constant, Some(9));
}

#[test]
fn nodes_come_apart() {
    assert!(matches!(Math::Not(4).parts(), Parts::Not(4)));
    assert!(matches!(Math::IEq([4, 5]).parts(), Parts::Binary(Op::IEq, 4, 5)));
    assert!(matches!(Math::Constant(4).parts(), Parts::Constant(4)));
    assert!(matches!(symbol("x").parts(), Parts::Symbol));
    assert_eq!(Math::Lt([3, 8]).children(), vec![3, 8]);
    assert_eq!(Math::Not(3).children(), vec![3]);
    assert!(Math::Constant(3).children().is_empty());
    assert!(symbol("x").children().is_empty());
}
