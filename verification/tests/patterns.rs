use stochastic_rules::math::{Math, Op};
use stochastic_rules::pattern::{pat, read_nodes, Pattern, PatternNode};
use stochastic_rules::sexp::RawNode;

fn show(pattern: &Pattern) -> String {
    format!("{:?}", pattern.ast)
}

fn nodes(pattern: Vec<PatternNode>) -> String {
    format!("{:?}", pattern)
}

fn var(name: &str) -> PatternNode {
    PatternNode::Var(name.to_string())
}

fn node(math: Math) -> PatternNode {
    PatternNode::ENode(math)
}

#[test]
fn a_pattern_is_read_operands_first() {
    let p = pat("(+ ?a (* 2 x))").unwrap();
    assert_eq!(
        show(&p),
        nodes(vec![
            var("?a"),
            node(Math::Constant(2)),
            node(Math::Symbol("x".to_string())),
            node(Math::Mul([1, 2])),
            node(Math::Add([0, 3])),
        ])
    );
}

#[test]
fn a_variable_is_a_pattern() {
    assert_eq!(show(&pat("?a").unwrap()), nodes(vec![var("?a")]));
}

#[test]
fn spaces_do_not_matter() {
    let spaced = pat("( / ( + ?x 1 ) 2 )").unwrap();
    assert_eq!(show(&spaced), show(&pat("(/ (+ ?x 1) 2)").unwrap()));
}

#[test]
fn a_list_of_one_atom_is_the_atom() {
    assert_eq!(show(&pat("(0)").unwrap()), show(&pat("0").unwrap()));
    assert_eq!(show(&pat("0").unwrap()), nodes(vec![node(Math::Constant(0))]));
}

#[test]
fn numbers_are_constants() {
    assert_eq!(show(&pat("-1").unwrap()), nodes(vec![node(Math::Constant(-1))]));
    assert_eq!(show(&pat("+7").unwrap()), nodes(vec![node(Math::Constant(7))]));
    assert_eq!(
        show(&pat("-9223372036854775808").unwrap()),
        nodes(vec![node(Math::Constant(i64::MIN))])
    );
}

#[test]
fn other_atoms_are_symbols() {
    for atom in ["x", "9223372036854775808", "1x", "-", "+", "max"] {
        assert_eq!(
            show(&pat(atom).unwrap()),
            nodes(vec![node(Math::Symbol(atom.to_string()))])
        );
    }
}

#[test]
fn every_operator_is_read() {
    let table = [
        ("+", Op::Add),
        ("-", Op::Sub),
        ("*", Op::Mul),
        ("/", Op::Div),
        ("%", Op::Mod),
        ("max", Op::Max),
        ("min", Op::Min),
        ("<", Op::Lt),
        (">", Op::Gt),
        ("<=", Op::Let),
        (">=", Op::Get),
        ("==", Op::Eq),
        ("!=", Op::IEq),
        ("&&", Op::And),
        ("||", Op::Or),
    ];
    for (text, op) in table {
        let p = pat(&format!("({} ?x ?y)", text)).unwrap();
        assert_eq!(show(&p), nodes(vec![var("?x"), var("?y"), node(op.node(0, 1))]));
    }
    assert_eq!(show(&pat("(! ?x)").unwrap()), nodes(vec![var("?x"), node(Math::Not(0))]));
}

#[test]
fn wrong_patterns_are_refused() {
    assert!(pat("").is_none());
    assert!(pat("(+ ?a").is_none());
    assert!(pat("(+ ?a ?b ?c)").is_none());
    assert!(pat("(+ ?a)").is_none());
    assert!(pat("(! ?a ?b)").is_none());
    assert!(pat("(foo ?a ?b)").is_none());
    assert!(pat("(foo ?a)").is_none());
}

#[test]
fn nodes_as_read_become_a_pattern() {
    let raw = vec![
        RawNode::Var("?x".to_string()),
        RawNode::Op("12".to_string(), vec![]),
        RawNode::Op("%".to_string(), vec![0, 1]),
        RawNode::Op("!".to_string(), vec![2]),
    ];
    assert_eq!(
        show(&read_nodes(&raw).unwrap()),
        nodes(vec![
            var("?x"),
            node(Math::Constant(12)),
            node(Math::Mod([0, 1])),
            node(Math::Not(2)),
        ])
    );
}

#[test]
fn nodes_of_no_operator_are_refused() {
    let unknown = vec![RawNode::Var("?x".to_string()), RawNode::Op("neg".to_string(), vec![0])];
    assert!(read_nodes(&unknown).is_none());
    let wide = vec![RawNode::Var("?x".to_string()), RawNode::Op("+".to_string(), vec![0, 0, 0])];
    assert!(read_nodes(&wide).is_none());
}

#[test]
fn a_node_is_made_from_its_operator() {
    let made = Math::from_op(&"<=".to_string(), &vec![4, 2]).unwrap();
    assert!(matches!(made, Math::Let([4, 2])));
    assert!(matches!(Math::from_op(&"-3".to_string(), &vec![]), Some(Math::Constant(-3))));
    assert!(matches!(Math::from_op(&"!".to_string(), &vec![4]), Some(Math::Not(4))));
    assert!(Math::from_op(&"<=".to_string(), &vec![4]).is_none());
    assert!(Math::from_op(&"3".to_string(), &vec![4]).is_none());
}
