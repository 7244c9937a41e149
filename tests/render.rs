use envy::node::Node;
use envy::render::{export_value, join_string_items, render_entry, render_exports};

fn s(t: &str) -> Node {
    Node::Str(t.to_string())
}

#[test]
fn list_joined_with_colons() {
    let entries = vec![(s("PATH"), Node::List(vec![s("a"), s("b"), s("c")]))];
    assert_eq!(render_exports(&entries), vec!["export PATH=\"a:b:c\"".to_string()]);
}

#[test]
fn empty_list_gives_empty_value() {
    let entries = vec![(s("X"), Node::List(vec![]))];
    assert_eq!(render_exports(&entries), vec!["export X=\"\"".to_string()]);
}

#[test]
fn non_string_items_dropped() {
    let entries = vec![(s("X"), Node::List(vec![s("a"), Node::Integer(1), s("b")]))];
    assert_eq!(render_exports(&entries), vec!["export X=\"a:b\"".to_string()]);
}

#[test]
fn only_non_string_items_give_empty_value() {
    let items = vec![Node::Boolean(true), Node::Null, Node::Real("1.5".to_string())];
    assert_eq!(join_string_items(&items), "");
}

#[test]
fn empty_string_items_kept() {
    let items = vec![s("a"), s(""), s("b")];
    assert_eq!(join_string_items(&items), "a::b");
    assert_eq!(join_string_items(&vec![s("")]), "");
}

#[test]
fn string_scalar_verbatim() {
    assert_eq!(
        render_entry(&s("HOME_DIR"), &s("/home/u $x \"q\"")),
        Some("export HOME_DIR=\"/home/u $x \"q\"\"".to_string())
    );
}

#[test]
fn non_string_scalars_skipped() {
    assert_eq!(render_entry(&s("N"), &Node::Integer(3)), None);
    assert_eq!(render_entry(&s("B"), &Node::Boolean(false)), None);
    assert_eq!(render_entry(&s("R"), &Node::Real("2.0".to_string())), None);
    assert_eq!(render_entry(&s("Z"), &Node::Null), None);
    assert_eq!(export_value(&Node::Dict(vec![(s("a"), s("b"))])), None);
}

#[test]
fn non_string_key_skipped() {
    assert_eq!(render_entry(&Node::Integer(1), &s("v")), None);
    assert_eq!(render_entry(&Node::Boolean(true), &Node::List(vec![s("a")])), None);
}

#[test]
fn one_line_per_qualifying_entry() {
    let entries = vec![
        (s("A"), s("1")),
        (Node::Integer(5), s("skipped")),
        (s("B"), Node::List(vec![s("x"), s("y")])),
        (s("C"), Node::Integer(7)),
        (s("D"), s("")),
    ];
    assert_eq!(
        render_exports(&entries),
        vec![
            "export A=\"1\"".to_string(),
            "export B=\"x:y\"".to_string(),
            "export D=\"\"".to_string(),
        ]
    );
}

#[test]
fn no_entries_no_lines() {
    assert!(render_exports(&vec![]).is_empty());
}
