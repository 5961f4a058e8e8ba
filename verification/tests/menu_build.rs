use menu_dispatch::application::application_menu;
use menu_dispatch::menu::ConstructionError;
use menu_dispatch::menu::MenuNode;
use menu_dispatch::menu::MenuTree;

fn leaf(id: &str, label: &str) -> MenuNode {
    MenuNode::Leaf { id: id.to_owned(), label: label.to_owned(), accelerator: None, enabled: true }
}

fn group(label: &str, children: Vec<MenuNode>) -> MenuNode {
    MenuNode::Group { label: label.to_owned(), children }
}

fn leaf_ids(nodes: &Vec<MenuNode>, out: &mut Vec<String>) {
    for node in nodes.iter() {
        match node {
            MenuNode::Separator => {},
            MenuNode::Leaf { id, .. } => out.push(id.clone()),
            MenuNode::Group { children, .. } => leaf_ids(children, out),
        }
    }
}

#[test]
fn duplicate_identifier_fails() {
    let nodes = vec![leaf("about", "About"), leaf("about", "Also About")];
    let r = MenuTree::build(nodes);
    assert!(matches!(r, Err(ConstructionError::DuplicateIdentifier)));
}

#[test]
fn duplicate_identifier_across_groups_fails() {
    let nodes = vec![
        group("File", vec![leaf("open", "Open")]),
        group("Extra", vec![group("Deep", vec![leaf("open", "Open Again")])]),
    ];
    let r = MenuTree::build(nodes);
    assert!(matches!(r, Err(ConstructionError::DuplicateIdentifier)));
}

#[test]
fn empty_group_label_fails() {
    let nodes = vec![group("", vec![leaf("open", "Open")])];
    let r = MenuTree::build(nodes);
    assert!(matches!(r, Err(ConstructionError::InvalidSpec)));
}

#[test]
fn nested_empty_group_label_fails() {
    let nodes = vec![group("File", vec![group("", vec![])])];
    let r = MenuTree::build(nodes);
    assert!(matches!(r, Err(ConstructionError::InvalidSpec)));
}

#[test]
fn duplicate_reported_before_invalid_label() {
    let nodes = vec![group("", vec![leaf("x", "X"), leaf("x", "X")])];
    let r = MenuTree::build(nodes);
    assert!(matches!(r, Err(ConstructionError::DuplicateIdentifier)));
}

#[test]
fn valid_menu_builds() {
    let nodes = vec![
        group("File", vec![leaf("open", "Open"), MenuNode::Separator, leaf("quit", "Quit")]),
        group("Help", vec![]),
    ];
    let tree = MenuTree::build(nodes).expect("valid menu");
    let mut ids: Vec<String> = Vec::new();
    leaf_ids(tree.roots(), &mut ids);
    assert_eq!(ids, vec!["open".to_owned(), "quit".to_owned()]);
}

#[test]
fn application_menu_declares_table_identifiers_in_order() {
    let tree = application_menu();
    let mut ids: Vec<String> = Vec::new();
    leaf_ids(tree.roots(), &mut ids);
    let expected = vec![
        "about",
        "home",
        "clipboard",
        "dialog",
        "filesystem",
        "notifications",
        "os-info",
        "theme-light",
        "theme-dark",
        "theme-system",
    ];
    assert_eq!(ids, expected);
}

#[test]
fn application_menu_has_five_groups() {
    let tree = application_menu();
    let roots = tree.roots();
    assert_eq!(roots.len(), 5);
    let labels: Vec<&str> = roots
        .iter()
        .map(|n| match n {
            MenuNode::Group { label, .. } => label.as_str(),
            _ => panic!("top level holds only groups"),
        })
        .collect();
    assert_eq!(labels, vec!["Tauri App", "Edit", "Navigate", "View", "Window"]);
}
