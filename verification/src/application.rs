//! The application's concrete menu.
//!
//! The declarative tree behind the native menu bar: the custom leaves the
//! command table declares, grouped as the user sees them.  Predefined
//! platform items (quit, undo, minimize, ...) are bound by the host shell
//! at translation time and never appear here, just as they never reach
//! the command table.
use vstd::prelude::*;

use crate::commands::CommandView;
use crate::commands::application_entries;
use crate::menu::MenuNode;
use crate::menu::MenuTree;
use crate::menu::node_ids;
use crate::menu::node_labels_ok;
use crate::menu::nodes_ids;
use crate::menu::nodes_labels_ok;

verus! {

/// The identifiers the application's menu declares, in menu order.
pub open spec fn application_ids() -> Seq<Seq<char>> {
    seq![
        "about"@,
        "home"@,
        "clipboard"@,
        "dialog"@,
        "filesystem"@,
        "notifications"@,
        "os-info"@,
        "theme-light"@,
        "theme-dark"@,
        "theme-system"@,
    ]
}

/// Law: the command table matches the menu's leaves exactly — the
/// identifiers the table declares are the identifiers of the menu's
/// leaves, in the same order.
pub proof fn lemma_menu_matches_table()
    ensures
        application_entries().map_values(|p: (Seq<char>, CommandView)| p.0) =~= application_ids(),
{
}

/// Law: no two of the application's identifiers collide.
pub proof fn lemma_application_ids_distinct()
    ensures
        application_ids().no_duplicates(),
{
    reveal_strlit("about");
    reveal_strlit("home");
    reveal_strlit("clipboard");
    reveal_strlit("dialog");
    reveal_strlit("filesystem");
    reveal_strlit("notifications");
    reveal_strlit("os-info");
    reveal_strlit("theme-light");
    reveal_strlit("theme-dark");
    reveal_strlit("theme-system");
    let ids = application_ids();
    assert("about"@.len() == 5);
    assert("home"@.len() == 4);
    assert("clipboard"@.len() == 9);
    assert("dialog"@.len() == 6);
    assert("filesystem"@.len() == 10);
    assert("notifications"@.len() == 13);
    assert("os-info"@.len() == 7);
    assert("theme-light"@.len() == 11);
    assert("theme-dark"@.len() == 10);
    assert("theme-system"@.len() == 12);
    assert("filesystem"@[0] == 'f' && "theme-dark"@[0] == 't');
    assert forall|i: int, j: int| 0 <= i < j < ids.len() implies ids[i] != ids[j] by {
        assert(ids[0] == "about"@);
        assert(ids[1] == "home"@);
        assert(ids[2] == "clipboard"@);
        assert(ids[3] == "dialog"@);
        assert(ids[4] == "filesystem"@);
        assert(ids[5] == "notifications"@);
        assert(ids[6] == "os-info"@);
        assert(ids[7] == "theme-light"@);
        assert(ids[8] == "theme-dark"@);
        assert(ids[9] == "theme-system"@);
    }
}

/// Appends a leaf item.
fn push_leaf(nodes: &mut Vec<MenuNode>, id: &str, label: &str, accelerator: Option<&str>)
    ensures
        nodes_ids(final(nodes)@) == nodes_ids(old(nodes)@) + seq![id@],
        nodes_labels_ok(final(nodes)@) == nodes_labels_ok(old(nodes)@),
{
    let accel: Option<String> = match accelerator {
        Some(a) => Some(a.to_owned()),
        None => None,
    };
    let node = MenuNode::Leaf {
        id: id.to_owned(),
        label: label.to_owned(),
        accelerator: accel,
        enabled: true,
    };
    proof {
        assert(node_ids(node) =~= seq![id@]);
        crate::menu::lemma_nodes_ids_snoc(nodes@, node);
        crate::menu::lemma_nodes_labels_ok_snoc(nodes@, node);
        assert(nodes_ids(nodes@) + node_ids(node) =~= nodes_ids(nodes@) + seq![id@]);
    }
    nodes.push(node);
}

/// Appends a separator.
fn push_separator(nodes: &mut Vec<MenuNode>)
    ensures
        nodes_ids(final(nodes)@) == nodes_ids(old(nodes)@),
        nodes_labels_ok(final(nodes)@) == nodes_labels_ok(old(nodes)@),
{
    proof {
        crate::menu::lemma_nodes_ids_snoc(nodes@, MenuNode::Separator);
        crate::menu::lemma_nodes_labels_ok_snoc(nodes@, MenuNode::Separator);
        assert(nodes_ids(nodes@) + node_ids(MenuNode::Separator) =~= nodes_ids(nodes@));
    }
    nodes.push(MenuNode::Separator);
}

/// Appends a group with the given children.
fn push_group(nodes: &mut Vec<MenuNode>, label: &str, children: Vec<MenuNode>)
    requires
        label@.len() > 0,
    ensures
        nodes_ids(final(nodes)@) == nodes_ids(old(nodes)@) + nodes_ids(children@),
        nodes_labels_ok(final(nodes)@) == (nodes_labels_ok(old(nodes)@) && nodes_labels_ok(
            children@,
        )),
{
    let node = MenuNode::Group { label: label.to_owned(), children };
    proof {
        crate::menu::lemma_nodes_ids_snoc(nodes@, node);
        crate::menu::lemma_nodes_labels_ok_snoc(nodes@, node);
    }
    nodes.push(node);
}

/// Builds the application's declarative menu: the "Tauri App" group with
/// the about item, the Edit group, the Navigate group, the View group
/// with the theme items, and the Window group.  Its leaves carry exactly
/// the identifiers of the command table, in the same order.
pub fn application_menu() -> (t: MenuTree)
    ensures
        nodes_ids(t@) == application_ids(),
        nodes_ids(t@).no_duplicates(),
        nodes_labels_ok(t@),
{
    let ghost empty_ids = Seq::<Seq<char>>::empty();
    let mut app_children: Vec<MenuNode> = Vec::new();
    proof {
        assert(nodes_ids(app_children@) =~= empty_ids);
        assert(nodes_labels_ok(app_children@));
    }
    push_leaf(&mut app_children, "about", "About Tauri App Boilerplate", None);
    push_separator(&mut app_children);

    let edit_children: Vec<MenuNode> = Vec::new();
    proof {
        assert(nodes_ids(edit_children@) =~= empty_ids);
    }

    let mut nav_children: Vec<MenuNode> = Vec::new();
    proof {
        assert(nodes_ids(nav_children@) =~= empty_ids);
        assert(nodes_labels_ok(nav_children@));
    }
    push_leaf(&mut nav_children, "home", "Home", Some("Cmd+1"));
    push_leaf(&mut nav_children, "clipboard", "Clipboard", Some("Cmd+2"));
    push_leaf(&mut nav_children, "dialog", "Dialog", Some("Cmd+3"));
    push_leaf(&mut nav_children, "filesystem", "File System", Some("Cmd+4"));
    push_leaf(&mut nav_children, "notifications", "Notifications", Some("Cmd+5"));
    push_leaf(&mut nav_children, "os-info", "OS Info", Some("Cmd+6"));

    let mut view_children: Vec<MenuNode> = Vec::new();
    proof {
        assert(nodes_ids(view_children@) =~= empty_ids);
        assert(nodes_labels_ok(view_children@));
    }
    push_leaf(&mut view_children, "theme-light", "Light Theme", Some("Cmd+L"));
    push_leaf(&mut view_children, "theme-dark", "Dark Theme", Some("Cmd+D"));
    push_leaf(&mut view_children, "theme-system", "System Theme", Some("Cmd+Shift+D"));
    push_separator(&mut view_children);

    let window_children: Vec<MenuNode> = Vec::new();
    proof {
        assert(nodes_ids(window_children@) =~= empty_ids);
    }

    let mut roots: Vec<MenuNode> = Vec::new();
    proof {
        assert(nodes_ids(roots@) =~= empty_ids);
        assert(nodes_labels_ok(roots@));
        reveal_strlit("Tauri App");
        reveal_strlit("Edit");
        reveal_strlit("Navigate");
        reveal_strlit("View");
        reveal_strlit("Window");
    }
    push_group(&mut roots, "Tauri App", app_children);
    push_group(&mut roots, "Edit", edit_children);
    push_group(&mut roots, "Navigate", nav_children);
    push_group(&mut roots, "View", view_children);
    push_group(&mut roots, "Window", window_children);
    proof {
        assert(nodes_ids(roots@) =~= application_ids());
        lemma_application_ids_distinct();
    }
    match MenuTree::build(roots) {
        Ok(t) => t,
        Err(_) => vstd::pervasive::unreached(),
    }
}

} // verus!
