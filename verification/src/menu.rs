//! Declarative menu tree and its construction-time validation.
//!
//! A menu is an ordered hierarchy of separators, leaves and groups; each
//! leaf carries the stable identifier the host shell hands back on
//! activation.  Construction validates the whole tree — identifiers unique
//! across the tree, no empty group label — and fails outright on a
//! violation: such an error is startup-fatal and never recovered silently.
//! Rendering the validated tree into the host's native menu is the
//! shell's business; each leaf and group maps to one native item.
use vstd::prelude::*;

verus! {

/// One node of the declarative menu description.
pub enum MenuNode {
    /// A visual divider.
    Separator,
    /// An activatable item carrying its stable identifier.
    Leaf { id: String, label: String, accelerator: Option<String>, enabled: bool },
    /// A labelled, ordered collection of nodes.
    Group { label: String, children: Vec<MenuNode> },
}

/// Why a menu description was rejected.
#[derive(Clone, Copy, PartialEq, Eq, Structural, Debug)]
pub enum ConstructionError {
    /// Two leaves share an identifier.
    DuplicateIdentifier,
    /// A group label is empty.
    InvalidSpec,
}

/// The identifiers of all leaves under `node`, in menu order.
pub open spec fn node_ids(node: MenuNode) -> Seq<Seq<char>>
    decreases node,
{
    match node {
        MenuNode::Separator => Seq::empty(),
        MenuNode::Leaf { id, .. } => seq![id@],
        MenuNode::Group { children, .. } => nodes_ids(children@),
    }
}

/// The identifiers of all leaves under the nodes of `s`, in menu order.
pub open spec fn nodes_ids(s: Seq<MenuNode>) -> Seq<Seq<char>>
    decreases s,
{
    if s.len() == 0 {
        Seq::empty()
    } else {
        node_ids(s[0]) + nodes_ids(s.drop_first())
    }
}

/// Every group under `node` has a non-empty label.
pub open spec fn node_labels_ok(node: MenuNode) -> bool
    decreases node,
{
    match node {
        MenuNode::Separator => true,
        MenuNode::Leaf { .. } => true,
        MenuNode::Group { label, children } => label@.len() > 0 && nodes_labels_ok(children@),
    }
}

/// Every group under the nodes of `s` has a non-empty label.
pub open spec fn nodes_labels_ok(s: Seq<MenuNode>) -> bool
    decreases s,
{
    if s.len() == 0 {
        true
    } else {
        node_labels_ok(s[0]) && nodes_labels_ok(s.drop_first())
    }
}

pub proof fn lemma_nodes_ids_snoc(s: Seq<MenuNode>, node: MenuNode)
    ensures
        nodes_ids(s.push(node)) =~= nodes_ids(s) + node_ids(node),
    decreases s.len(),
{
    if s.len() == 0 {
        assert(s.push(node)[0] == node);
        assert(s.push(node).drop_first() =~= s);
        assert(nodes_ids(s.push(node)) == node_ids(node) + nodes_ids(s));
        assert(nodes_ids(s) == Seq::<Seq<char>>::empty());
        assert(nodes_ids(s.push(node)) =~= nodes_ids(s) + node_ids(node));
    } else {
        assert(s.push(node)[0] == s[0]);
        assert(s.push(node).drop_first() =~= s.drop_first().push(node));
        lemma_nodes_ids_snoc(s.drop_first(), node);
        assert(nodes_ids(s.push(node)) == node_ids(s[0]) + nodes_ids(s.drop_first().push(node)));
        assert(nodes_ids(s.drop_first().push(node)) == nodes_ids(s.drop_first()) + node_ids(node));
        assert(nodes_ids(s.push(node)) =~= nodes_ids(s) + node_ids(node));
    }
}

pub proof fn lemma_nodes_labels_ok_snoc(s: Seq<MenuNode>, node: MenuNode)
    ensures
        nodes_labels_ok(s.push(node)) == (nodes_labels_ok(s) && node_labels_ok(node)),
    decreases s.len(),
{
    if s.len() == 0 {
        assert(s.push(node)[0] == node);
        assert(s.push(node).drop_first() =~= s);
    } else {
        assert(s.push(node)[0] == s[0]);
        assert(s.push(node).drop_first() =~= s.drop_first().push(node));
        lemma_nodes_labels_ok_snoc(s.drop_first(), node);
    }
}

/// A validated menu tree: identifiers unique across the whole tree, every
/// group label non-empty.  Built once at startup, immutable afterwards.
pub struct MenuTree {
    roots: Vec<MenuNode>,
}

impl View for MenuTree {
    type V = Seq<MenuNode>;

    closed spec fn view(&self) -> Seq<MenuNode> {
        self.roots@
    }
}

#[verifier::loop_isolation(false)]
fn collect_ids(node: &MenuNode, out: &mut Vec<String>)
    ensures
        final(out)@.map_values(|s: String| s@) == old(out)@.map_values(|s: String| s@) + node_ids(
            *node,
        ),
    decreases *node,
{
    match node {
        MenuNode::Separator => {
            proof {
                assert(out@.map_values(|s: String| s@) =~= old(out)@.map_values(|s: String| s@)
                    + node_ids(*node));
            }
        },
        MenuNode::Leaf { id, .. } => {
            out.push(id.clone());
            proof {
                assert(out@.map_values(|s: String| s@) =~= old(out)@.map_values(|s: String| s@)
                    + node_ids(*node));
            }
        },
        MenuNode::Group { children, .. } => {
            let ghost base = out@.map_values(|s: String| s@);
            proof {
                assert(decreases_to!(*node => *children));
            }
            let n: usize = children.len();
            let mut i: usize = 0;
            while i < n
                invariant
                    n == children.len(),
                    0 <= i <= n,
                    out@.map_values(|s: String| s@) == base + nodes_ids(children@.take(i as int)),
                decreases n - i,
            {
                proof {
                    assert(decreases_to!(*children => children@));
                    assert(decreases_to!(children@ => children@[i as int]));
                }
                collect_ids(&children[i], out);
                proof {
                    assert(children@.take(i + 1) =~= children@.take(i as int).push(
                        children@[i as int],
                    ));
                    lemma_nodes_ids_snoc(children@.take(i as int), children@[i as int]);
                }
                i += 1;
            }
            proof {
                assert(children@.take(n as int) =~= children@);
            }
        },
    }
}

#[verifier::loop_isolation(false)]
fn labels_ok(node: &MenuNode) -> (r: bool)
    ensures
        r == node_labels_ok(*node),
    decreases *node,
{
    match node {
        MenuNode::Separator => true,
        MenuNode::Leaf { .. } => true,
        MenuNode::Group { label, children } => {
            if label.as_str().is_empty() {
                return false;
            }
            proof {
                assert(decreases_to!(*node => *children));
            }
            let n: usize = children.len();
            let mut i: usize = 0;
            while i < n
                invariant
                    n == children.len(),
                    0 <= i <= n,
                    nodes_labels_ok(children@.take(i as int)),
                decreases n - i,
            {
                proof {
                    assert(decreases_to!(*children => children@));
                    assert(decreases_to!(children@ => children@[i as int]));
                }
                if !labels_ok(&children[i]) {
                    proof {
                        assert(children@.take(i + 1) =~= children@.take(i as int).push(
                            children@[i as int],
                        ));
                        lemma_nodes_labels_ok_snoc(children@.take(i as int), children@[i as int]);
                        assert(!nodes_labels_ok(children@.take(i + 1)));
                        lemma_nodes_labels_ok_prefix(children@, i + 1);
                    }
                    return false;
                }
                proof {
                    assert(children@.take(i + 1) =~= children@.take(i as int).push(
                        children@[i as int],
                    ));
                    lemma_nodes_labels_ok_snoc(children@.take(i as int), children@[i as int]);
                }
                i += 1;
            }
            proof {
                assert(children@.take(n as int) =~= children@);
            }
            true
        },
    }
}

proof fn lemma_nodes_labels_ok_prefix(s: Seq<MenuNode>, k: int)
    requires
        0 <= k <= s.len(),
        !nodes_labels_ok(s.take(k)),
    ensures
        !nodes_labels_ok(s),
    decreases s.len(),
{
    if k > 0 && s.len() > 0 {
        if !node_labels_ok(s[0]) {
        } else {
            assert(s.take(k)[0] == s[0]);
            assert(s.take(k).drop_first() =~= s.drop_first().take(k - 1));
            lemma_nodes_labels_ok_prefix(s.drop_first(), k - 1);
        }
    }
}

#[verifier::loop_isolation(false)]
fn ids_have_duplicate(ids: &Vec<String>) -> (r: bool)
    ensures
        r == !ids@.map_values(|s: String| s@).no_duplicates(),
{
    let ghost v = ids@.map_values(|s: String| s@);
    let n: usize = ids.len();
    let mut i: usize = 0;
    while i < n
        invariant
            n == ids.len(),
            0 <= i <= n,
            v == ids@.map_values(|s: String| s@),
            forall|a: int, b: int| 0 <= a < b < n && a < i ==> v[a] != v[b],
        decreases n - i,
    {
        let mut j: usize = i + 1;
        while j < n
            invariant
                n == ids.len(),
                0 <= i < n,
                i < j <= n,
                v == ids@.map_values(|s: String| s@),
                forall|b: int| i < b < j ==> v[i as int] != v[b],
            decreases n - j,
        {
            if ids[i] == ids[j] {
                proof {
                    assert(v[i as int] == ids@[i as int]@);
                    assert(v[j as int] == ids@[j as int]@);
                    assert(!v.no_duplicates());
                }
                return true;
            }
            proof {
                assert(v[i as int] == ids@[i as int]@);
                assert(v[j as int] == ids@[j as int]@);
            }
            j += 1;
        }
        i += 1;
    }
    proof {
        assert(v.no_duplicates());
    }
    false
}

impl MenuTree {
    /// Validates a declarative menu description and wraps it as a tree.
    /// Fails with `DuplicateIdentifier` when two leaves share an
    /// identifier, else with `InvalidSpec` when a group label is empty;
    /// both are startup-fatal, and no partial tree is produced.  On
    /// success the tree is exactly the given description.
    #[verifier::loop_isolation(false)]
    pub fn build(nodes: Vec<MenuNode>) -> (r: Result<MenuTree, ConstructionError>)
        ensures
            match r {
                Ok(tree) => tree@ == nodes@ && nodes_ids(nodes@).no_duplicates()
                    && nodes_labels_ok(nodes@),
                Err(e) => e == ConstructionError::DuplicateIdentifier <==> !nodes_ids(
                    nodes@,
                ).no_duplicates(),
            },
            r is Err ==> !(nodes_ids(nodes@).no_duplicates() && nodes_labels_ok(nodes@)),
    {
        let mut ids: Vec<String> = Vec::new();
        let n: usize = nodes.len();
        let mut i: usize = 0;
        while i < n
            invariant
                n == nodes.len(),
                0 <= i <= n,
                ids@.map_values(|s: String| s@) == nodes_ids(nodes@.take(i as int)),
            decreases n - i,
        {
            collect_ids(&nodes[i], &mut ids);
            proof {
                assert(nodes@.take(i + 1) =~= nodes@.take(i as int).push(nodes@[i as int]));
                lemma_nodes_ids_snoc(nodes@.take(i as int), nodes@[i as int]);
            }
            i += 1;
        }
        proof {
            assert(nodes@.take(n as int) =~= nodes@);
        }
        if ids_have_duplicate(&ids) {
            return Err(ConstructionError::DuplicateIdentifier);
        }
        let mut i: usize = 0;
        while i < n
            invariant
                n == nodes.len(),
                0 <= i <= n,
                nodes_ids(nodes@).no_duplicates(),
                nodes_labels_ok(nodes@.take(i as int)),
            decreases n - i,
        {
            if !labels_ok(&nodes[i]) {
                proof {
                    assert(nodes@.take(i + 1) =~= nodes@.take(i as int).push(nodes@[i as int]));
                    lemma_nodes_labels_ok_snoc(nodes@.take(i as int), nodes@[i as int]);
                    lemma_nodes_labels_ok_prefix(nodes@, i + 1);
                }
                return Err(ConstructionError::InvalidSpec);
            }
            proof {
                assert(nodes@.take(i + 1) =~= nodes@.take(i as int).push(nodes@[i as int]));
                lemma_nodes_labels_ok_snoc(nodes@.take(i as int), nodes@[i as int]);
            }
            i += 1;
        }
        proof {
            assert(nodes@.take(n as int) =~= nodes@);
        }
        Ok(MenuTree { roots: nodes })
    }

    /// The validated nodes, for the host shell's 1:1 translation into its
    /// native menu representation.
    pub fn roots(&self) -> (r: &Vec<MenuNode>)
        ensures
            r@ == self@,
    {
        &self.roots
    }
}

} // verus!
