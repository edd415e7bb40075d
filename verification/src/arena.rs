//! The construction arena: in-progress widget nodes addressed by
//! handles.
//!
//! While a script builds a tree, nodes live in the arena and the script
//! holds handles — plain indices — that it may copy and reuse freely.
//! The arena, not ambient shared ownership, is what is shared during
//! construction; the seal step later walks it into a uniquely owned
//! tree, so no aliasing survives into what the renderer consumes.

use vstd::prelude::*;

use crate::color::{Color, ContainerStyle};
use crate::length::Length;

verus! {

/// A shareable reference to an in-progress widget node: an index into
/// the arena that created it.
#[derive(Clone, Copy, Debug, PartialEq, Eq)]
pub struct WidgetHandle {
    pub idx: usize,
}

/// One in-progress widget node.  Composite nodes refer to their
/// children by handle.
#[derive(Debug, PartialEq)]
#[allow(inconsistent_fields)]
pub enum Node {
    Text {
        content: String,
        color: Option<Color>,
        size: Option<u16>,
        width: Option<Length>,
        height: Option<Length>,
    },
    Space { width: Length, height: Length },
    Row { children: Vec<WidgetHandle> },
    Column { children: Vec<WidgetHandle> },
    Container { child: WidgetHandle, style: Option<ContainerStyle> },
}

/// A node standing at position `bound` is well formed when every child
/// handle points strictly below it.  Children are always created
/// before their parent, so the arena's builders keep this by
/// construction; it is also what makes sealing terminate.
pub open spec fn node_wf(n: Node, bound: int) -> bool {
    match n {
        Node::Row { children } => forall|j: int|
            0 <= j < children@.len() ==> (#[trigger] children@[j].idx as int) < bound,
        Node::Column { children } => forall|j: int|
            0 <= j < children@.len() ==> (#[trigger] children@[j].idx as int) < bound,
        Node::Container { child, .. } => (child.idx as int) < bound,
        _ => true,
    }
}

/// Every node's children stand strictly below it.
pub open spec fn nodes_wf(nodes: Seq<Node>) -> bool {
    forall|i: int| 0 <= i < nodes.len() ==> node_wf(#[trigger] nodes[i], i)
}

/// The arena of nodes built during one evaluation of the script.
#[derive(Debug, PartialEq)]
pub struct Arena {
    pub nodes: Vec<Node>,
}

impl Arena {
    /// Every node's children stand strictly below it.
    pub open spec fn wf(self) -> bool {
        nodes_wf(self.nodes@)
    }

    /// An empty arena, ready for one evaluation.
    pub fn new() -> (a: Arena)
        ensures
            a.nodes@ == Seq::<Node>::empty(),
            a.wf(),
    {
        Arena { nodes: Vec::new() }
    }

    /// The number of nodes built so far.
    pub fn len(&self) -> (n: usize)
        ensures
            n == self.nodes@.len(),
    {
        self.nodes.len()
    }
}

/// Appends a node whose children all stand below the current end of
/// the arena, and hands back its handle.
pub fn push_node(arena: &mut Arena, n: Node) -> (h: WidgetHandle)
    requires
        old(arena).wf(),
        node_wf(n, old(arena).nodes@.len() as int),
    ensures
        final(arena).wf(),
        final(arena).nodes@ == old(arena).nodes@.push(n),
        final(arena).nodes@.subrange(0, old(arena).nodes@.len() as int) == old(arena).nodes@,
        h.idx == old(arena).nodes@.len(),
        final(arena).nodes@.len() == old(arena).nodes@.len() + 1,
{
    let h = WidgetHandle { idx: arena.nodes.len() };
    arena.nodes.push(n);
    proof {
        assert(arena.nodes@.subrange(0, old(arena).nodes@.len() as int) =~= old(arena).nodes@);
        assert forall|i: int| 0 <= i < arena.nodes@.len() implies node_wf(
            #[trigger] arena.nodes@[i],
            i,
        ) by {
            if i < old(arena).nodes@.len() {
                assert(arena.nodes@[i] == old(arena).nodes@[i]);
                assert(node_wf(old(arena).nodes@[i], i));
            }
        }
    }
    h
}

/// Replacing a node that has no children keeps the arena well formed.
pub proof fn lemma_wf_update_childless(nodes: Seq<Node>, i: int, n: Node)
    requires
        nodes_wf(nodes),
        0 <= i < nodes.len(),
        node_wf(n, i),
    ensures
        nodes_wf(nodes.update(i, n)),
{
    let updated = nodes.update(i, n);
    assert forall|k: int| 0 <= k < updated.len() implies node_wf(#[trigger] updated[k], k) by {
        if k != i {
            assert(updated[k] == nodes[k]);
            assert(node_wf(nodes[k], k));
        }
    }
}

} // verus!
