//! The sealed widget tree and the seal step.
//!
//! Sealing walks the arena once, in the ownership direction, and
//! returns a freshly allocated, uniquely owned tree: the renderer's
//! single-ownership contract is met by construction, and a handle that
//! points outside the arena degrades to a visible error leaf instead
//! of undefined content.

use vstd::prelude::*;
use vstd::string::StringExecFns;

use crate::arena::{node_wf, Arena, Node, WidgetHandle};
use crate::color::{Color, ContainerStyle};
use crate::length::Length;

verus! {

/// The immutable tree handed to the renderer.  Rows and columns own an
/// ordered sequence of child trees, containers own exactly one child,
/// leaves own none.
#[derive(Debug, PartialEq)]
#[allow(inconsistent_fields)]
pub enum WidgetTree {
    Text {
        content: String,
        color: Option<Color>,
        size: Option<u16>,
        width: Option<Length>,
        height: Option<Length>,
    },
    Space { width: Length, height: Length },
    Row { children: Vec<WidgetTree> },
    Column { children: Vec<WidgetTree> },
    Container { child: Box<WidgetTree>, style: Option<ContainerStyle> },
}

/// The mathematical shape of a widget tree: the same structure over
/// sequences, used by every contract that speaks of trees.
#[allow(inconsistent_fields)]
pub enum TreeModel {
    Text {
        content: Seq<char>,
        color: Option<Color>,
        size: Option<u16>,
        width: Option<Length>,
        height: Option<Length>,
    },
    Space { width: Length, height: Length },
    Row { children: Seq<TreeModel> },
    Column { children: Seq<TreeModel> },
    Container { child: Box<TreeModel>, style: Option<ContainerStyle> },
}

/// The model of a text leaf carrying a diagnostic message.
pub open spec fn error_leaf_model(msg: Seq<char>) -> TreeModel {
    TreeModel::Text {
        content: msg,
        color: None,
        size: None,
        width: None,
        height: None,
    }
}

/// What a handle that points outside the arena seals to.
pub open spec fn dangling_model() -> TreeModel {
    error_leaf_model("dangling widget handle"@)
}

impl WidgetTree {
    /// The shape of this tree.
    pub open spec fn model(self) -> TreeModel
        decreases self, 1int,
    {
        match self {
            WidgetTree::Text { content, color, size, width, height } => TreeModel::Text {
                content: content@,
                color,
                size,
                width,
                height,
            },
            WidgetTree::Space { width, height } => TreeModel::Space { width, height },
            WidgetTree::Row { children } => TreeModel::Row { children: models_of(children@) },
            WidgetTree::Column { children } => TreeModel::Column { children: models_of(children@) },
            WidgetTree::Container { child, style } => TreeModel::Container {
                child: Box::new((*child).model()),
                style,
            },
        }
    }
}

/// The models of a sequence of trees, in order.
pub open spec fn models_of(trees: Seq<WidgetTree>) -> Seq<TreeModel>
    decreases trees, 0int,
{
    Seq::new(
        trees.len(),
        |j: int|
            if 0 <= j < trees.len() {
                trees[j].model()
            } else {
                dangling_model()
            },
    )
}

/// What the node at position `i` of the arena seals to.  A position
/// outside the arena, or a child handle that does not point strictly
/// below its parent, seals to a visible error leaf.
pub open spec fn spec_seal(nodes: Seq<Node>, i: int) -> TreeModel
    decreases i, 1int,
{
    if 0 <= i < nodes.len() {
        match nodes[i] {
            Node::Text { content, color, size, width, height } => TreeModel::Text {
                content: content@,
                color,
                size,
                width,
                height,
            },
            Node::Space { width, height } => TreeModel::Space { width, height },
            Node::Row { children } => TreeModel::Row {
                children: spec_seal_children(nodes, children@, i),
            },
            Node::Column { children } => TreeModel::Column {
                children: spec_seal_children(nodes, children@, i),
            },
            Node::Container { child, style } => TreeModel::Container {
                child: Box::new(
                    if 0 <= (child.idx as int) < i {
                        spec_seal(nodes, child.idx as int)
                    } else {
                        dangling_model()
                    },
                ),
                style,
            },
        }
    } else {
        dangling_model()
    }
}

/// What a sequence of child handles, all expected strictly below
/// `bound`, seals to, in order.
pub open spec fn spec_seal_children(nodes: Seq<Node>, children: Seq<WidgetHandle>, bound: int) -> Seq<
    TreeModel,
>
    decreases bound, 0int,
{
    Seq::new(
        children.len(),
        |j: int|
            if 0 <= j < children.len() && 0 <= (children[j].idx as int) < bound {
                spec_seal(nodes, children[j].idx as int)
            } else {
                dangling_model()
            },
    )
}

/// Sealing reads only the arena below the sealed position: extending
/// the arena never changes what an existing handle seals to.
pub proof fn lemma_spec_seal_prefix(nodes1: Seq<Node>, nodes2: Seq<Node>, i: int)
    requires
        nodes1.len() <= nodes2.len(),
        nodes2.subrange(0, nodes1.len() as int) == nodes1,
        i < nodes1.len(),
    ensures
        spec_seal(nodes2, i) == spec_seal(nodes1, i),
    decreases i, 1int,
{
    if 0 <= i {
        assert(nodes2[i] == nodes2.subrange(0, nodes1.len() as int)[i]);
        match nodes1[i] {
            Node::Row { children } => {
                lemma_spec_seal_children_prefix(nodes1, nodes2, children@, i);
            },
            Node::Column { children } => {
                lemma_spec_seal_children_prefix(nodes1, nodes2, children@, i);
            },
            Node::Container { child, .. } => {
                if 0 <= (child.idx as int) < i {
                    lemma_spec_seal_prefix(nodes1, nodes2, child.idx as int);
                }
            },
            _ => {},
        }
    }
}

/// The child sequences seal alike under an arena extension.
proof fn lemma_spec_seal_children_prefix(
    nodes1: Seq<Node>,
    nodes2: Seq<Node>,
    children: Seq<WidgetHandle>,
    bound: int,
)
    requires
        nodes1.len() <= nodes2.len(),
        nodes2.subrange(0, nodes1.len() as int) == nodes1,
        bound <= nodes1.len(),
    ensures
        spec_seal_children(nodes2, children, bound) == spec_seal_children(
            nodes1,
            children,
            bound,
        ),
    decreases bound, 0int,
{
    assert forall|j: int| 0 <= j < children.len() implies #[trigger] spec_seal_children(
        nodes2,
        children,
        bound,
    )[j] == spec_seal_children(nodes1, children, bound)[j] by {
        if 0 <= (children[j].idx as int) < bound {
            lemma_spec_seal_prefix(nodes1, nodes2, children[j].idx as int);
        }
    }
    assert(spec_seal_children(nodes2, children, bound) =~= spec_seal_children(
        nodes1,
        children,
        bound,
    ));
}

/// The error leaf itself, used wherever conversion degrades.
pub fn error_leaf(content: String) -> (t: WidgetTree)
    ensures
        t.model() == error_leaf_model(content@),
{
    WidgetTree::Text { content, color: None, size: None, width: None, height: None }
}

/// Seals the node a handle points at into a uniquely owned tree.  The
/// arena is left untouched: nothing is moved out from under any other
/// live handle, so reusing a handle after sealing stays safe.
pub fn seal(arena: &Arena, h: WidgetHandle) -> (t: WidgetTree)
    requires
        arena.wf(),
    ensures
        t.model() == spec_seal(arena.nodes@, h.idx as int),
    decreases h.idx, 1int,
{
    if h.idx >= arena.nodes.len() {
        let t = error_leaf(String::from_str("dangling widget handle"));
        assert(t.model() == dangling_model());
        t
    } else {
        proof {
            assert(node_wf(arena.nodes@[h.idx as int], h.idx as int));
        }
        match &arena.nodes[h.idx] {
            Node::Text { content, color, size, width, height } => WidgetTree::Text {
                content: content.clone(),
                color: *color,
                size: *size,
                width: *width,
                height: *height,
            },
            Node::Space { width, height } => WidgetTree::Space {
                width: *width,
                height: *height,
            },
            Node::Row { children } => {
                let out = seal_all(arena, children, h.idx);
                let t = WidgetTree::Row { children: out };
                proof {
                    assert(t.model() == spec_seal(arena.nodes@, h.idx as int));
                }
                t
            },
            Node::Column { children } => {
                let out = seal_all(arena, children, h.idx);
                let t = WidgetTree::Column { children: out };
                proof {
                    assert(t.model() == spec_seal(arena.nodes@, h.idx as int));
                }
                t
            },
            Node::Container { child, style } => {
                let inner = seal(arena, *child);
                let t = WidgetTree::Container { child: Box::new(inner), style: *style };
                proof {
                    assert(t.model() == spec_seal(arena.nodes@, h.idx as int));
                }
                t
            },
        }
    }
}

/// Seals each child of a composite node, keeping their order.
fn seal_all(arena: &Arena, children: &Vec<WidgetHandle>, bound: usize) -> (out: Vec<WidgetTree>)
    requires
        arena.wf(),
        bound < arena.nodes@.len(),
        forall|j: int|
            0 <= j < children@.len() ==> (#[trigger] children@[j].idx as int) < bound as int,
    ensures
        models_of(out@) == spec_seal_children(arena.nodes@, children@, bound as int),
    decreases bound, 0int,
{
    let mut out: Vec<WidgetTree> = Vec::new();
    let n = children.len();
    let mut j: usize = 0;
    while j < n
        invariant
            j <= n,
            n == children@.len(),
            bound < arena.nodes@.len(),
            arena.wf(),
            forall|k: int|
                0 <= k < children@.len() ==> (#[trigger] children@[k].idx as int) < bound as int,
            out@.len() == j as int,
            forall|k: int|
                0 <= k < j as int ==> (#[trigger] out@[k]).model() == spec_seal(
                    arena.nodes@,
                    children@[k].idx as int,
                ),
        decreases n - j,
    {
        let c = children[j];
        let ct = seal(arena, c);
        out.push(ct);
        j += 1;
    }
    proof {
        assert forall|k: int| 0 <= k < children@.len() implies #[trigger] models_of(out@)[k]
            == spec_seal_children(arena.nodes@, children@, bound as int)[k] by {
            assert(out@[k].model() == spec_seal(arena.nodes@, children@[k].idx as int));
        }
        assert(models_of(out@) =~= spec_seal_children(arena.nodes@, children@, bound as int));
    }
    out
}

} // verus!
