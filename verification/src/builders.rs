//! The native operations behind the host capabilities: value builders
//! and widget builders, each with an exact contract.

use vstd::prelude::*;

use crate::arena::{node_wf, push_node, Arena, Node, WidgetHandle};
use crate::color::{color_from_rgb8, color_from_rgba8, Color, ContainerStyle};
use crate::convert::{lemma_spec_convert_at_prefix, spec_convert, to_widget};
use crate::length::Length;
use crate::num::{to_u16, to_u8, CoerceError};
use crate::tree::{lemma_spec_seal_prefix, spec_seal, spec_seal_children, TreeModel};
use crate::value::{describe_spec, DynValue};

verus! {

/// Builds a fully opaque color from three dynamically tagged byte
/// channels, truncating each as the coercion layer does.  A channel
/// whose tag is not numeric refuses the build, reporting the first
/// offender.
pub fn rgb8(r: &DynValue, g: &DynValue, b: &DynValue) -> (c: Result<Color, CoerceError>)
    ensures
        match c {
            Ok(col) => {
                &&& r matches DynValue::Num(rn) && col.r as int == rn.as_int() % 256
                &&& g matches DynValue::Num(gn) && col.g as int == gn.as_int() % 256
                &&& b matches DynValue::Num(bn) && col.b as int == bn.as_int() % 256
                &&& col.a == 255u8
            },
            Err(e) => {
                &&& !(r is Num) || !(g is Num) || !(b is Num)
                &&& e.found@ == if !(r is Num) {
                    describe_spec(*r)
                } else if !(g is Num) {
                    describe_spec(*g)
                } else {
                    describe_spec(*b)
                }
            },
        },
{
    let rv = match to_u8(r) {
        Ok(x) => x,
        Err(e) => {
            return Err(e);
        },
    };
    let gv = match to_u8(g) {
        Ok(x) => x,
        Err(e) => {
            return Err(e);
        },
    };
    let bv = match to_u8(b) {
        Ok(x) => x,
        Err(e) => {
            return Err(e);
        },
    };
    Ok(color_from_rgb8(rv, gv, bv))
}

/// Builds a color from four dynamically tagged byte channels.
pub fn rgba8(r: &DynValue, g: &DynValue, b: &DynValue, a: &DynValue) -> (c: Result<
    Color,
    CoerceError,
>)
    ensures
        match c {
            Ok(col) => {
                &&& r matches DynValue::Num(rn) && col.r as int == rn.as_int() % 256
                &&& g matches DynValue::Num(gn) && col.g as int == gn.as_int() % 256
                &&& b matches DynValue::Num(bn) && col.b as int == bn.as_int() % 256
                &&& a matches DynValue::Num(an) && col.a as int == an.as_int() % 256
            },
            Err(e) => {
                &&& !(r is Num) || !(g is Num) || !(b is Num) || !(a is Num)
                &&& e.found@ == if !(r is Num) {
                    describe_spec(*r)
                } else if !(g is Num) {
                    describe_spec(*g)
                } else if !(b is Num) {
                    describe_spec(*b)
                } else {
                    describe_spec(*a)
                }
            },
        },
{
    let rv = match to_u8(r) {
        Ok(x) => x,
        Err(e) => {
            return Err(e);
        },
    };
    let gv = match to_u8(g) {
        Ok(x) => x,
        Err(e) => {
            return Err(e);
        },
    };
    let bv = match to_u8(b) {
        Ok(x) => x,
        Err(e) => {
            return Err(e);
        },
    };
    let av = match to_u8(a) {
        Ok(x) => x,
        Err(e) => {
            return Err(e);
        },
    };
    Ok(color_from_rgba8(rv, gv, bv, av))
}

/// Builds a weighted fill length from a dynamically tagged number.
pub fn length_portion(units: &DynValue) -> (r: Result<Length, CoerceError>)
    ensures
        match r {
            Ok(l) => units matches DynValue::Num(n) && l == Length::FillPortion(
                ((n.as_int() % 65536) as u16),
            ),
            Err(e) => !(units is Num) && e.found@ == describe_spec(*units),
        },
{
    match to_u16(units) {
        Ok(x) => Ok(Length::FillPortion(x)),
        Err(e) => Err(e),
    }
}

/// Builds a fixed-unit length from a dynamically tagged number.
pub fn length_absolute(units: &DynValue) -> (r: Result<Length, CoerceError>)
    ensures
        match r {
            Ok(l) => units matches DynValue::Num(n) && l == Length::Units(
                ((n.as_int() % 65536) as u16),
            ),
            Err(e) => !(units is Num) && e.found@ == describe_spec(*units),
        },
{
    match to_u16(units) {
        Ok(x) => Ok(Length::Units(x)),
        Err(e) => Err(e),
    }
}

/// Creates a text leaf showing the given content, with no styling
/// set.
pub fn new_text(arena: &mut Arena, content: String) -> (h: WidgetHandle)
    requires
        old(arena).wf(),
    ensures
        final(arena).wf(),
        final(arena).nodes@ == old(arena).nodes@.push(
            Node::Text { content, color: None, size: None, width: None, height: None },
        ),
        h.idx == old(arena).nodes@.len(),
        spec_seal(final(arena).nodes@, h.idx as int) == (TreeModel::Text {
            content: content@,
            color: None,
            size: None,
            width: None,
            height: None,
        }),
{
    push_node(
        arena,
        Node::Text { content, color: None, size: None, width: None, height: None },
    )
}

/// Creates a spacer taking the given room along each axis.
pub fn new_space(arena: &mut Arena, width: Length, height: Length) -> (h: WidgetHandle)
    requires
        old(arena).wf(),
    ensures
        final(arena).wf(),
        final(arena).nodes@ == old(arena).nodes@.push(Node::Space { width, height }),
        h.idx == old(arena).nodes@.len(),
        spec_seal(final(arena).nodes@, h.idx as int) == (TreeModel::Space { width, height }),
{
    push_node(arena, Node::Space { width, height })
}

/// Creates a spacer sized along the horizontal axis only.
pub fn new_space_w(arena: &mut Arena, width: Length) -> (h: WidgetHandle)
    requires
        old(arena).wf(),
    ensures
        final(arena).wf(),
        final(arena).nodes@ == old(arena).nodes@.push(
            Node::Space { width, height: Length::Shrink },
        ),
        h.idx == old(arena).nodes@.len(),
        spec_seal(final(arena).nodes@, h.idx as int) == (TreeModel::Space {
            width,
            height: Length::Shrink,
        }),
{
    new_space(arena, width, Length::Shrink)
}

/// Creates a spacer sized along the vertical axis only.
pub fn new_space_h(arena: &mut Arena, height: Length) -> (h: WidgetHandle)
    requires
        old(arena).wf(),
    ensures
        final(arena).wf(),
        final(arena).nodes@ == old(arena).nodes@.push(
            Node::Space { width: Length::Shrink, height },
        ),
        h.idx == old(arena).nodes@.len(),
        spec_seal(final(arena).nodes@, h.idx as int) == (TreeModel::Space {
            width: Length::Shrink,
            height,
        }),
{
    new_space(arena, Length::Shrink, height)
}

/// Resolves each child value to a widget node, in order, against the
/// arena as it stood when the composite build began.
fn convert_children(arena: &mut Arena, children: &Vec<DynValue>) -> (hs: Vec<WidgetHandle>)
    requires
        old(arena).wf(),
    ensures
        final(arena).wf(),
        old(arena).nodes@.len() <= final(arena).nodes@.len(),
        final(arena).nodes@.subrange(0, old(arena).nodes@.len() as int) == old(arena).nodes@,
        hs@.len() == children@.len(),
        forall|k: int|
            0 <= k < hs@.len() ==> (#[trigger] hs@[k].idx as int) < final(arena).nodes@.len()
                && spec_seal(final(arena).nodes@, hs@[k].idx as int) == spec_convert(
                old(arena).nodes@,
                children@[k],
            ),
{
    let bound = arena.nodes.len();
    let n = children.len();
    let mut hs: Vec<WidgetHandle> = Vec::new();
    let mut j: usize = 0;
    while j < n
        invariant
            j <= n,
            n == children@.len(),
            bound == old(arena).nodes@.len(),
            arena.wf(),
            old(arena).nodes@.len() <= arena.nodes@.len(),
            arena.nodes@.subrange(0, old(arena).nodes@.len() as int) == old(arena).nodes@,
            hs@.len() == j as int,
            forall|k: int|
                0 <= k < j as int ==> (#[trigger] hs@[k].idx as int) < arena.nodes@.len()
                    && spec_seal(arena.nodes@, hs@[k].idx as int) == spec_convert(
                    old(arena).nodes@,
                    children@[k],
                ),
        decreases n - j,
    {
        let ghost prev = arena.nodes@;
        let h = to_widget(arena, &children[j], bound);
        proof {
            assert(arena.nodes@.subrange(0, old(arena).nodes@.len() as int)
                =~= old(arena).nodes@);
            lemma_spec_convert_at_prefix(
                old(arena).nodes@,
                prev,
                bound as int,
                children@[j as int],
            );
            assert forall|k: int| 0 <= k < j as int implies (#[trigger] hs@[k].idx as int)
                < arena.nodes@.len() && spec_seal(arena.nodes@, hs@[k].idx as int)
                == spec_convert(old(arena).nodes@, children@[k]) by {
                lemma_spec_seal_prefix(prev, arena.nodes@, hs@[k].idx as int);
            }
        }
        hs.push(h);
        j += 1;
    }
    hs
}

/// Creates a row whose children are the given values, converted in
/// order; the sealed row's children appear in exactly that order.
pub fn new_row(arena: &mut Arena, children: Vec<DynValue>) -> (h: WidgetHandle)
    requires
        old(arena).wf(),
    ensures
        final(arena).wf(),
        old(arena).nodes@.len() < final(arena).nodes@.len(),
        final(arena).nodes@.subrange(0, old(arena).nodes@.len() as int) == old(arena).nodes@,
        h.idx == final(arena).nodes@.len() - 1,
        spec_seal(final(arena).nodes@, h.idx as int) == (TreeModel::Row {
            children: Seq::new(
                children@.len(),
                |j: int| spec_convert(old(arena).nodes@, children@[j]),
            ),
        }),
{
    let hs = convert_children(arena, &children);
    let ghost mid = arena.nodes@;
    let h = push_node(arena, Node::Row { children: hs });
    proof {
        lemma_composite_seal(old(arena).nodes@, mid, arena.nodes@, hs@, children@, h.idx as int);
        assert(arena.nodes@.subrange(0, old(arena).nodes@.len() as int)
            =~= mid.subrange(0, old(arena).nodes@.len() as int));
    }
    h
}

/// Creates a column whose children are the given values, converted in
/// order; the sealed column's children appear in exactly that order.
pub fn new_col(arena: &mut Arena, children: Vec<DynValue>) -> (h: WidgetHandle)
    requires
        old(arena).wf(),
    ensures
        final(arena).wf(),
        old(arena).nodes@.len() < final(arena).nodes@.len(),
        final(arena).nodes@.subrange(0, old(arena).nodes@.len() as int) == old(arena).nodes@,
        h.idx == final(arena).nodes@.len() - 1,
        spec_seal(final(arena).nodes@, h.idx as int) == (TreeModel::Column {
            children: Seq::new(
                children@.len(),
                |j: int| spec_convert(old(arena).nodes@, children@[j]),
            ),
        }),
{
    let hs = convert_children(arena, &children);
    let ghost mid = arena.nodes@;
    let h = push_node(arena, Node::Column { children: hs });
    proof {
        lemma_composite_seal(old(arena).nodes@, mid, arena.nodes@, hs@, children@, h.idx as int);
        assert(arena.nodes@.subrange(0, old(arena).nodes@.len() as int)
            =~= mid.subrange(0, old(arena).nodes@.len() as int));
    }
    h
}

/// After pushing a composite node, its sealed children are the
/// converted child values, in order.
proof fn lemma_composite_seal(
    orig: Seq<Node>,
    mid: Seq<Node>,
    nodes: Seq<Node>,
    hs: Seq<WidgetHandle>,
    children: Seq<DynValue>,
    parent: int,
)
    requires
        orig.len() <= mid.len(),
        mid.subrange(0, orig.len() as int) == orig,
        nodes == mid.push(nodes[parent]),
        parent == mid.len(),
        hs.len() == children.len(),
        forall|k: int|
            0 <= k < hs.len() ==> (#[trigger] hs[k].idx as int) < mid.len() && spec_seal(
                mid,
                hs[k].idx as int,
            ) == spec_convert(orig, children[k]),
    ensures
        spec_seal_children(nodes, hs, parent) =~= Seq::new(
            children.len(),
            |j: int| spec_convert(orig, children[j]),
        ),
{
    assert(nodes.subrange(0, mid.len() as int) =~= mid);
    assert forall|j: int| 0 <= j < hs.len() implies #[trigger] spec_seal_children(
        nodes,
        hs,
        parent,
    )[j] == spec_convert(orig, children[j]) by {
        lemma_spec_seal_prefix(mid, nodes, hs[j].idx as int);
    }
}

/// Creates a container wrapping the given value, converted to a
/// widget, with no style attached.
pub fn new_container(arena: &mut Arena, child: &DynValue) -> (h: WidgetHandle)
    requires
        old(arena).wf(),
    ensures
        final(arena).wf(),
        old(arena).nodes@.len() < final(arena).nodes@.len(),
        final(arena).nodes@.subrange(0, old(arena).nodes@.len() as int) == old(arena).nodes@,
        h.idx == final(arena).nodes@.len() - 1,
        spec_seal(final(arena).nodes@, h.idx as int) == (TreeModel::Container {
            child: Box::new(spec_convert(old(arena).nodes@, *child)),
            style: None,
        }),
{
    let bound = arena.nodes.len();
    let ch = to_widget(arena, child, bound);
    let ghost mid = arena.nodes@;
    let h = push_node(arena, Node::Container { child: ch, style: None });
    proof {
        lemma_spec_seal_prefix(mid, arena.nodes@, ch.idx as int);
        assert(arena.nodes@.subrange(0, old(arena).nodes@.len() as int)
            =~= mid.subrange(0, old(arena).nodes@.len() as int));
    }
    h
}

/// Attaches a style to a container node, in place.  Returns whether
/// the handle named a container; on any other node the arena is left
/// unchanged.
pub fn container_style(arena: &mut Arena, h: WidgetHandle, style: ContainerStyle) -> (ok: bool)
    requires
        old(arena).wf(),
    ensures
        final(arena).wf(),
        ok <==> ((h.idx as int) < old(arena).nodes@.len() && old(arena).nodes@[h.idx as int]
            is Container),
        ok ==> (old(arena).nodes@[h.idx as int] matches Node::Container { child, style: _ }
            && final(arena).nodes@ == old(arena).nodes@.update(
            h.idx as int,
            Node::Container { child, style: Some(style) },
        )),
        !ok ==> final(arena).nodes@ == old(arena).nodes@,
{
    if h.idx < arena.nodes.len() {
        let replacement: Node;
        match &arena.nodes[h.idx] {
            Node::Container { child, .. } => {
                replacement = Node::Container { child: *child, style: Some(style) };
            },
            _ => {
                return false;
            },
        }
        proof {
            assert(node_wf(old(arena).nodes@[h.idx as int], h.idx as int));
            crate::arena::lemma_wf_update_childless(arena.nodes@, h.idx as int, replacement);
        }
        arena.nodes[h.idx] = replacement;
        true
    } else {
        false
    }
}

/// Sets the color of a text leaf, in place.  Returns whether the
/// handle named a text node; on any other node the arena is left
/// unchanged.
pub fn text_color(arena: &mut Arena, h: WidgetHandle, color: Color) -> (ok: bool)
    requires
        old(arena).wf(),
    ensures
        final(arena).wf(),
        ok <==> ((h.idx as int) < old(arena).nodes@.len() && old(arena).nodes@[h.idx as int]
            is Text),
        ok ==> (old(arena).nodes@[h.idx as int] matches Node::Text {
            content,
            color: _,
            size,
            width,
            height,
        } && final(arena).nodes@ == old(arena).nodes@.update(
            h.idx as int,
            Node::Text { content, color: Some(color), size, width, height },
        )),
        !ok ==> final(arena).nodes@ == old(arena).nodes@,
{
    if h.idx < arena.nodes.len() {
        let replacement: Node;
        match &arena.nodes[h.idx] {
            Node::Text { content, size, width, height, .. } => {
                replacement = Node::Text {
                    content: content.clone(),
                    color: Some(color),
                    size: *size,
                    width: *width,
                    height: *height,
                };
            },
            _ => {
                return false;
            },
        }
        proof {
            crate::arena::lemma_wf_update_childless(arena.nodes@, h.idx as int, replacement);
        }
        arena.nodes[h.idx] = replacement;
        true
    } else {
        false
    }
}

/// Sets the font size of a text leaf, in place.
pub fn text_size(arena: &mut Arena, h: WidgetHandle, size: u16) -> (ok: bool)
    requires
        old(arena).wf(),
    ensures
        final(arena).wf(),
        ok <==> ((h.idx as int) < old(arena).nodes@.len() && old(arena).nodes@[h.idx as int]
            is Text),
        ok ==> (old(arena).nodes@[h.idx as int] matches Node::Text {
            content,
            color,
            size: _,
            width,
            height,
        } && final(arena).nodes@ == old(arena).nodes@.update(
            h.idx as int,
            Node::Text { content, color, size: Some(size), width, height },
        )),
        !ok ==> final(arena).nodes@ == old(arena).nodes@,
{
    if h.idx < arena.nodes.len() {
        let replacement: Node;
        match &arena.nodes[h.idx] {
            Node::Text { content, color, width, height, .. } => {
                replacement = Node::Text {
                    content: content.clone(),
                    color: *color,
                    size: Some(size),
                    width: *width,
                    height: *height,
                };
            },
            _ => {
                return false;
            },
        }
        proof {
            crate::arena::lemma_wf_update_childless(arena.nodes@, h.idx as int, replacement);
        }
        arena.nodes[h.idx] = replacement;
        true
    } else {
        false
    }
}

/// Sets the width of a text leaf, in place.
pub fn text_width(arena: &mut Arena, h: WidgetHandle, width: Length) -> (ok: bool)
    requires
        old(arena).wf(),
    ensures
        final(arena).wf(),
        ok <==> ((h.idx as int) < old(arena).nodes@.len() && old(arena).nodes@[h.idx as int]
            is Text),
        ok ==> (old(arena).nodes@[h.idx as int] matches Node::Text {
            content,
            color,
            size,
            width: _,
            height,
        } && final(arena).nodes@ == old(arena).nodes@.update(
            h.idx as int,
            Node::Text { content, color, size, width: Some(width), height },
        )),
        !ok ==> final(arena).nodes@ == old(arena).nodes@,
{
    if h.idx < arena.nodes.len() {
        let replacement: Node;
        match &arena.nodes[h.idx] {
            Node::Text { content, color, size, height, .. } => {
                replacement = Node::Text {
                    content: content.clone(),
                    color: *color,
                    size: *size,
                    width: Some(width),
                    height: *height,
                };
            },
            _ => {
                return false;
            },
        }
        proof {
            crate::arena::lemma_wf_update_childless(arena.nodes@, h.idx as int, replacement);
        }
        arena.nodes[h.idx] = replacement;
        true
    } else {
        false
    }
}

/// Sets the height of a text leaf, in place.
pub fn text_height(arena: &mut Arena, h: WidgetHandle, height: Length) -> (ok: bool)
    requires
        old(arena).wf(),
    ensures
        final(arena).wf(),
        ok <==> ((h.idx as int) < old(arena).nodes@.len() && old(arena).nodes@[h.idx as int]
            is Text),
        ok ==> (old(arena).nodes@[h.idx as int] matches Node::Text {
            content,
            color,
            size,
            width,
            height: _,
        } && final(arena).nodes@ == old(arena).nodes@.update(
            h.idx as int,
            Node::Text { content, color, size, width, height: Some(height) },
        )),
        !ok ==> final(arena).nodes@ == old(arena).nodes@,
{
    if h.idx < arena.nodes.len() {
        let replacement: Node;
        match &arena.nodes[h.idx] {
            Node::Text { content, color, size, width, .. } => {
                replacement = Node::Text {
                    content: content.clone(),
                    color: *color,
                    size: *size,
                    width: *width,
                    height: Some(height),
                };
            },
            _ => {
                return false;
            },
        }
        proof {
            crate::arena::lemma_wf_update_childless(arena.nodes@, h.idx as int, replacement);
        }
        arena.nodes[h.idx] = replacement;
        true
    } else {
        false
    }
}

} // verus!
