//! The dynamic-to-widget converter.
//!
//! Conversion never fails outright: a value the converter does not
//! recognize as a widget becomes a visible error leaf embedding the
//! value's description, so the render loop can always produce output.

use vstd::prelude::*;
use vstd::string::StringExecFns;

use crate::arena::{push_node, Arena, Node, WidgetHandle};
use crate::tree::{
    dangling_model, error_leaf, error_leaf_model, lemma_spec_seal_prefix, seal, spec_seal,
    TreeModel, WidgetTree,
};
use crate::value::{describe, describe_spec, DynValue};

verus! {

/// The error leaf a value outside the recognized widget tags degrades
/// to.
pub open spec fn not_supported_model(v: DynValue) -> TreeModel {
    error_leaf_model("not supported: "@ + describe_spec(v))
}

/// What a value converts to, reading only arena positions strictly
/// below `bound`: a widget handle seals its node, a handle at or above
/// the bound degrades to a dangling leaf, anything else to a
/// diagnostic leaf.
pub open spec fn spec_convert_at(nodes: Seq<Node>, bound: int, v: DynValue) -> TreeModel {
    match v {
        DynValue::Widget(h) => if 0 <= (h.idx as int) < bound {
            spec_seal(nodes, h.idx as int)
        } else {
            dangling_model()
        },
        _ => not_supported_model(v),
    }
}

/// What a value converts to against the whole arena.
pub open spec fn spec_convert(nodes: Seq<Node>, v: DynValue) -> TreeModel {
    spec_convert_at(nodes, nodes.len() as int, v)
}

/// Conversion at a bound inside the shared prefix is unchanged by
/// extending the arena.
pub proof fn lemma_spec_convert_at_prefix(
    nodes1: Seq<Node>,
    nodes2: Seq<Node>,
    bound: int,
    v: DynValue,
)
    requires
        nodes1.len() <= nodes2.len(),
        nodes2.subrange(0, nodes1.len() as int) == nodes1,
        bound <= nodes1.len(),
    ensures
        spec_convert_at(nodes2, bound, v) == spec_convert_at(nodes1, bound, v),
{
    match v {
        DynValue::Widget(h) => {
            if 0 <= (h.idx as int) < bound {
                lemma_spec_seal_prefix(nodes1, nodes2, h.idx as int);
            }
        },
        _ => {},
    }
}

/// Failure containment: a value whose tag is outside the recognized
/// widget tags always converts to a text leaf — a visible error node —
/// whatever the arena holds; no failure ever propagates to the caller.
pub proof fn lemma_unrecognized_becomes_leaf(nodes: Seq<Node>, v: DynValue)
    requires
        !(v is Widget),
    ensures
        spec_convert(nodes, v) is Text,
{
}

/// Builds the diagnostic leaf for a value outside the recognized
/// widget tags.
fn not_supported_leaf(v: &DynValue) -> (t: WidgetTree)
    ensures
        t.model() == not_supported_model(*v),
{
    let mut msg = String::from_str("not supported: ");
    let d = describe(v);
    msg.append(d.as_str());
    error_leaf(msg)
}

/// Converts an evaluated value into a sealed widget tree.  A widget
/// handle seals its arena node; every other tag yields a visible error
/// leaf, never a failure.
pub fn convert(arena: &Arena, v: &DynValue) -> (t: WidgetTree)
    requires
        arena.wf(),
    ensures
        t.model() == spec_convert(arena.nodes@, *v),
{
    match v {
        DynValue::Widget(h) => seal(arena, *h),
        _ => not_supported_leaf(v),
    }
}

/// Resolves a value to an in-arena widget handle, reading only
/// positions strictly below `bound`.  A non-widget value, or a handle
/// at or above the bound, is given a fresh error leaf node, so the
/// result always points at a node the caller may attach.
pub fn to_widget(arena: &mut Arena, v: &DynValue, bound: usize) -> (h: WidgetHandle)
    requires
        old(arena).wf(),
        bound <= old(arena).nodes@.len(),
    ensures
        final(arena).wf(),
        old(arena).nodes@.len() <= final(arena).nodes@.len(),
        final(arena).nodes@.subrange(0, old(arena).nodes@.len() as int) == old(arena).nodes@,
        h.idx < final(arena).nodes@.len(),
        spec_seal(final(arena).nodes@, h.idx as int) == spec_convert_at(
            old(arena).nodes@,
            bound as int,
            *v,
        ),
{
    match v {
        DynValue::Widget(wh) => {
            if wh.idx < bound {
                proof {
                    assert(arena.nodes@.subrange(0, old(arena).nodes@.len() as int)
                        =~= old(arena).nodes@);
                }
                *wh
            } else {
                let h = push_node(
                    arena,
                    Node::Text {
                        content: String::from_str("dangling widget handle"),
                        color: None,
                        size: None,
                        width: None,
                        height: None,
                    },
                );
                proof {
                    assert(spec_seal(arena.nodes@, h.idx as int) == dangling_model());
                }
                h
            }
        },
        _ => {
            let mut msg = String::from_str("not supported: ");
            let d = describe(v);
            msg.append(d.as_str());
            let h = push_node(
                arena,
                Node::Text { content: msg, color: None, size: None, width: None, height: None },
            );
            proof {
                assert(spec_seal(arena.nodes@, h.idx as int) == not_supported_model(*v));
            }
            h
        },
    }
}

} // verus!
