//! The application loop's reducer and view step.
//!
//! The loop owns the current script source.  Reload messages replace
//! the source wholesale, in arrival order; a view request renders the
//! latest evaluation outcome — a value on success, the evaluator's
//! message on failure — always into a visible tree.

use vstd::prelude::*;
use vstd::string::StringExecFns;

use crate::arena::{Arena, Node};
use crate::convert::{convert, spec_convert};
use crate::tree::{error_leaf, error_leaf_model, TreeModel, WidgetTree};
use crate::value::DynValue;

verus! {

/// The loop's state: the current script source, replaced wholesale on
/// every reload and never partially mutated.
#[derive(Debug, PartialEq)]
pub struct AppState {
    pub source: String,
}

/// A message the render loop reduces: the watched file changed and
/// this is its full new content.
#[derive(Debug, PartialEq)]
pub enum Message {
    NewCode(String),
}

impl Message {
    /// The script source the message carries.
    pub open spec fn code(self) -> Seq<char> {
        match self {
            Message::NewCode(c) => c@,
        }
    }
}

/// The initial state: the watched file's content at process start.
pub fn init_state(initial: String) -> (s: AppState)
    ensures
        s.source@ == initial@,
{
    AppState { source: initial }
}

/// Reduces one reload message: the stored source is replaced
/// wholesale, with no diffing and no coalescing.
pub fn update(state: &mut AppState, msg: Message)
    ensures
        final(state).source@ == msg.code(),
{
    match msg {
        Message::NewCode(code) => {
            state.source = code;
        },
    }
}

/// Reduces a batch of reload messages in arrival order.  Each message
/// replaces the source in turn, so afterwards the state reflects the
/// last message only; an empty batch leaves the source unchanged.
pub fn process_reloads(state: &mut AppState, msgs: &Vec<Message>)
    ensures
        msgs@.len() == 0 ==> final(state).source@ == old(state).source@,
        msgs@.len() > 0 ==> final(state).source@ == msgs@[msgs@.len() - 1].code(),
{
    let n = msgs.len();
    let mut i: usize = 0;
    while i < n
        invariant
            i <= n,
            n == msgs@.len(),
            i == 0 ==> state.source@ == old(state).source@,
            i > 0 ==> state.source@ == msgs@[i - 1].code(),
        decreases n - i,
    {
        match &msgs[i] {
            Message::NewCode(code) => {
                update(state, Message::NewCode(code.clone()));
            },
        }
        i += 1;
    }
}

/// What one view request shows for an evaluation outcome: the
/// converted value on success, a single error leaf carrying the
/// evaluator's message on failure.
pub open spec fn spec_render(nodes: Seq<Node>, outcome: Result<DynValue, String>) -> TreeModel {
    match outcome {
        Ok(v) => spec_convert(nodes, v),
        Err(e) => error_leaf_model("error evaluating: "@ + e@),
    }
}

/// Renders an evaluation outcome into the tree the view hands to the
/// renderer.  Evaluation errors become a single visible error leaf;
/// the loop keeps running either way.
pub fn render_outcome(arena: &Arena, outcome: &Result<DynValue, String>) -> (t: WidgetTree)
    requires
        arena.wf(),
    ensures
        t.model() == spec_render(arena.nodes@, *outcome),
{
    match outcome {
        Ok(v) => convert(arena, v),
        Err(e) => {
            let mut msg = String::from_str("error evaluating: ");
            msg.append(e.as_str());
            error_leaf(msg)
        },
    }
}

/// Rendering is a function of the arena and the outcome alone:
/// rendering the same outcome twice, with no reload in between,
/// yields structurally identical trees.
pub proof fn lemma_render_deterministic(
    nodes: Seq<Node>,
    outcome: Result<DynValue, String>,
    t1: WidgetTree,
    t2: WidgetTree,
)
    requires
        t1.model() == spec_render(nodes, outcome),
        t2.model() == spec_render(nodes, outcome),
    ensures
        t1.model() == t2.model(),
{
}

/// The window title the host shows.
pub fn title() -> (r: String)
    ensures
        r@ == "iced rhai example"@,
{
    String::from_str("iced rhai example")
}

} // verus!
