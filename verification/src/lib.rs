//! A verified bridge between a dynamic scripting runtime and a host UI tree.
//!
//! Scripts build widgets through a fixed vocabulary of host capabilities.
//! The script side works with dynamically tagged values and shareable
//! widget handles; the renderer side requires a uniquely owned, immutable
//! widget tree.  This crate models that boundary: numeric coercion across
//! the tagged value kinds, an arena of in-progress widget nodes addressed
//! by handles, a seal step that walks the arena into an owned tree, a
//! converter that degrades unrecognized values to visible error leaves,
//! and the message loop that replaces the script source on reload events.

pub mod app_loop;
pub mod arena;
pub mod builders;
pub mod color;
pub mod convert;
pub mod digits;
pub mod length;
pub mod num;
pub mod registry;
pub mod tree;
pub mod value;
