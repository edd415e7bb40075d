//! Colors, backgrounds and container styles, in the byte-channel
//! construction convention.

use vstd::prelude::*;

verus! {

/// A color as four byte channels.  The renderer's own normalized
/// representation is obtained from these bytes by the renderer's fixed
/// byte-to-normalized conversion, so byte values agree with it exactly.
#[derive(Clone, Copy, Debug, PartialEq, Eq)]
pub struct Color {
    pub r: u8,
    pub g: u8,
    pub b: u8,
    pub a: u8,
}

/// What a container paints behind its child.
#[derive(Clone, Copy, Debug, PartialEq, Eq)]
pub enum Background {
    Color(Color),
}

/// A style descriptor a container can carry.
#[derive(Clone, Copy, Debug, PartialEq, Eq)]
pub struct ContainerStyle {
    pub background: Option<Background>,
}

/// Builds a fully opaque color from three byte channels.
pub fn color_from_rgb8(r: u8, g: u8, b: u8) -> (c: Color)
    ensures
        c == (Color { r, g, b, a: 255u8 }),
{
    Color { r, g, b, a: 255 }
}

/// Builds a color from four byte channels.
pub fn color_from_rgba8(r: u8, g: u8, b: u8, a: u8) -> (c: Color)
    ensures
        c == (Color { r, g, b, a }),
{
    Color { r, g, b, a }
}

/// Wraps a color as a background attachment.
pub fn into_bg(color: Color) -> (r: Option<Background>)
    ensures
        r == Some(Background::Color(color)),
{
    Some(Background::Color(color))
}

/// The style that paints nothing.
pub fn default_container_style() -> (s: ContainerStyle)
    ensures
        s == (ContainerStyle { background: None::<Background> }),
{
    ContainerStyle { background: None }
}

/// Reads a style's background attachment.
pub fn style_background(s: &ContainerStyle) -> (r: Option<Background>)
    ensures
        r == s.background,
{
    s.background
}

/// Replaces a style's background attachment.
pub fn style_with_background(s: ContainerStyle, background: Option<Background>) -> (r: ContainerStyle)
    ensures
        r == (ContainerStyle { background }),
{
    ContainerStyle { background }
}

} // verus!
