//! The host capability registry: the fixed vocabulary of named
//! operations the host exposes into the scripting environment.
//!
//! Each entry maps a stable name to a native operation and its
//! declared parameter arity.  The registry and the converter
//! communicate only through the dynamic value tags, so adding a
//! capability never requires touching the converter.

use vstd::prelude::*;
use vstd::string::StringExecFns;

verus! {

/// One named operation of the host vocabulary.
#[derive(Clone, Copy, Debug, PartialEq, Eq)]
pub enum Capability {
    /// Coerce a number to 8 unsigned bits.
    ToU8,
    /// Coerce a number to 16 unsigned bits.
    ToU16,
    /// Resolve a value to a widget node.
    IntoElement,
    /// Build a color from three normalized channels.
    Rgb,
    /// Build a color from three byte channels.
    Rgb8,
    /// Build a color from four normalized channels.
    Rgba,
    /// Build a color from four byte channels.
    Rgba8,
    /// Wrap a color as a background attachment.
    IntoBg,
    /// The length that fills the available room.
    LenFill,
    /// The length that shrinks to the content.
    LenShrink,
    /// A weighted fill length.
    LenPortion,
    /// A fixed-unit length.
    LenAbsolute,
    /// Create a text leaf.
    NewText,
    /// Set a text leaf's color.
    TextColor,
    /// Set a text leaf's font size.
    TextSize,
    /// Set a text leaf's width.
    TextWidth,
    /// Set a text leaf's height.
    TextHeight,
    /// Create a row of children.
    NewRow,
    /// Create a column of children.
    NewCol,
    /// Create a spacer sized along both axes.
    NewSpace,
    /// Create a spacer sized along the horizontal axis.
    NewSpaceW,
    /// Create a spacer sized along the vertical axis.
    NewSpaceH,
    /// Create a container around one child.
    NewContainer,
    /// Attach a style to a container.
    StyleContainer,
    /// The style that paints nothing.
    DefaultContainerStyle,
    /// Read a style's background attachment.
    BackgroundGet,
    /// Replace a style's background attachment.
    BackgroundSet,
}

/// The stable script-visible name of a capability.
pub open spec fn name_spec(c: Capability) -> Seq<char> {
    match c {
        Capability::ToU8 => "to_u8"@,
        Capability::ToU16 => "to_u16"@,
        Capability::IntoElement => "into_element"@,
        Capability::Rgb => "rgb"@,
        Capability::Rgb8 => "rgb8"@,
        Capability::Rgba => "rgba"@,
        Capability::Rgba8 => "rgba8"@,
        Capability::IntoBg => "into_bg"@,
        Capability::LenFill => "len_fill"@,
        Capability::LenShrink => "len_shrink"@,
        Capability::LenPortion => "len_portion"@,
        Capability::LenAbsolute => "len_absolute"@,
        Capability::NewText => "new_text"@,
        Capability::TextColor => "color"@,
        Capability::TextSize => "size"@,
        Capability::TextWidth => "width"@,
        Capability::TextHeight => "height"@,
        Capability::NewRow => "new_row"@,
        Capability::NewCol => "new_col"@,
        Capability::NewSpace => "new_space"@,
        Capability::NewSpaceW => "new_space_w"@,
        Capability::NewSpaceH => "new_space_h"@,
        Capability::NewContainer => "new_container"@,
        Capability::StyleContainer => "style"@,
        Capability::DefaultContainerStyle => "default_container_style"@,
        Capability::BackgroundGet => "background"@,
        Capability::BackgroundSet => "background"@,
    }
}

/// The declared parameter arity of a capability.
pub open spec fn arity_spec(c: Capability) -> int {
    match c {
        Capability::ToU8 => 1,
        Capability::ToU16 => 1,
        Capability::IntoElement => 1,
        Capability::Rgb => 3,
        Capability::Rgb8 => 3,
        Capability::Rgba => 4,
        Capability::Rgba8 => 4,
        Capability::IntoBg => 1,
        Capability::LenFill => 0,
        Capability::LenShrink => 0,
        Capability::LenPortion => 1,
        Capability::LenAbsolute => 1,
        Capability::NewText => 1,
        Capability::TextColor => 2,
        Capability::TextSize => 2,
        Capability::TextWidth => 2,
        Capability::TextHeight => 2,
        Capability::NewRow => 1,
        Capability::NewCol => 1,
        Capability::NewSpace => 2,
        Capability::NewSpaceW => 1,
        Capability::NewSpaceH => 1,
        Capability::NewContainer => 1,
        Capability::StyleContainer => 2,
        Capability::DefaultContainerStyle => 0,
        Capability::BackgroundGet => 1,
        Capability::BackgroundSet => 2,
    }
}

/// The whole vocabulary, in registration order.
pub open spec fn all_capabilities() -> Seq<Capability> {
    seq![
        Capability::ToU8,
        Capability::ToU16,
        Capability::IntoElement,
        Capability::Rgb,
        Capability::Rgb8,
        Capability::Rgba,
        Capability::Rgba8,
        Capability::IntoBg,
        Capability::LenFill,
        Capability::LenShrink,
        Capability::LenPortion,
        Capability::LenAbsolute,
        Capability::NewText,
        Capability::TextColor,
        Capability::TextSize,
        Capability::TextWidth,
        Capability::TextHeight,
        Capability::NewRow,
        Capability::NewCol,
        Capability::NewSpace,
        Capability::NewSpaceW,
        Capability::NewSpaceH,
        Capability::NewContainer,
        Capability::StyleContainer,
        Capability::DefaultContainerStyle,
        Capability::BackgroundGet,
        Capability::BackgroundSet,
    ]
}

/// The script-visible name of a capability.
pub fn capability_name(c: Capability) -> (r: String)
    ensures
        r@ == name_spec(c),
{
    match c {
        Capability::ToU8 => String::from_str("to_u8"),
        Capability::ToU16 => String::from_str("to_u16"),
        Capability::IntoElement => String::from_str("into_element"),
        Capability::Rgb => String::from_str("rgb"),
        Capability::Rgb8 => String::from_str("rgb8"),
        Capability::Rgba => String::from_str("rgba"),
        Capability::Rgba8 => String::from_str("rgba8"),
        Capability::IntoBg => String::from_str("into_bg"),
        Capability::LenFill => String::from_str("len_fill"),
        Capability::LenShrink => String::from_str("len_shrink"),
        Capability::LenPortion => String::from_str("len_portion"),
        Capability::LenAbsolute => String::from_str("len_absolute"),
        Capability::NewText => String::from_str("new_text"),
        Capability::TextColor => String::from_str("color"),
        Capability::TextSize => String::from_str("size"),
        Capability::TextWidth => String::from_str("width"),
        Capability::TextHeight => String::from_str("height"),
        Capability::NewRow => String::from_str("new_row"),
        Capability::NewCol => String::from_str("new_col"),
        Capability::NewSpace => String::from_str("new_space"),
        Capability::NewSpaceW => String::from_str("new_space_w"),
        Capability::NewSpaceH => String::from_str("new_space_h"),
        Capability::NewContainer => String::from_str("new_container"),
        Capability::StyleContainer => String::from_str("style"),
        Capability::DefaultContainerStyle => String::from_str("default_container_style"),
        Capability::BackgroundGet => String::from_str("background"),
        Capability::BackgroundSet => String::from_str("background"),
    }
}

/// The declared arity of a capability.
pub fn capability_arity(c: Capability) -> (n: usize)
    ensures
        n as int == arity_spec(c),
{
    match c {
        Capability::ToU8 => 1,
        Capability::ToU16 => 1,
        Capability::IntoElement => 1,
        Capability::Rgb => 3,
        Capability::Rgb8 => 3,
        Capability::Rgba => 4,
        Capability::Rgba8 => 4,
        Capability::IntoBg => 1,
        Capability::LenFill => 0,
        Capability::LenShrink => 0,
        Capability::LenPortion => 1,
        Capability::LenAbsolute => 1,
        Capability::NewText => 1,
        Capability::TextColor => 2,
        Capability::TextSize => 2,
        Capability::TextWidth => 2,
        Capability::TextHeight => 2,
        Capability::NewRow => 1,
        Capability::NewCol => 1,
        Capability::NewSpace => 2,
        Capability::NewSpaceW => 1,
        Capability::NewSpaceH => 1,
        Capability::NewContainer => 1,
        Capability::StyleContainer => 2,
        Capability::DefaultContainerStyle => 0,
        Capability::BackgroundGet => 1,
        Capability::BackgroundSet => 2,
    }
}

/// One registry row: a capability under its stable name with its
/// declared arity.
#[derive(Debug, PartialEq)]
pub struct CapEntry {
    pub cap: Capability,
    pub name: String,
    pub arity: usize,
}

/// A registry row is consistent with the vocabulary.
pub open spec fn entry_wf(e: CapEntry) -> bool {
    e.name@ == name_spec(e.cap) && e.arity as int == arity_spec(e.cap)
}

/// Builds one registry row.
fn entry(c: Capability) -> (e: CapEntry)
    ensures
        e.cap == c,
        entry_wf(e),
{
    let name = capability_name(c);
    let arity = capability_arity(c);
    CapEntry { cap: c, name, arity }
}

/// Builds the whole registry, one consistent row per capability, in
/// registration order.  The host hands this to the scripting
/// environment once at startup.
pub fn registry() -> (r: Vec<CapEntry>)
    ensures
        r@.len() == all_capabilities().len(),
        forall|i: int|
            0 <= i < r@.len() ==> (#[trigger] r@[i]).cap == all_capabilities()[i] && entry_wf(
                r@[i],
            ),
{
    let mut r: Vec<CapEntry> = Vec::new();
    r.push(entry(Capability::ToU8));
    r.push(entry(Capability::ToU16));
    r.push(entry(Capability::IntoElement));
    r.push(entry(Capability::Rgb));
    r.push(entry(Capability::Rgb8));
    r.push(entry(Capability::Rgba));
    r.push(entry(Capability::Rgba8));
    r.push(entry(Capability::IntoBg));
    r.push(entry(Capability::LenFill));
    r.push(entry(Capability::LenShrink));
    r.push(entry(Capability::LenPortion));
    r.push(entry(Capability::LenAbsolute));
    r.push(entry(Capability::NewText));
    r.push(entry(Capability::TextColor));
    r.push(entry(Capability::TextSize));
    r.push(entry(Capability::TextWidth));
    r.push(entry(Capability::TextHeight));
    r.push(entry(Capability::NewRow));
    r.push(entry(Capability::NewCol));
    r.push(entry(Capability::NewSpace));
    r.push(entry(Capability::NewSpaceW));
    r.push(entry(Capability::NewSpaceH));
    r.push(entry(Capability::NewContainer));
    r.push(entry(Capability::StyleContainer));
    r.push(entry(Capability::DefaultContainerStyle));
    r.push(entry(Capability::BackgroundGet));
    r.push(entry(Capability::BackgroundSet));
    r
}

} // verus!
