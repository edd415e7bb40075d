//! Sizing specifiers for widgets.

use vstd::prelude::*;

verus! {

/// How much room a widget takes along one axis: a closed enumeration,
/// not an arbitrary number.
#[derive(Clone, Copy, Debug, PartialEq, Eq)]
pub enum Length {
    /// Take all the room that is left.
    Fill,
    /// Take as little room as the content allows.
    Shrink,
    /// Take a weighted share of the room that is left.
    FillPortion(u16),
    /// Take a fixed number of units.
    Units(u16),
}

/// The length that fills the available room.
pub fn length_fill() -> (r: Length)
    ensures
        r == Length::Fill,
{
    Length::Fill
}

/// The length that shrinks to the content.
pub fn length_shrink() -> (r: Length)
    ensures
        r == Length::Shrink,
{
    Length::Shrink
}

} // verus!
