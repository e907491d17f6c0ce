//! How a title is to be drawn.

use vstd::prelude::*;

verus! {

/// A colour as red, green and blue.
#[derive(Clone, Copy, Debug, PartialEq, Eq, Structural)]
pub struct RGBColor(pub u8, pub u8, pub u8);

/// The style of a text: the name of the font, its size in pixels and its
/// colour. The layout reads none of it; it is kept for whoever draws the text.
#[derive(Clone, Debug, PartialEq, Eq)]
pub struct TextStyle {
    pub family: String,
    pub size: u32,
    pub color: RGBColor,
}

/// The title of a chart: its text and the style it is drawn in.
#[derive(Clone, Debug, PartialEq, Eq)]
pub struct Title {
    pub text: String,
    pub style: TextStyle,
}

} // verus!
