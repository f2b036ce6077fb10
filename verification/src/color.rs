//! Colors and coloring styles.
//!
//! Channel values are stored in thousandths of full intensity, so the alpha
//! steps the indicator uses (1.0, 0.8, 0.6, 0.4, 0.2, 0.1, 0.025) are all
//! exact. A GUI host converts these to its own floating-point color type.

use vstd::prelude::*;

verus! {

/// Full intensity of a color channel, in thousandths.
pub const CHANNEL_MILLI_MAX: u16 = 1000;

/// A color with red, green, blue and alpha channels, each in thousandths of
/// full intensity.
#[derive(Clone, Copy, Debug, PartialEq, Eq, Structural)]
pub struct Rgba {
    pub r: u16,
    pub g: u16,
    pub b: u16,
    pub a: u16,
}

/// `c` with its alpha channel replaced by `a`.
pub open spec fn spec_with_alpha(c: Rgba, a: u16) -> Rgba {
    Rgba { r: c.r, g: c.g, b: c.b, a }
}

impl Rgba {
    /// Every channel stays on the thousandths scale.
    pub open spec fn wf(self) -> bool {
        &&& self.r <= CHANNEL_MILLI_MAX
        &&& self.g <= CHANNEL_MILLI_MAX
        &&& self.b <= CHANNEL_MILLI_MAX
        &&& self.a <= CHANNEL_MILLI_MAX
    }

    /// Returns this color with its alpha channel replaced.
    pub fn with_alpha(self, a: u16) -> (r: Rgba)
        ensures
            r == spec_with_alpha(self, a),
    {
        Rgba { r: self.r, g: self.g, b: self.b, a }
    }
}

/// The two colors of the host theme's palette that style resolution reads.
#[derive(Clone, Copy, Debug, PartialEq, Eq, Structural)]
pub struct Palette {
    /// The theme's text color.
    pub text: Rgba,
    /// The theme's primary (accent) color.
    pub primary: Rgba,
}

/// The loading indicator's coloring style.
#[derive(Clone, Copy, Debug)]
pub enum Style {
    /// Based on the theme palette's text color.
    TextColor,
    /// Based on the theme palette's primary color.
    PrimaryColor,
    /// A custom, caller-provided color, used regardless of the theme.
    CustomColor(Rgba),
}

impl Default for Style {
    /// The default style follows the theme's text color.
    fn default() -> (r: Self)
        ensures
            r == Style::TextColor,
    {
        Style::TextColor
    }
}

/// The base color a style denotes under a given theme palette.
pub open spec fn spec_resolve_color(style: Style, palette: Palette) -> Rgba {
    match style {
        Style::TextColor => palette.text,
        Style::PrimaryColor => palette.primary,
        Style::CustomColor(c) => c,
    }
}

/// Resolves a coloring style against the current theme palette. Theme-based
/// styles follow whatever palette is handed in, so switching themes changes
/// the indicator's color without reconstructing it.
pub fn resolve_color(style: Style, palette: &Palette) -> (r: Rgba)
    ensures
        r == spec_resolve_color(style, *palette),
{
    match style {
        Style::TextColor => palette.text,
        Style::PrimaryColor => palette.primary,
        Style::CustomColor(c) => c,
    }
}

/// Style-resolution law: the theme-based styles pick up the palette's
/// respective colors, and a custom color resolves to the constructed color
/// no matter which palette is active.
pub proof fn lemma_style_resolution(p: Palette, q: Palette, c: Rgba)
    ensures
        spec_resolve_color(Style::TextColor, p) == p.text,
        spec_resolve_color(Style::PrimaryColor, p) == p.primary,
        spec_resolve_color(Style::CustomColor(c), p) == c,
        spec_resolve_color(Style::CustomColor(c), p) == spec_resolve_color(Style::CustomColor(c), q),
{
}

} // verus!
