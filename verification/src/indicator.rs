//! One frame of the indicator: per-dot opacity falloff, angular placement
//! and the resolved fill color of every dot.

use vstd::prelude::*;

use crate::color::{resolve_color, spec_resolve_color, spec_with_alpha, Palette, Rgba, Style};
use crate::{index_offset, spec_index_offset, Index, NUMBER_OF_CIRCLES};

verus! {

/// Per-dot opacity, in thousandths, by circular distance behind the active
/// dot: the active dot is fully opaque, the four dots behind it fade out
/// step by step, and every other dot sits at a low inactive floor — lower
/// still when `lighter_inactive` is set, which suits dark backgrounds.
pub open spec fn spec_opacity_milli(distance: int, lighter_inactive: bool) -> u16 {
    if distance == 0 {
        1000u16
    } else if distance == 1 {
        800u16
    } else if distance == 2 {
        600u16
    } else if distance == 3 {
        400u16
    } else if distance == 4 {
        200u16
    } else if lighter_inactive {
        25u16
    } else {
        100u16
    }
}

/// Computes the opacity (in thousandths) of the dot `distance` steps behind
/// the active one.
pub fn opacity_milli(distance: usize, lighter_inactive: bool) -> (r: u16)
    ensures
        r == spec_opacity_milli(distance as int, lighter_inactive),
{
    if distance == 0 {
        1000
    } else if distance == 1 {
        800
    } else if distance == 2 {
        600
    } else if distance == 3 {
        400
    } else if distance == 4 {
        200
    } else if lighter_inactive {
        25
    } else {
        100
    }
}

/// Opacity-falloff law: the active dot is fully opaque; the four dots
/// behind it have strictly decreasing opacities of 800, 600, 400 and 200
/// thousandths; every other position sits at the inactive floor of 100
/// thousandths, or 25 when `lighter_inactive` is set.
pub proof fn lemma_opacity_falloff(lighter_inactive: bool)
    ensures
        spec_opacity_milli(0, lighter_inactive) == 1000,
        spec_opacity_milli(1, lighter_inactive) == 800,
        spec_opacity_milli(2, lighter_inactive) == 600,
        spec_opacity_milli(3, lighter_inactive) == 400,
        spec_opacity_milli(4, lighter_inactive) == 200,
        forall|d: int| 0 <= d < 4 ==> #[trigger] spec_opacity_milli(
            d + 1,
            lighter_inactive,
        ) < spec_opacity_milli(d, lighter_inactive),
        forall|d: int| 5 <= d < NUMBER_OF_CIRCLES ==> #[trigger] spec_opacity_milli(
            d,
            lighter_inactive,
        ) == (if lighter_inactive {
            25u16
        } else {
            100u16
        }),
{
}

/// The angular step between two neighboring dots, in degrees: a full turn
/// divided evenly among the dots.
pub open spec fn spec_dot_angle_deg(i: int) -> int {
    i * (360int / (NUMBER_OF_CIRCLES as int))
}

/// Computes dot `i`'s rotation, in degrees, from the reference point
/// directly above the ring center.
pub fn dot_angle_deg(i: usize) -> (r: u16)
    requires
        i < NUMBER_OF_CIRCLES,
    ensures
        r == spec_dot_angle_deg(i as int),
        r < 360,
{
    let step: usize = 360 / NUMBER_OF_CIRCLES;
    assert(step == 30);
    (step * i) as u16
}

/// One dot of a rendered frame: how far to rotate from the reference point
/// above the ring center, and what color to fill with (alpha already
/// applied).
#[derive(Clone, Copy, Debug, PartialEq, Eq, Structural)]
pub struct DotSpec {
    /// Rotation from the reference point, in degrees.
    pub angle_deg: u16,
    /// The fill color.
    pub color: Rgba,
}

/// A stateless description of one indicator frame: given a size, an active
/// index, a style and the inactive-alpha flag, it determines the color and
/// placement of every dot. The same inputs always yield the same dots; a
/// GUI host turns them into drawing commands.
#[derive(Clone, Copy, Debug)]
pub struct LoadingIndicator {
    /// The indicator's size: the pixel diameter of the square it is drawn
    /// in.
    pub size: u32,
    /// The active index.
    pub index: Index,
    /// The coloring style.
    pub style: Style,
    /// Whether to use the smaller inactive alpha (25 instead of 100
    /// thousandths) for dots far from the active one.
    pub lighter_inactive: bool,
}

impl LoadingIndicator {
    /// The active index denotes one of the dots.
    pub open spec fn wf(self) -> bool {
        self.index.wf()
    }

    /// The dot the indicator draws at ring position `i`: rotated `i` angle
    /// steps, filled with the resolved base color at the opacity of `i`'s
    /// circular distance behind the active index.
    pub open spec fn spec_dot(self, palette: Palette, i: int) -> DotSpec {
        DotSpec {
            angle_deg: spec_dot_angle_deg(i) as u16,
            color: spec_with_alpha(
                spec_resolve_color(self.style, palette),
                spec_opacity_milli(
                    spec_index_offset(self.index.0 as int, i),
                    self.lighter_inactive,
                ),
            ),
        }
    }

    /// Returns an indicator of the given size with the given active index,
    /// the default coloring style and the regular inactive alpha.
    pub fn new(size: u32, index: Index) -> (r: Self)
        ensures
            r == (LoadingIndicator { size, index, style: Style::TextColor, lighter_inactive: false }),
    {
        LoadingIndicator { size, index, style: Style::default(), lighter_inactive: false }
    }

    /// Returns an indicator of the given size, starting at index zero, with
    /// the default coloring style and the regular inactive alpha.
    pub fn with_size(size: u32) -> (r: Self)
        ensures
            r == (LoadingIndicator {
                size,
                index: Index(0),
                style: Style::TextColor,
                lighter_inactive: false,
            }),
    {
        Self::new(size, Index(0))
    }

    /// Returns this indicator with the given coloring style.
    pub fn style(self, style: Style) -> (r: Self)
        ensures
            r == (LoadingIndicator { style, ..self }),
    {
        Self { style, ..self }
    }

    /// Returns this indicator with the inactive-alpha choice set. For
    /// `false` the floor is 100 thousandths, for `true` it is 25; the
    /// latter comes out nicer on darker backgrounds.
    pub fn lighter_inactive(self, value: bool) -> (r: Self)
        ensures
            r == (LoadingIndicator { lighter_inactive: value, ..self }),
    {
        Self { lighter_inactive: value, ..self }
    }

    /// Computes the full frame: one dot per ring position, each placed and
    /// colored as [`Self::spec_dot`] states.
    pub fn dot_specs(&self, palette: &Palette) -> (r: Vec<DotSpec>)
        requires
            self.wf(),
        ensures
            r@.len() == NUMBER_OF_CIRCLES,
            forall|i: int| 0 <= i < NUMBER_OF_CIRCLES ==> r@[i] == self.spec_dot(*palette, i),
            spec_resolve_color(self.style, *palette).wf() ==> forall|i: int|
                0 <= i < NUMBER_OF_CIRCLES ==> (#[trigger] r@[i]).color.wf(),
    {
        let base = resolve_color(self.style, palette);
        let mut dots: Vec<DotSpec> = Vec::new();
        let mut i: usize = 0;
        while i < NUMBER_OF_CIRCLES
            invariant
                self.wf(),
                i <= NUMBER_OF_CIRCLES,
                dots@.len() == i,
                base == spec_resolve_color(self.style, *palette),
                forall|j: int| 0 <= j < i ==> dots@[j] == self.spec_dot(*palette, j),
            decreases NUMBER_OF_CIRCLES - i,
        {
            let distance = index_offset(self.index.0, i);
            let alpha = opacity_milli(distance, self.lighter_inactive);
            let angle = dot_angle_deg(i);
            dots.push(DotSpec { angle_deg: angle, color: base.with_alpha(alpha) });
            i = i + 1;
        }
        dots
    }
}

} // verus!
