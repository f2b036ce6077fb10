//! An animated loading indicator: a ring of dots, one fully lit with a short
//! fading trail behind it, rotating by advancing the active dot on a fixed
//! cadence.
//!
//! This crate holds the verified core: the wraparound index counter, the
//! per-dot opacity falloff, the style-to-color resolution and the
//! self-rescheduling tick logic. A GUI host drives it by delivering redraw
//! ticks and drawing the dot specifications it computes.

use vstd::prelude::*;

mod color;
mod indicator;
mod widget;

pub use color::{
    lemma_style_resolution, resolve_color, spec_resolve_color, spec_with_alpha, Palette, Rgba,
    Style, CHANNEL_MILLI_MAX,
};
pub use indicator::{
    dot_angle_deg, lemma_opacity_falloff, opacity_milli, spec_dot_angle_deg, spec_opacity_milli,
    DotSpec, LoadingIndicator,
};
pub use widget::{spec_chosen_style, State, Widget};

verus! {

/// The number of dots from which the loading indicator is made up.
pub const NUMBER_OF_CIRCLES: usize = 12;

/// The dot that sits `distance` steps behind `index` on the ring, i.e.
/// `(index - distance) mod NUMBER_OF_CIRCLES`.
pub open spec fn spec_index_offset(index: int, distance: int) -> int {
    (index - distance + NUMBER_OF_CIRCLES) % (NUMBER_OF_CIRCLES as int)
}

/// The index that one advancing tick yields.
pub open spec fn spec_next_index(i: int) -> int {
    (i + 1) % (NUMBER_OF_CIRCLES as int)
}

/// The index reached after `n` advancing ticks starting from `i`.
pub open spec fn spec_tick_n(i: int, n: nat) -> int
    decreases n,
{
    if n == 0 {
        i
    } else {
        spec_next_index(spec_tick_n(i, (n - 1) as nat))
    }
}

/// Tracks the loading indicator's active (fully opaque) dot.
#[derive(Clone, Copy, Debug)]
pub struct Index(pub usize);

impl Index {
    /// An index is valid when it denotes one of the dots.
    pub open spec fn wf(self) -> bool {
        self.0 < NUMBER_OF_CIRCLES
    }

    /// Returns an [`Index`] with its internal counter set to zero.
    pub fn new() -> (r: Self)
        ensures
            r.0 == 0,
            r.wf(),
    {
        Index(0)
    }

    /// Advances the counter by one step, wrapping back to zero after the
    /// last valid value.
    pub fn tick(&mut self)
        requires
            old(self).wf(),
        ensures
            final(self).wf(),
            final(self).0 == spec_next_index(old(self).0 as int),
    {
        if self.0 == NUMBER_OF_CIRCLES - 1 {
            self.0 = 0;
        } else {
            self.0 = self.0 + 1;
        }
    }
}

impl Default for Index {
    /// The default index denotes the first dot.
    fn default() -> (r: Self)
        ensures
            r.0 == 0,
            r.wf(),
    {
        Index(0)
    }
}

/// Computes the index of the dot `distance` steps behind `index`, with
/// wraparound. Both arguments must denote valid dots: anything else is a
/// programming error, which callers must rule out up front.
pub fn index_offset(index: usize, distance: usize) -> (r: usize)
    requires
        index < NUMBER_OF_CIRCLES,
        distance < NUMBER_OF_CIRCLES,
    ensures
        r < NUMBER_OF_CIRCLES,
        r == spec_index_offset(index as int, distance as int),
{
    if index >= distance {
        index - distance
    } else {
        (NUMBER_OF_CIRCLES + index) - distance
    }
}

/// After `n` advancing ticks the index is the start shifted by `n`, modulo
/// the number of dots.
pub proof fn lemma_tick_n_shifts(i: int, n: nat)
    requires
        0 <= i < NUMBER_OF_CIRCLES,
    ensures
        spec_tick_n(i, n) == (i + n) % (NUMBER_OF_CIRCLES as int),
    decreases n,
{
    if n > 0 {
        lemma_tick_n_shifts(i, (n - 1) as nat);
        vstd::arithmetic::div_mod::lemma_add_mod_noop(
            i + (n - 1),
            1,
            NUMBER_OF_CIRCLES as int,
        );
    } else {
        vstd::arithmetic::div_mod::lemma_small_mod(i as nat, NUMBER_OF_CIRCLES as nat);
    }
}

/// Full-cycle law: twelve consecutive advancing ticks return the index to
/// its starting value.
pub proof fn lemma_full_cycle(i: int)
    requires
        0 <= i < NUMBER_OF_CIRCLES,
    ensures
        spec_tick_n(i, NUMBER_OF_CIRCLES as nat) == i,
{
    lemma_tick_n_shifts(i, NUMBER_OF_CIRCLES as nat);
    vstd::arithmetic::div_mod::lemma_mod_sub_multiples_vanish(i, NUMBER_OF_CIRCLES as int);
    vstd::arithmetic::div_mod::lemma_small_mod(i as nat, NUMBER_OF_CIRCLES as nat);
}

} // verus!
