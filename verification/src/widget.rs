//! The self-animating wrapper: it keeps the animation state, advances the
//! active index when a redraw tick arrives late enough, and tells the host
//! when to wake it up next. A GUI host delivers the ticks, draws the
//! selected frame and arms the requested wake-up.

use vstd::prelude::*;

use crate::indicator::LoadingIndicator;
use crate::{spec_next_index, Index, Style, NUMBER_OF_CIRCLES};

verus! {

/// A mounted widget's animation state: the active index and the moment of
/// the last advance, in milliseconds on the host's monotonic clock.
#[derive(Clone, Copy, Debug)]
pub struct State {
    /// The active index.
    pub index: Index,
    /// When the index last advanced (or when the state was created).
    pub last_tick_ms: u64,
}

impl State {
    /// The active index denotes one of the dots.
    pub open spec fn wf(self) -> bool {
        self.index.wf()
    }

    /// Fresh state for a newly mounted widget: the first dot is active and
    /// the clock starts now.
    pub fn new(now_ms: u64) -> (s: Self)
        ensures
            s.index.0 == 0,
            s.last_tick_ms == now_ms,
            s.wf(),
    {
        State { index: Index::new(), last_tick_ms: now_ms }
    }

    /// Handles one redraw tick carrying the current time and returns the
    /// absolute time at which the host should deliver the next one. If more
    /// than the tick duration has elapsed since the last advance, the index
    /// advances one step, the advance is stamped with `now_ms`, and the
    /// next wake-up is a full tick duration away; otherwise nothing changes
    /// and the next wake-up is the remainder of the running tick, so a
    /// single tick never advances the index twice and no drift accumulates.
    pub fn on_redraw_tick(&mut self, now_ms: u64, tick_duration_ms: u64) -> (next_wake_ms: u64)
        requires
            old(self).wf(),
            old(self).last_tick_ms <= now_ms,
            now_ms + tick_duration_ms <= u64::MAX,
        ensures
            final(self).wf(),
            now_ms - old(self).last_tick_ms > tick_duration_ms ==> {
                &&& final(self).index.0 == spec_next_index(old(self).index.0 as int)
                &&& final(self).last_tick_ms == now_ms
                &&& next_wake_ms == now_ms + tick_duration_ms
            },
            now_ms - old(self).last_tick_ms <= tick_duration_ms ==> {
                &&& *final(self) == *old(self)
                &&& next_wake_ms == now_ms + (tick_duration_ms - (now_ms - old(self).last_tick_ms))
            },
    {
        let elapsed = now_ms - self.last_tick_ms;
        if elapsed > tick_duration_ms {
            self.index.tick();
            self.last_tick_ms = now_ms;
            now_ms + tick_duration_ms
        } else {
            let remaining = tick_duration_ms - elapsed;
            now_ms + remaining
        }
    }
}

/// The style a widget gives its indicators: the chosen one, or the default
/// when the caller passed none.
pub open spec fn spec_chosen_style(style: Option<Style>) -> Style {
    match style {
        Option::Some(s) => s,
        Option::None => Style::TextColor,
    }
}

/// The self-animating loading-indicator widget. It holds one pre-built
/// indicator frame per possible index value and the configured tick
/// duration; on every redraw tick its [`State`] decides whether the active
/// index advances and when the next redraw is due, and the frame matching
/// the current index is the one to draw.
pub struct Widget {
    /// The indicator's size in pixels.
    pub size: u32,
    /// Minimum time between index advances, in milliseconds.
    pub tick_duration_ms: u64,
    /// One pre-built indicator per possible active index, in index order.
    pub content: Vec<LoadingIndicator>,
}

impl Widget {
    /// The tick duration (minimum time between index advances, in
    /// milliseconds) used when none is specified.
    pub const DEFAULT_TICK_DURATION_MS: u64 = 80;

    /// There is exactly one pre-built indicator per dot, each carrying its
    /// own position as active index.
    pub open spec fn wf(self) -> bool {
        &&& self.content@.len() == NUMBER_OF_CIRCLES
        &&& forall|i: int| 0 <= i < NUMBER_OF_CIRCLES ==> (#[trigger] self.content@[i]).index.0
            == i
    }

    /// Builds the widget: one indicator per possible active index, all of
    /// the given size, with the chosen style (or the default when `style`
    /// is `None`) and the given inactive-alpha choice, at the default tick
    /// duration.
    pub fn new(size: u32, style: Option<Style>, lighter_inactive: bool) -> (w: Self)
        ensures
            w.wf(),
            w.size == size,
            w.tick_duration_ms == Widget::DEFAULT_TICK_DURATION_MS,
            forall|i: int| 0 <= i < NUMBER_OF_CIRCLES ==> #[trigger] w.content@[i]
                == (LoadingIndicator {
                size,
                index: Index(i as usize),
                style: spec_chosen_style(style),
                lighter_inactive,
            }),
    {
        let chosen = match style {
            Option::Some(s) => s,
            Option::None => Style::default(),
        };
        let mut content: Vec<LoadingIndicator> = Vec::new();
        let mut i: usize = 0;
        while i < NUMBER_OF_CIRCLES
            invariant
                i <= NUMBER_OF_CIRCLES,
                content@.len() == i,
                chosen == spec_chosen_style(style),
                forall|j: int| 0 <= j < i ==> #[trigger] content@[j] == (LoadingIndicator {
                    size,
                    index: Index(j as usize),
                    style: spec_chosen_style(style),
                    lighter_inactive,
                }),
            decreases NUMBER_OF_CIRCLES - i,
        {
            content.push(
                LoadingIndicator::new(size, Index(i)).style(chosen).lighter_inactive(
                    lighter_inactive,
                ),
            );
            i = i + 1;
        }
        Widget { size, tick_duration_ms: Widget::DEFAULT_TICK_DURATION_MS, content }
    }

    /// Returns this widget with the tick duration (the animation speed, in
    /// milliseconds) replaced; everything else stays as it was.
    pub fn tick_duration_ms(self, value: u64) -> (w: Self)
        ensures
            w.size == self.size,
            w.tick_duration_ms == value,
            w.content@ == self.content@,
    {
        Widget { tick_duration_ms: value, ..self }
    }

    /// The pre-built indicator frame that a given animation state selects
    /// for drawing.
    pub fn current_indicator(&self, state: &State) -> (r: &LoadingIndicator)
        requires
            self.wf(),
            state.wf(),
        ensures
            *r == self.content@[state.index.0 as int],
    {
        &self.content[state.index.0]
    }
}

} // verus!
