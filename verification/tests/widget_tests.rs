use iced_loading_indicator::{Index, Palette, Rgba, State, Style, Widget, NUMBER_OF_CIRCLES};

#[test]
fn default_tick_duration_is_eighty_ms() {
    assert_eq!(Widget::DEFAULT_TICK_DURATION_MS, 80);
}

#[test]
fn fresh_state_starts_at_zero() {
    let state = State::new(1234);
    assert_eq!(state.index.0, 0);
    assert_eq!(state.last_tick_ms, 1234);
}

#[test]
fn late_tick_advances_and_schedules_full_duration() {
    let mut state = State { index: Index(0), last_tick_ms: 1000 };
    let next_wake = state.on_redraw_tick(1090, 80);
    assert_eq!(state.index.0, 1);
    assert_eq!(state.last_tick_ms, 1090);
    assert_eq!(next_wake, 1090 + 80);
}

#[test]
fn early_tick_keeps_state_and_schedules_remainder() {
    let mut state = State { index: Index(0), last_tick_ms: 1000 };
    let next_wake = state.on_redraw_tick(1030, 80);
    assert_eq!(state.index.0, 0);
    assert_eq!(state.last_tick_ms, 1000);
    assert_eq!(next_wake, 1030 + 50);
}

#[test]
fn tick_exactly_at_duration_does_not_advance() {
    let mut state = State { index: Index(4), last_tick_ms: 1000 };
    let next_wake = state.on_redraw_tick(1080, 80);
    assert_eq!(state.index.0, 4);
    assert_eq!(state.last_tick_ms, 1000);
    assert_eq!(next_wake, 1080);
}

#[test]
fn twelve_late_ticks_cycle_back_to_start() {
    let mut state = State { index: Index(3), last_tick_ms: 0 };
    let mut now: u64 = 0;
    for _ in 0..NUMBER_OF_CIRCLES {
        now += 81;
        state.on_redraw_tick(now, 80);
    }
    assert_eq!(state.index.0, 3);
}

#[test]
fn widget_builds_one_indicator_per_index() {
    let custom = Rgba { r: 667, g: 667, b: 1000, a: 1000 };
    let widget = Widget::new(200, Some(Style::CustomColor(custom)), true);
    assert_eq!(widget.size, 200);
    assert_eq!(widget.tick_duration_ms, Widget::DEFAULT_TICK_DURATION_MS);
    assert_eq!(widget.content.len(), NUMBER_OF_CIRCLES);
    for (i, indicator) in widget.content.iter().enumerate() {
        assert_eq!(indicator.index.0, i);
        assert_eq!(indicator.size, 200);
        assert!(indicator.lighter_inactive);
        assert!(matches!(indicator.style, Style::CustomColor(c) if c == custom));
    }
}

#[test]
fn widget_without_style_uses_the_default() {
    let widget = Widget::new(64, None, false);
    for indicator in widget.content.iter() {
        assert!(matches!(indicator.style, Style::TextColor));
        assert!(!indicator.lighter_inactive);
    }
}

#[test]
fn tick_duration_setter_keeps_everything_else() {
    let widget = Widget::new(64, None, false).tick_duration_ms(85);
    assert_eq!(widget.tick_duration_ms, 85);
    assert_eq!(widget.size, 64);
    assert_eq!(widget.content.len(), NUMBER_OF_CIRCLES);
}

#[test]
fn current_indicator_follows_the_state() {
    let widget = Widget::new(64, None, false);
    let mut state = State::new(0);
    let palette = Palette {
        text: Rgba { r: 0, g: 0, b: 0, a: 1000 },
        primary: Rgba { r: 0, g: 0, b: 1000, a: 1000 },
    };
    let first = widget.current_indicator(&state).dot_specs(&palette);
    assert_eq!(first[0].color.a, 1000);
    state.on_redraw_tick(100, 80);
    assert_eq!(state.index.0, 1);
    let second = widget.current_indicator(&state).dot_specs(&palette);
    assert_eq!(second[1].color.a, 1000);
    assert_eq!(second[0].color.a, 800);
}
