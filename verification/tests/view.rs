use claude_usage::config::{Config, ResetDisplay, Scope, Style, Thresholds};
use claude_usage::indicator::Level;
use claude_usage::usage::UsageSample;
use claude_usage::view::{
    compact_reset, gauge_shape, glow_level, offers_percent_inside_ring, proximity_colored,
    reset_caption, reset_decoration, reset_window, ring_layers, stale_minutes, GaugeShape,
    ResetDecoration, SESSION_WINDOW, WEEKLY_WINDOW,
};

fn cfg(style: Style, reset_display: ResetDisplay, show_percent: bool, inside: bool) -> Config<f32> {
    Config {
        scope: Scope::Worst,
        style,
        show_percent,
        percent_inside_ring: inside,
        reset_display,
        thresholds: Thresholds { amber: 0.5, red: 0.8 },
        stale_after: 600,
        history_path: None,
    }
}

#[test]
fn reset_info_uses_soonest_budget_window() {
    let now = 2000;
    // session resets sooner (45m) → uses the 5h window.
    let s = UsageSample {
        session: 0.0f32,
        weekly: 0.0,
        session_reset: now + 60 * 45,
        weekly_reset: now + 60 * 60 * 24 * 4,
        ts: 0,
    };
    let w = reset_window(&s, now);
    assert_eq!(w.remaining, 60 * 45);
    assert_eq!(w.window, SESSION_WINDOW);
    // 45m remaining of a 5h window → 1 - 2700/18000 = 0.85 elapsed.
    let elapsed = (1.0 - w.remaining as f32 / w.window as f32).clamp(0.0, 1.0);
    assert!((elapsed - 0.85).abs() < 0.001);
}

#[test]
fn reset_window_weekly_and_past() {
    let s = UsageSample { session: 0.0f32, weekly: 0.0, session_reset: 900, weekly_reset: 500, ts: 7 };
    let w = reset_window(&s, 100);
    assert_eq!(w.remaining, 400);
    assert_eq!(w.window, WEEKLY_WINDOW);
    let w = reset_window(&s, 10_000);
    assert_eq!(w.remaining, 0);
    let tie = UsageSample { session: 0.0f32, weekly: 0.0, session_reset: 500, weekly_reset: 500, ts: 7 };
    assert_eq!(reset_window(&tie, 0).window, SESSION_WINDOW);
}

#[test]
fn compact_reset_buckets() {
    assert_eq!(compact_reset(3 * 60).0, "soon");
    assert_eq!(compact_reset(20 * 60).0, "20m");
    assert_eq!(compact_reset(3 * 3600).0, "3h");
    assert_eq!(compact_reset(2 * 86_400).0, "2d");
}

#[test]
fn compact_reset_colours_and_edges() {
    assert_eq!(compact_reset(300), ("soon".to_string(), Some(Level::Green)));
    assert_eq!(compact_reset(-5).0, "soon");
    assert_eq!(compact_reset(301), ("5m".to_string(), Some(Level::Amber)));
    assert_eq!(compact_reset(1799), ("29m".to_string(), Some(Level::Amber)));
    assert_eq!(compact_reset(1800), ("0h".to_string(), None));
    assert_eq!(compact_reset(86_399), ("23h".to_string(), None));
    assert_eq!(compact_reset(86_400), ("1d".to_string(), None));
}

#[test]
fn glow_levels() {
    assert_eq!(glow_level(1800), None);
    assert_eq!(glow_level(1799), Some(Level::Amber));
    assert_eq!(glow_level(301), Some(Level::Amber));
    assert_eq!(glow_level(300), Some(Level::Green));
    assert_eq!(glow_level(-1), Some(Level::Green));
}

#[test]
fn reset_captions() {
    assert_eq!(reset_caption(60 * 60 * 2 + 60 * 14), "resets in 2h 14m");
    assert_eq!(reset_caption(0), "resets in now");
    assert_eq!(reset_caption(-100), "resets in now");
}

#[test]
fn reset_decorations() {
    assert_eq!(reset_decoration(Style::ColorDot, ResetDisplay::Off), ResetDecoration::Plain);
    assert_eq!(reset_decoration(Style::FillBar, ResetDisplay::Text), ResetDecoration::Text);
    assert_eq!(reset_decoration(Style::Ring, ResetDisplay::Compact), ResetDecoration::Compact);
    assert_eq!(reset_decoration(Style::Ring, ResetDisplay::Glow), ResetDecoration::Glow);
    assert_eq!(reset_decoration(Style::Ring, ResetDisplay::DualRing), ResetDecoration::Plain);
    assert_eq!(reset_decoration(Style::RingColor, ResetDisplay::Track), ResetDecoration::Plain);
    assert_eq!(reset_decoration(Style::ColorDot, ResetDisplay::DualRing), ResetDecoration::Compact);
    assert_eq!(reset_decoration(Style::VBar, ResetDisplay::Track), ResetDecoration::Compact);
}

#[test]
fn gauge_shapes_and_colouring() {
    assert_eq!(gauge_shape(Style::ColorDot), GaugeShape::Dot);
    assert_eq!(gauge_shape(Style::FillBar), GaugeShape::Bar);
    assert_eq!(gauge_shape(Style::FillColor), GaugeShape::Bar);
    assert_eq!(gauge_shape(Style::VBar), GaugeShape::VerticalBar);
    assert_eq!(gauge_shape(Style::Ring), GaugeShape::Ring);
    assert_eq!(gauge_shape(Style::RingColor), GaugeShape::Ring);
    assert!(proximity_colored(Style::FillColor));
    assert!(proximity_colored(Style::RingColor));
    assert!(!proximity_colored(Style::FillBar));
    assert!(!proximity_colored(Style::Ring));
}

#[test]
fn ring_layer_choices() {
    let l = ring_layers(&cfg(Style::Ring, ResetDisplay::Track, true, true), true);
    assert!(l.time_track && !l.inner_arc && l.percent_inside && !l.percent_beside);
    let l = ring_layers(&cfg(Style::Ring, ResetDisplay::Track, true, false), false);
    assert!(!l.time_track && !l.inner_arc && !l.percent_inside && l.percent_beside);
    let l = ring_layers(&cfg(Style::Ring, ResetDisplay::DualRing, false, true), true);
    assert!(!l.time_track && l.inner_arc && !l.percent_inside && !l.percent_beside);
}

#[test]
fn inside_ring_setting_only_for_rings_with_percent() {
    assert!(offers_percent_inside_ring(&cfg(Style::Ring, ResetDisplay::Off, true, true)));
    assert!(offers_percent_inside_ring(&cfg(Style::RingColor, ResetDisplay::Off, true, false)));
    assert!(!offers_percent_inside_ring(&cfg(Style::Ring, ResetDisplay::Off, false, true)));
    assert!(!offers_percent_inside_ring(&cfg(Style::FillBar, ResetDisplay::Off, true, true)));
}

#[test]
fn stale_minutes_for_slider() {
    assert_eq!(stale_minutes(600), 10);
    assert_eq!(stale_minutes(0), 1);
    assert_eq!(stale_minutes(119), 1);
    assert_eq!(stale_minutes(1800), 30);
    assert_eq!(stale_minutes(u64::MAX), (u64::MAX / 60) as u32);
}
