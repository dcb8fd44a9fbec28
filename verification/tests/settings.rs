use claude_usage::config::{ResetDisplay, Scope, Style};
use claude_usage::settings::{
    reset_from_index, reset_index, reset_valid, scope_from_index, scope_index, style_from_index, style_index,
    RESET_LABELS, SCOPE_LABELS, STYLE_LABELS,
};

#[test]
fn scope_round_trips_every_variant() {
    for s in [Scope::Session, Scope::Weekly, Scope::Worst, Scope::Both] {
        assert_eq!(scope_from_index(scope_index(s)), s);
    }
}

#[test]
fn style_round_trips_every_variant() {
    for s in [
        Style::ColorDot,
        Style::FillBar,
        Style::FillColor,
        Style::Ring,
        Style::RingColor,
        Style::VBar,
    ] {
        assert_eq!(style_from_index(style_index(s)), s);
    }
}

#[test]
fn scope_indices_are_distinct_and_in_range() {
    assert_eq!(scope_index(Scope::Session), 0);
    assert_eq!(scope_index(Scope::Weekly), 1);
    assert_eq!(scope_index(Scope::Worst), 2);
    assert_eq!(scope_index(Scope::Both), 3);
}

#[test]
fn style_indices_are_distinct_and_in_range() {
    assert_eq!(style_index(Style::ColorDot), 0);
    assert_eq!(style_index(Style::FillBar), 1);
    assert_eq!(style_index(Style::FillColor), 2);
    assert_eq!(style_index(Style::Ring), 3);
    assert_eq!(style_index(Style::RingColor), 4);
    assert_eq!(style_index(Style::VBar), 5);
}

#[test]
fn reset_round_trips_every_variant() {
    for r in [
        ResetDisplay::Off,
        ResetDisplay::Text,
        ResetDisplay::Compact,
        ResetDisplay::Glow,
        ResetDisplay::DualRing,
        ResetDisplay::Track,
    ] {
        assert_eq!(reset_from_index(reset_index(r)), r);
    }
}

#[test]
fn label_array_lengths() {
    assert_eq!(SCOPE_LABELS.len(), 4);
    assert_eq!(STYLE_LABELS.len(), 6);
    assert_eq!(RESET_LABELS.len(), 6);
}

#[test]
fn every_label_position_selects_its_variant() {
    for i in 0..SCOPE_LABELS.len() {
        assert_eq!(scope_index(scope_from_index(i)), i);
    }
    for i in 0..STYLE_LABELS.len() {
        assert_eq!(style_index(style_from_index(i)), i);
    }
    for i in 0..RESET_LABELS.len() {
        assert_eq!(reset_index(reset_from_index(i)), i);
    }
}

#[test]
fn unknown_positions_select_defaults() {
    assert_eq!(scope_from_index(4), Scope::Worst);
    assert_eq!(scope_from_index(usize::MAX), Scope::Worst);
    assert_eq!(style_from_index(6), Style::ColorDot);
    assert_eq!(style_from_index(99), Style::ColorDot);
    assert_eq!(reset_from_index(6), ResetDisplay::Off);
    assert_eq!(reset_from_index(1000), ResetDisplay::Off);
}

#[test]
fn labels_name_the_variants() {
    assert_eq!(SCOPE_LABELS[scope_index(Scope::Both)], "Both");
    assert_eq!(STYLE_LABELS[style_index(Style::VBar)], "Vertical bar");
    assert_eq!(RESET_LABELS[reset_index(ResetDisplay::Off)], "Off");
    assert_eq!(RESET_LABELS[reset_index(ResetDisplay::Track)], "Track time");
}

#[test]
fn ring_only_reset_modes() {
    assert!(reset_valid(Style::Ring, ResetDisplay::DualRing));
    assert!(reset_valid(Style::RingColor, ResetDisplay::Track));
    assert!(!reset_valid(Style::FillBar, ResetDisplay::DualRing));
    assert!(!reset_valid(Style::ColorDot, ResetDisplay::Track));
    assert!(reset_valid(Style::VBar, ResetDisplay::Glow));
    assert!(reset_valid(Style::FillColor, ResetDisplay::Off));
}
