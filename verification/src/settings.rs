//! Label/index mapping for the settings dropdowns.

use vstd::prelude::*;
use crate::config::{ResetDisplay, Scope, Style};

verus! {

pub const SCOPE_LABELS: [&'static str; 4] = ["Session (5h)", "Weekly (7d)", "Worst of both", "Both"];

pub const RESET_LABELS: [&'static str; 6] = ["Off", "Text", "Compact", "Glow", "Dual ring", "Track time"];

pub const STYLE_LABELS: [&'static str; 6] = [
    "Color dot",
    "Fill bar",
    "Fill color",
    "Ring",
    "Ring (color)",
    "Vertical bar",
];

/// Dropdown position of each scope.
pub open spec fn scope_position(s: Scope) -> nat {
    match s {
        Scope::Session => 0,
        Scope::Weekly => 1,
        Scope::Worst => 2,
        Scope::Both => 3,
    }
}

/// Scope selected by a dropdown position; anything unknown selects `Worst`.
pub open spec fn scope_at(i: nat) -> Scope {
    if i == 0 {
        Scope::Session
    } else if i == 1 {
        Scope::Weekly
    } else if i == 3 {
        Scope::Both
    } else {
        Scope::Worst
    }
}

pub fn scope_index(s: Scope) -> (i: usize)
    ensures
        i == scope_position(s),
{
    match s {
        Scope::Session => 0,
        Scope::Weekly => 1,
        Scope::Worst => 2,
        Scope::Both => 3,
    }
}

pub fn scope_from_index(i: usize) -> (s: Scope)
    ensures
        s == scope_at(i as nat),
{
    match i {
        0 => Scope::Session,
        1 => Scope::Weekly,
        3 => Scope::Both,
        _ => Scope::Worst,
    }
}

/// Dropdown position of each style.
pub open spec fn style_position(s: Style) -> nat {
    match s {
        Style::ColorDot => 0,
        Style::FillBar => 1,
        Style::FillColor => 2,
        Style::Ring => 3,
        Style::RingColor => 4,
        Style::VBar => 5,
    }
}

/// Style selected by a dropdown position; anything unknown selects `ColorDot`.
pub open spec fn style_at(i: nat) -> Style {
    if i == 1 {
        Style::FillBar
    } else if i == 2 {
        Style::FillColor
    } else if i == 3 {
        Style::Ring
    } else if i == 4 {
        Style::RingColor
    } else if i == 5 {
        Style::VBar
    } else {
        Style::ColorDot
    }
}

pub fn style_index(s: Style) -> (i: usize)
    ensures
        i == style_position(s),
{
    match s {
        Style::ColorDot => 0,
        Style::FillBar => 1,
        Style::FillColor => 2,
        Style::Ring => 3,
        Style::RingColor => 4,
        Style::VBar => 5,
    }
}

pub fn style_from_index(i: usize) -> (s: Style)
    ensures
        s == style_at(i as nat),
{
    match i {
        1 => Style::FillBar,
        2 => Style::FillColor,
        3 => Style::Ring,
        4 => Style::RingColor,
        5 => Style::VBar,
        _ => Style::ColorDot,
    }
}

/// Dropdown position of each reset display mode.
pub open spec fn reset_position(r: ResetDisplay) -> nat {
    match r {
        ResetDisplay::Off => 0,
        ResetDisplay::Text => 1,
        ResetDisplay::Compact => 2,
        ResetDisplay::Glow => 3,
        ResetDisplay::DualRing => 4,
        ResetDisplay::Track => 5,
    }
}

/// Reset display mode selected by a dropdown position; anything unknown selects `Off`.
pub open spec fn reset_at(i: nat) -> ResetDisplay {
    if i == 1 {
        ResetDisplay::Text
    } else if i == 2 {
        ResetDisplay::Compact
    } else if i == 3 {
        ResetDisplay::Glow
    } else if i == 4 {
        ResetDisplay::DualRing
    } else if i == 5 {
        ResetDisplay::Track
    } else {
        ResetDisplay::Off
    }
}

pub fn reset_index(r: ResetDisplay) -> (i: usize)
    ensures
        i == reset_position(r),
{
    match r {
        ResetDisplay::Off => 0,
        ResetDisplay::Text => 1,
        ResetDisplay::Compact => 2,
        ResetDisplay::Glow => 3,
        ResetDisplay::DualRing => 4,
        ResetDisplay::Track => 5,
    }
}

pub fn reset_from_index(i: usize) -> (r: ResetDisplay)
    ensures
        r == reset_at(i as nat),
{
    match i {
        1 => ResetDisplay::Text,
        2 => ResetDisplay::Compact,
        3 => ResetDisplay::Glow,
        4 => ResetDisplay::DualRing,
        5 => ResetDisplay::Track,
        _ => ResetDisplay::Off,
    }
}

/// Whether a style can show a reset display mode: the dual ring and the time
/// track are drawn inside a ring, so only the ring styles take them.
pub open spec fn reset_shown_by(style: Style, mode: ResetDisplay) -> bool {
    (mode is DualRing || mode is Track) ==> (style is Ring || style is RingColor)
}

/// Both ring styles show every reset display mode; every style shows the modes
/// drawn beside or around the indicator (off, text, compact, glow); the styles
/// that are not rings show neither the dual ring nor the time track.
pub proof fn ring_styles_show_every_reset_mode(style: Style, mode: ResetDisplay)
    ensures
        reset_shown_by(Style::Ring, mode),
        reset_shown_by(Style::RingColor, mode),
        reset_shown_by(Style::Ring, mode) == reset_shown_by(Style::RingColor, mode),
        (mode is Off || mode is Text || mode is Compact || mode is Glow) ==> reset_shown_by(style, mode),
        !(style is Ring || style is RingColor) ==> !reset_shown_by(style, ResetDisplay::DualRing)
            && !reset_shown_by(style, ResetDisplay::Track),
{
}

pub fn reset_valid(style: Style, mode: ResetDisplay) -> (valid: bool)
    ensures
        valid == reset_shown_by(style, mode),
{
    match mode {
        ResetDisplay::DualRing | ResetDisplay::Track => match style {
            Style::Ring | Style::RingColor => true,
            _ => false,
        },
        _ => true,
    }
}

/// Every scope has its own label: its position lies inside `SCOPE_LABELS`, and
/// choosing that position in the dropdown gives the same scope back.
pub proof fn scope_index_round_trip(s: Scope)
    ensures
        scope_position(s) < SCOPE_LABELS@.len(),
        scope_at(scope_position(s)) == s,
{
}

/// Every position of the scope dropdown selects the scope shown there, and a
/// position past the end selects the default, `Worst`.
pub proof fn scope_positions_cover_labels(i: nat)
    ensures
        i < SCOPE_LABELS@.len() ==> scope_position(scope_at(i)) == i,
        i >= SCOPE_LABELS@.len() ==> scope_at(i) == Scope::Worst,
{
}

/// Distinct scopes sit at distinct dropdown positions.
pub proof fn scope_positions_distinct(a: Scope, b: Scope)
    ensures
        scope_position(a) == scope_position(b) ==> a == b,
{
    scope_index_round_trip(a);
    scope_index_round_trip(b);
}

/// Every style has its own label: its position lies inside `STYLE_LABELS`, and
/// choosing that position in the dropdown gives the same style back.
pub proof fn style_index_round_trip(s: Style)
    ensures
        style_position(s) < STYLE_LABELS@.len(),
        style_at(style_position(s)) == s,
{
}

/// Every position of the style dropdown selects the style shown there, and a
/// position past the end selects the default, `ColorDot`.
pub proof fn style_positions_cover_labels(i: nat)
    ensures
        i < STYLE_LABELS@.len() ==> style_position(style_at(i)) == i,
        i >= STYLE_LABELS@.len() ==> style_at(i) == Style::ColorDot,
{
}

/// Distinct styles sit at distinct dropdown positions.
pub proof fn style_positions_distinct(a: Style, b: Style)
    ensures
        style_position(a) == style_position(b) ==> a == b,
{
    style_index_round_trip(a);
    style_index_round_trip(b);
}

/// Every reset display mode has its own label: its position lies inside
/// `RESET_LABELS`, and choosing that position gives the same mode back.
pub proof fn reset_index_round_trip(r: ResetDisplay)
    ensures
        reset_position(r) < RESET_LABELS@.len(),
        reset_at(reset_position(r)) == r,
{
}

/// Every position of the reset dropdown selects the mode shown there, and a
/// position past the end selects the default, `Off`.
pub proof fn reset_positions_cover_labels(i: nat)
    ensures
        i < RESET_LABELS@.len() ==> reset_position(reset_at(i)) == i,
        i >= RESET_LABELS@.len() ==> reset_at(i) == ResetDisplay::Off,
{
}

/// Distinct reset display modes sit at distinct dropdown positions.
pub proof fn reset_positions_distinct(a: ResetDisplay, b: ResetDisplay)
    ensures
        reset_position(a) == reset_position(b) ==> a == b,
{
    reset_index_round_trip(a);
    reset_index_round_trip(b);
}

} // verus!
