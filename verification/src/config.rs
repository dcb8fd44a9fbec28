use vstd::prelude::*;

verus! {

/// Which usage budget(s) the panel indicator reflects.
#[derive(Clone, Copy, Debug, PartialEq, Eq, Structural)]
pub enum Scope {
    Session,
    Weekly,
    Worst,
    Both,
}

/// How each gauge is drawn on the panel.
#[derive(Clone, Copy, Debug, PartialEq, Eq, Structural)]
pub enum Style {
    ColorDot,
    FillBar,
    FillColor,
    Ring,
    RingColor,
    VBar,
}

/// How time-to-reset is surfaced on the panel (the popup always shows it).
#[derive(Clone, Copy, Debug, PartialEq, Eq, Structural)]
pub enum ResetDisplay {
    Off,
    Text,
    Compact,
    Glow,
    DualRing,
    Track,
}

/// Usage fractions at which a gauge turns amber and red.
#[derive(Clone, Copy, Debug)]
pub struct Thresholds<F> {
    pub amber: F,
    pub red: F,
}

/// The applet's persisted settings. The threshold fractions are carried as
/// they were configured; the decisions made here rest on the other fields.
#[derive(Clone, Debug)]
pub struct Config<F> {
    pub scope: Scope,
    pub style: Style,
    pub show_percent: bool,
    pub percent_inside_ring: bool,
    pub reset_display: ResetDisplay,
    pub thresholds: Thresholds<F>,
    /// Seconds after which a usage record counts as stale.
    pub stale_after: u64,
    /// Overrides the default location of the usage history.
    pub history_path: Option<String>,
}

/// The settings a fresh install starts with, around the given colour thresholds:
/// the worst of both budgets as a colour dot, no percentage (inside the ring
/// once shown on one), no reset display, stale after ten minutes, and the
/// default history location.
pub fn default_config<F>(thresholds: Thresholds<F>) -> (cfg: Config<F>)
    ensures
        cfg == (Config {
            scope: Scope::Worst,
            style: Style::ColorDot,
            show_percent: false,
            percent_inside_ring: true,
            reset_display: ResetDisplay::Off,
            thresholds,
            stale_after: 600,
            history_path: None,
        }),
{
    Config {
        scope: Scope::Worst,
        style: Style::ColorDot,
        show_percent: false,
        percent_inside_ring: true,
        reset_display: ResetDisplay::Off,
        thresholds,
        stale_after: 600,
        history_path: None,
    }
}

} // verus!
