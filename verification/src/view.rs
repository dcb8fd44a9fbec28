//! Display decisions: reset countdown presentation and how gauges are drawn.

use vstd::prelude::*;
use crate::config::{Config, ResetDisplay, Style};
use crate::indicator::Level;
use crate::text::{decimal, decimal_writes_the_number, digits_value, push_char, push_decimal};
use crate::usage::{
    countdown_counts_whole_units, countdown_text, format_countdown, UsageSample, DAY, HOUR, MINUTE,
};

verus! {

/// Length of the session budget window, in seconds (5 hours).
pub const SESSION_WINDOW: i64 = 18_000;

/// Length of the weekly budget window, in seconds (7 days).
pub const WEEKLY_WINDOW: i64 = 604_800;

/// Within this many seconds of a reset the compact text turns amber and the glow appears.
pub const NEAR_RESET: i64 = 1_800;

/// Within this many seconds of a reset it is shown as imminent.
pub const IMMINENT_RESET: i64 = 300;

/// Time-to-reset of the budget that resets soonest, and the length of its window.
#[derive(Clone, Copy, Debug, PartialEq, Eq, Structural)]
pub struct ResetWindow {
    /// Seconds until the reset (never negative).
    pub remaining: i64,
    /// Length of that budget's window in seconds.
    pub window: i64,
}

/// The reset time of the budget that resets first (the session budget on a tie).
pub open spec fn soonest_reset<F>(sample: UsageSample<F>) -> int {
    if sample.session_reset <= sample.weekly_reset {
        sample.session_reset as int
    } else {
        sample.weekly_reset as int
    }
}

/// The window of the budget that resets first.
pub open spec fn soonest_window<F>(sample: UsageSample<F>) -> int {
    if sample.session_reset <= sample.weekly_reset {
        SESSION_WINDOW as int
    } else {
        WEEKLY_WINDOW as int
    }
}

/// Seconds from `now` until the soonest reset, or zero once it has passed.
pub open spec fn time_to_reset<F>(sample: UsageSample<F>, now: int) -> int {
    if soonest_reset(sample) - now > 0 {
        soonest_reset(sample) - now
    } else {
        0
    }
}

/// Whether the time to the soonest reset, seen from `now`, is a 64-bit number
/// (what `reset_window` needs).
pub fn soonest_reset_fits<F>(sample: &UsageSample<F>, now: i64) -> (fits: bool)
    ensures
        fits == (i64::MIN <= soonest_reset(*sample) - now <= i64::MAX),
{
    let reset = if sample.session_reset <= sample.weekly_reset {
        sample.session_reset
    } else {
        sample.weekly_reset
    };
    reset.checked_sub(now).is_some()
}

/// Seconds remaining and window length for the soonest-resetting budget.
pub fn reset_window<F>(sample: &UsageSample<F>, now: i64) -> (w: ResetWindow)
    requires
        i64::MIN <= soonest_reset(*sample) - now <= i64::MAX,
    ensures
        w.window == soonest_window(*sample),
        w.remaining == time_to_reset(*sample, now as int),
{
    let (reset, window) = if sample.session_reset <= sample.weekly_reset {
        (sample.session_reset, SESSION_WINDOW)
    } else {
        (sample.weekly_reset, WEEKLY_WINDOW)
    };
    let left = reset - now;
    let remaining = if left > 0 { left } else { 0 };
    ResetWindow { remaining, window }
}

/// The time to reset is exactly what is left until the sooner of the two reset
/// times, with no cap, and nothing once that time has come; the window is the
/// session's five hours when the session resets first (or at the same time),
/// else the week.
pub proof fn reset_window_counts_to_the_sooner_reset<F>(sample: UsageSample<F>, now: int)
    ensures
        ({
            let sooner = if sample.session_reset < sample.weekly_reset {
                sample.session_reset as int
            } else {
                sample.weekly_reset as int
            };
            &&& sooner > now ==> time_to_reset(sample, now) + now == sooner
            &&& sooner <= now ==> time_to_reset(sample, now) == 0
        }),
        soonest_window(sample) == (if sample.session_reset <= sample.weekly_reset {
            5 * 3600
        } else {
            7 * 24 * 3600
        }),
{
}

/// Reset countdowns come from the absolute reset times alone: records that
/// differ only in their budgets used or in when they were written count down
/// alike.
pub proof fn reset_countdown_ignores_record_time<F>(a: UsageSample<F>, b: UsageSample<F>, now: int)
    requires
        a.session_reset == b.session_reset,
        a.weekly_reset == b.weekly_reset,
    ensures
        time_to_reset(a, now) == time_to_reset(b, now),
        soonest_window(a) == soonest_window(b),
{
}

/// The countdown never runs backwards: later means no more time left, and
/// once the soonest reset has passed nothing is left.
pub proof fn reset_countdown_runs_down<F>(sample: UsageSample<F>, now: int, later: int)
    requires
        now <= later,
    ensures
        0 <= time_to_reset(sample, later) <= time_to_reset(sample, now),
        later >= soonest_reset(sample) ==> time_to_reset(sample, later) == 0,
{
}

/// Terse countdown text: `"soon"` within five minutes, minutes below half an
/// hour, whole days from a day on, whole hours otherwise.
pub open spec fn compact_text(remaining: int) -> Seq<char> {
    if remaining <= IMMINENT_RESET as int {
        seq!['s', 'o', 'o', 'n']
    } else if remaining < NEAR_RESET as int {
        decimal((remaining / MINUTE as int) as nat).push('m')
    } else if remaining >= DAY as int {
        decimal((remaining / DAY as int) as nat).push('d')
    } else {
        decimal((remaining / HOUR as int) as nat).push('h')
    }
}

/// Colour of the terse countdown: green when imminent, amber when near,
/// neutral (`None`) otherwise.
pub open spec fn compact_level(remaining: int) -> Option<Level> {
    if remaining <= IMMINENT_RESET as int {
        Some(Level::Green)
    } else if remaining < NEAR_RESET as int {
        Some(Level::Amber)
    } else {
        None
    }
}

/// Terse, proximity-coloured countdown: `2h`/`3d` (calm), `20m` (amber as it
/// nears), `soon` (green just before refresh).
pub fn compact_reset(remaining: i64) -> (shown: (String, Option<Level>))
    ensures
        shown.0@ == compact_text(remaining as int),
        shown.1 == compact_level(remaining as int),
{
    let mut text = String::new();
    if remaining <= IMMINENT_RESET {
        push_char(&mut text, 's');
        push_char(&mut text, 'o');
        push_char(&mut text, 'o');
        push_char(&mut text, 'n');
        assert(text@ =~= compact_text(remaining as int));
        (text, Some(Level::Green))
    } else if remaining < NEAR_RESET {
        push_decimal(&mut text, (remaining / MINUTE) as u64);
        push_char(&mut text, 'm');
        assert(text@ =~= compact_text(remaining as int));
        (text, Some(Level::Amber))
    } else if remaining >= DAY {
        push_decimal(&mut text, (remaining / DAY) as u64);
        push_char(&mut text, 'd');
        assert(text@ =~= compact_text(remaining as int));
        (text, None)
    } else {
        push_decimal(&mut text, (remaining / HOUR) as u64);
        push_char(&mut text, 'h');
        assert(text@ =~= compact_text(remaining as int));
        (text, None)
    }
}

/// The terse countdown reads `"soon"` exactly within five minutes of the reset
/// (in green); otherwise it writes the whole minutes left below half an hour
/// (in amber), the whole days left from a day on, and the whole hours left in
/// between (both neutral).
pub proof fn compact_reset_counts_whole_units(remaining: int)
    ensures
        (compact_text(remaining) == seq!['s', 'o', 'o', 'n']) <==> remaining <= 300,
        (compact_level(remaining) == Some(Level::Green)) <==> remaining <= 300,
        (compact_level(remaining) == Some(Level::Amber)) <==> 300 < remaining < 1800,
        remaining > 300 ==> {
            let t = compact_text(remaining);
            let n = digits_value(t.drop_last());
            &&& remaining < 1800 ==> t.last() == 'm' && n == remaining / 60
            &&& 1800 <= remaining < 86_400 ==> t.last() == 'h' && n == remaining / 3_600
            &&& remaining >= 86_400 ==> t.last() == 'd' && n == remaining / 86_400
        },
{
    if remaining > 300 {
        let t = compact_text(remaining);
        if remaining < 1800 {
            decimal_writes_the_number((remaining / 60) as nat);
            assert(t.drop_last() =~= decimal((remaining / 60) as nat));
        } else if remaining >= 86_400 {
            decimal_writes_the_number((remaining / 86_400) as nat);
            assert(t.drop_last() =~= decimal((remaining / 86_400) as nat));
        } else {
            decimal_writes_the_number((remaining / 3_600) as nat);
            assert(t.drop_last() =~= decimal((remaining / 3_600) as nat));
        }
        assert(seq!['s', 'o', 'o', 'n'].last() == 'n');
    }
}

/// The halo and the terse countdown agree on the colour as a reset nears: from
/// half an hour out there is no halo, and below that the halo takes the
/// countdown's colour (amber, then green within five minutes).
pub proof fn glow_agrees_with_compact_colour(remaining: int)
    ensures
        remaining >= 1800 ==> glow_band(remaining) is None,
        remaining < 1800 ==> glow_band(remaining) == compact_level(remaining) && glow_band(remaining) is Some,
{
}

/// Colour of the halo drawn behind the indicator as a reset approaches: none
/// from half an hour out, amber nearer, green when imminent.
pub open spec fn glow_band(remaining: int) -> Option<Level> {
    if remaining >= NEAR_RESET as int {
        None
    } else if remaining <= IMMINENT_RESET as int {
        Some(Level::Green)
    } else {
        Some(Level::Amber)
    }
}

pub fn glow_level(remaining: i64) -> (level: Option<Level>)
    ensures
        level == glow_band(remaining as int),
{
    if remaining >= NEAR_RESET {
        None
    } else if remaining <= IMMINENT_RESET {
        Some(Level::Green)
    } else {
        Some(Level::Amber)
    }
}

/// `"resets in "` followed by the countdown for `secs` seconds.
pub open spec fn reset_caption_text(secs: int) -> Seq<char> {
    seq!['r', 'e', 's', 'e', 't', 's', ' ', 'i', 'n', ' '] + countdown_text(secs)
}

/// The caption is `"resets in "` followed by the countdown for the very same
/// number of seconds; under an hour, but not yet due, it ends in whole minutes.
pub proof fn reset_caption_tells_the_countdown(secs: int)
    ensures
        reset_caption_text(secs) == seq!['r', 'e', 's', 'e', 't', 's', ' ', 'i', 'n', ' ']
            + countdown_text(secs),
        0 < secs < HOUR ==> {
            let c = reset_caption_text(secs);
            &&& c.last() == 'm'
            &&& digits_value(c.subrange(10, c.len() - 1)) == secs / MINUTE as int
        },
{
    if 0 < secs < HOUR {
        countdown_counts_whole_units(secs);
        let c = reset_caption_text(secs);
        let t = countdown_text(secs);
        assert(c.subrange(10, c.len() - 1) =~= t.drop_last());
    }
}

/// The reset caption, e.g. `"resets in 2h 14m"`.
pub fn reset_caption(secs: i64) -> (caption: String)
    ensures
        caption@ == reset_caption_text(secs as int),
{
    let mut caption = String::new();
    push_char(&mut caption, 'r');
    push_char(&mut caption, 'e');
    push_char(&mut caption, 's');
    push_char(&mut caption, 'e');
    push_char(&mut caption, 't');
    push_char(&mut caption, 's');
    push_char(&mut caption, ' ');
    push_char(&mut caption, 'i');
    push_char(&mut caption, 'n');
    push_char(&mut caption, ' ');
    let countdown = format_countdown(secs);
    let chars = crate::text::chars_of(countdown.as_str());
    let mut k: usize = 0;
    let ghost head = caption@;
    while k < chars.len()
        invariant
            k <= chars@.len(),
            chars@ == countdown@,
            caption@ == head + chars@.take(k as int),
        decreases chars@.len() - k,
    {
        push_char(&mut caption, chars[k]);
        assert(chars@.take(k + 1) =~= chars@.take(k as int).push(chars@[k as int]));
        k = k + 1;
    }
    assert(chars@.take(chars@.len() as int) =~= chars@);
    assert(caption@ =~= reset_caption_text(secs as int));
    caption
}

/// How the time to reset decorates the panel indicator.
#[derive(Clone, Copy, Debug, PartialEq, Eq, Structural)]
pub enum ResetDecoration {
    /// Nothing beside the indicator (ring modes draw their arcs inside the ring).
    Plain,
    /// `"resets in …"` beside the indicator.
    Text,
    /// The terse coloured countdown beside the indicator.
    Compact,
    /// A halo behind the indicator as the reset nears.
    Glow,
}

/// Ring styles render the ring-only modes themselves; on other styles those
/// modes fall back to the compact text so the setting is never a no-op.
pub fn reset_decoration(style: Style, mode: ResetDisplay) -> (d: ResetDecoration)
    ensures
        d == (match mode {
            ResetDisplay::Off => ResetDecoration::Plain,
            ResetDisplay::Text => ResetDecoration::Text,
            ResetDisplay::Compact => ResetDecoration::Compact,
            ResetDisplay::Glow => ResetDecoration::Glow,
            _ => if style is Ring || style is RingColor {
                ResetDecoration::Plain
            } else {
                ResetDecoration::Compact
            },
        }),
{
    match mode {
        ResetDisplay::Off => ResetDecoration::Plain,
        ResetDisplay::Text => ResetDecoration::Text,
        ResetDisplay::Compact => ResetDecoration::Compact,
        ResetDisplay::Glow => ResetDecoration::Glow,
        ResetDisplay::DualRing | ResetDisplay::Track => match style {
            Style::Ring | Style::RingColor => ResetDecoration::Plain,
            _ => ResetDecoration::Compact,
        },
    }
}

/// The widget a gauge is drawn with.
#[derive(Clone, Copy, Debug, PartialEq, Eq, Structural)]
pub enum GaugeShape {
    Dot,
    Bar,
    VerticalBar,
    Ring,
}

pub fn gauge_shape(style: Style) -> (shape: GaugeShape)
    ensures
        shape == (match style {
            Style::ColorDot => GaugeShape::Dot,
            Style::FillBar | Style::FillColor => GaugeShape::Bar,
            Style::VBar => GaugeShape::VerticalBar,
            Style::Ring | Style::RingColor => GaugeShape::Ring,
        }),
{
    match style {
        Style::ColorDot => GaugeShape::Dot,
        Style::FillBar | Style::FillColor => GaugeShape::Bar,
        Style::VBar => GaugeShape::VerticalBar,
        Style::Ring | Style::RingColor => GaugeShape::Ring,
    }
}

/// Whether the fill takes the threshold colours (green through amber to red)
/// rather than the neutral accent.
pub fn proximity_colored(style: Style) -> (colored: bool)
    ensures
        colored == (style is FillColor || style is RingColor),
{
    match style {
        Style::FillColor | Style::RingColor => true,
        _ => false,
    }
}

/// Optional layers of a ring gauge.
#[derive(Clone, Copy, Debug, PartialEq, Eq, Structural)]
pub struct RingLayers {
    /// A background arc that grows with the elapsed share of the reset window.
    pub time_track: bool,
    /// A thin inner arc for the elapsed share of the reset window.
    pub inner_arc: bool,
    /// The percentage drawn inside the ring.
    pub percent_inside: bool,
    /// The percentage drawn beside the ring.
    pub percent_beside: bool,
}

pub fn ring_layers<F>(cfg: &Config<F>, has_reset: bool) -> (layers: RingLayers)
    ensures
        layers.time_track == (cfg.reset_display is Track && has_reset),
        layers.inner_arc == (cfg.reset_display is DualRing && has_reset),
        layers.percent_inside == (cfg.show_percent && cfg.percent_inside_ring),
        layers.percent_beside == (cfg.show_percent && !cfg.percent_inside_ring),
{
    let track = match cfg.reset_display {
        ResetDisplay::Track => true,
        _ => false,
    };
    let dual = match cfg.reset_display {
        ResetDisplay::DualRing => true,
        _ => false,
    };
    let inside = cfg.show_percent && cfg.percent_inside_ring;
    RingLayers {
        time_track: track && has_reset,
        inner_arc: dual && has_reset,
        percent_inside: inside,
        percent_beside: cfg.show_percent && !inside,
    }
}

/// The "percent inside ring" setting only matters for ring styles showing a percentage.
pub fn offers_percent_inside_ring<F>(cfg: &Config<F>) -> (offered: bool)
    ensures
        offered == (cfg.show_percent && (cfg.style is Ring || cfg.style is RingColor)),
{
    cfg.show_percent && match cfg.style {
        Style::Ring | Style::RingColor => true,
        _ => false,
    }
}

/// Whole minutes of the staleness limit for the settings slider, at least one,
/// as the slider's 32-bit value.
pub fn stale_minutes(stale_after: u64) -> (mins: u32)
    ensures
        mins == (if stale_after / 60 >= 1 {
            stale_after / 60
        } else {
            1
        }) as u32,
{
    let m = stale_after / 60;
    let m = if m >= 1 { m } else { 1 };
    m as u32
}

} // verus!
