use claude_usage::usage::{first_decoded, latest_lines};
use claude_usage::applet::{popup_content, PopupAction, PopupContent, PopupKind, PopupState, Setting};
use claude_usage::config::{Config, ResetDisplay, Scope, Style, Thresholds};

fn cfg() -> Config<f32> {
    Config {
        scope: Scope::Worst,
        style: Style::ColorDot,
        show_percent: false,
        percent_inside_ring: true,
        reset_display: ResetDisplay::Off,
        thresholds: Thresholds { amber: 0.5, red: 0.8 },
        stale_after: 600,
        history_path: None,
    }
}

#[test]
fn popup_opens_and_closes() {
    let mut p: PopupState<u32> = PopupState::new();
    assert!(matches!(p.toggle_popup(Some(7)), PopupAction::Open));
    assert_eq!(p.popup, Some(7));
    assert_eq!(p.kind, PopupKind::Info);
    assert!(matches!(p.toggle_popup(Some(8)), PopupAction::Close(7)));
    assert_eq!(p.popup, None);
}

#[test]
fn popup_without_panel_window_does_nothing() {
    let mut p: PopupState<u32> = PopupState::new();
    assert!(matches!(p.toggle_popup(None), PopupAction::Nothing));
    assert!(matches!(p.toggle_settings(None), PopupAction::Nothing));
    assert_eq!(p.popup, None);
    assert_eq!(p.kind, PopupKind::Info);
}

#[test]
fn settings_switch_in_place_then_close() {
    let mut p: PopupState<u32> = PopupState::new();
    p.toggle_popup(Some(1));
    assert!(matches!(p.toggle_settings(Some(2)), PopupAction::Nothing));
    assert_eq!(p.popup, Some(1));
    assert_eq!(p.kind, PopupKind::Settings);
    p.show_info();
    assert_eq!(p.kind, PopupKind::Info);
    assert_eq!(p.popup, Some(1));
    p.toggle_settings(Some(2));
    assert!(matches!(p.toggle_settings(Some(3)), PopupAction::Close(1)));
    assert_eq!(p.popup, None);
}

#[test]
fn settings_open_fresh_popup() {
    let mut p: PopupState<u32> = PopupState::new();
    assert!(matches!(p.toggle_settings(Some(5)), PopupAction::Open));
    assert_eq!(p.popup, Some(5));
    assert_eq!(p.kind, PopupKind::Settings);
}

#[test]
fn compositor_close_resets_to_info() {
    let mut p: PopupState<u32> = PopupState::new();
    p.toggle_settings(Some(5));
    p.popup_closed(false);
    assert_eq!(p.popup, Some(5));
    assert_eq!(p.kind, PopupKind::Settings);
    p.popup_closed(true);
    assert_eq!(p.popup, None);
    assert_eq!(p.kind, PopupKind::Info);
}

#[test]
fn popup_contents() {
    assert_eq!(popup_content(PopupKind::Settings, false), PopupContent::Settings);
    assert_eq!(popup_content(PopupKind::Info, true), PopupContent::Details);
    assert_eq!(popup_content(PopupKind::Info, false), PopupContent::NoData);
}

#[test]
fn settings_changes_apply() {
    let mut c = cfg();
    assert!(!c.apply(Setting::Scope(Scope::Both)));
    assert_eq!(c.scope, Scope::Both);
    assert!(!c.apply(Setting::Style(Style::Ring)));
    assert_eq!(c.style, Style::Ring);
    assert!(!c.apply(Setting::ShowPercent(true)));
    assert!(c.show_percent);
    assert!(!c.apply(Setting::PercentInsideRing(false)));
    assert!(!c.percent_inside_ring);
    assert!(!c.apply(Setting::ResetDisplay(ResetDisplay::Glow)));
    assert_eq!(c.reset_display, ResetDisplay::Glow);
    assert!(!c.apply(Setting::StaleAfterMins(15)));
    assert_eq!(c.stale_after, 900);
    assert_eq!(c.thresholds.amber, 0.5);
}

#[test]
fn history_path_setting_trims_and_clears() {
    let mut c = cfg();
    assert!(c.apply(Setting::HistoryPath("  /x/y.jsonl \n".to_string())));
    assert_eq!(c.history_path.as_deref(), Some("/x/y.jsonl"));
    assert!(c.apply(Setting::HistoryPath("   ".to_string())));
    assert_eq!(c.history_path, None);
    assert_eq!(c.scope, Scope::Worst);
}

#[test]
fn style_change_drops_reset_mode_it_cannot_show() {
    let mut c = cfg();
    c.apply(Setting::Style(Style::Ring));
    c.apply(Setting::ResetDisplay(ResetDisplay::DualRing));
    c.apply(Setting::Style(Style::RingColor));
    assert_eq!(c.reset_display, ResetDisplay::DualRing);
    c.apply(Setting::Style(Style::FillBar));
    assert_eq!(c.style, Style::FillBar);
    assert_eq!(c.reset_display, ResetDisplay::Off);
    c.apply(Setting::ResetDisplay(ResetDisplay::Track));
    c.apply(Setting::Style(Style::VBar));
    assert_eq!(c.reset_display, ResetDisplay::Off);
    c.apply(Setting::ResetDisplay(ResetDisplay::Glow));
    c.apply(Setting::Style(Style::ColorDot));
    assert_eq!(c.reset_display, ResetDisplay::Glow);
}

#[test]
fn first_decodable_line_wins() {
    let lines = latest_lines("1\n2\nx\n\n");
    assert_eq!(first_decoded(&lines, |l: &String| l.parse::<u32>().ok()), Some(2));
    assert_eq!(first_decoded(&lines, |l: &String| l.parse::<u32>().ok().filter(|v| *v == 1)), Some(1));
    assert_eq!(first_decoded(&lines, |_: &String| None::<u32>), None);
    assert_eq!(first_decoded(&Vec::new(), |l: &String| l.parse::<u32>().ok()), None);
}
