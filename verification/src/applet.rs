//! The applet's reactions to its messages: which popup is shown, and how each
//! settings change alters the configuration.

use vstd::prelude::*;
use crate::config::{Config, ResetDisplay, Scope, Style};
use crate::settings::{reset_shown_by, reset_valid};
use crate::text::{trim, trim_text};

verus! {

/// Which content the popup surface is showing.
#[derive(Clone, Copy, Debug, PartialEq, Eq, Structural)]
pub enum PopupKind {
    Info,
    Settings,
}

/// The popup window, if one is open (identified by `W`), and what it shows.
#[derive(Clone, Copy, Debug)]
pub struct PopupState<W> {
    pub popup: Option<W>,
    pub kind: PopupKind,
}

/// What the surrounding event loop has to do with the popup surface.
#[derive(Clone, Copy, Debug)]
pub enum PopupAction<W> {
    Nothing,
    /// Destroy this popup window.
    Close(W),
    /// Create the popup window that was just recorded as open.
    Open,
}

/// Left click on the panel button: an open popup closes; otherwise a new info
/// popup opens with the id `fresh`, when the panel could provide one.
pub open spec fn popup_toggled<W>(s: PopupState<W>, fresh: Option<W>) -> (PopupState<W>, PopupAction<W>) {
    match s.popup {
        Some(id) => (PopupState { popup: None, kind: s.kind }, PopupAction::Close(id)),
        None => match fresh {
            Some(id) => (PopupState { popup: Some(id), kind: PopupKind::Info }, PopupAction::Open),
            None => (s, PopupAction::Nothing),
        },
    }
}

/// Right click or the settings link: open settings close; an open info popup
/// switches to settings in place; otherwise a new settings popup opens with the
/// id `fresh`, when the panel could provide one.
pub open spec fn settings_toggled<W>(s: PopupState<W>, fresh: Option<W>) -> (PopupState<W>, PopupAction<W>) {
    match s.popup {
        Some(id) => if s.kind == PopupKind::Settings {
            (PopupState { popup: None, kind: PopupKind::Settings }, PopupAction::Close(id))
        } else {
            (PopupState { popup: Some(id), kind: PopupKind::Settings }, PopupAction::Nothing)
        },
        None => match fresh {
            Some(id) => (PopupState { popup: Some(id), kind: PopupKind::Settings }, PopupAction::Open),
            None => (s, PopupAction::Nothing),
        },
    }
}

/// The compositor closed a popup; `is_open_popup` tells whether it is the one
/// recorded as open. If so nothing is open any more and the next popup starts
/// on the info view; a notification for another window changes nothing.
pub open spec fn popup_closed_by_compositor<W>(s: PopupState<W>, is_open_popup: bool) -> PopupState<W> {
    if is_open_popup {
        PopupState { popup: None, kind: PopupKind::Info }
    } else {
        s
    }
}

impl<W> PopupState<W> {
    /// No popup open; the next one opens on the info view.
    pub fn new() -> (state: Self)
        ensures
            state.popup is None,
            state.kind == PopupKind::Info,
    {
        PopupState { popup: None, kind: PopupKind::Info }
    }

    /// Left click on the panel button (see `popup_toggled`).
    pub fn toggle_popup(&mut self, fresh: Option<W>) -> (action: PopupAction<W>)
        ensures
            (*final(self), action) == popup_toggled(*old(self), fresh),
    {
        match self.popup.take() {
            Some(id) => PopupAction::Close(id),
            None => match fresh {
                Some(id) => {
                    self.popup = Some(id);
                    self.kind = PopupKind::Info;
                    PopupAction::Open
                },
                None => PopupAction::Nothing,
            },
        }
    }

    /// Right click or the settings link (see `settings_toggled`).
    pub fn toggle_settings(&mut self, fresh: Option<W>) -> (action: PopupAction<W>)
        ensures
            (*final(self), action) == settings_toggled(*old(self), fresh),
    {
        match self.popup.take() {
            Some(id) => {
                match self.kind {
                    PopupKind::Settings => PopupAction::Close(id),
                    PopupKind::Info => {
                        self.popup = Some(id);
                        self.kind = PopupKind::Settings;
                        PopupAction::Nothing
                    },
                }
            },
            None => match fresh {
                Some(id) => {
                    self.popup = Some(id);
                    self.kind = PopupKind::Settings;
                    PopupAction::Open
                },
                None => PopupAction::Nothing,
            },
        }
    }

    /// The back button of the settings view: the popup shows the info view again.
    pub fn show_info(&mut self)
        ensures
            *final(self) == (PopupState { popup: old(self).popup, kind: PopupKind::Info }),
    {
        self.kind = PopupKind::Info;
    }

    /// The compositor closed a popup (see `popup_closed_by_compositor`).
    pub fn popup_closed(&mut self, is_open_popup: bool)
        ensures
            *final(self) == popup_closed_by_compositor(*old(self), is_open_popup),
    {
        if is_open_popup {
            self.popup = None;
            self.kind = PopupKind::Info;
        }
    }
}

/// Clicking the panel button twice, with the panel able to host a popup,
/// opens the info popup and then closes that same window.
pub proof fn toggle_popup_twice_closes_it<W>(s: PopupState<W>, id: W, fresh: Option<W>)
    requires
        s.popup is None,
    ensures
        ({
            let (opened, first) = popup_toggled(s, Some(id));
            let (closed, second) = popup_toggled(opened, fresh);
            &&& first is Open
            &&& opened.kind == PopupKind::Info
            &&& closed.popup is None
            &&& second == PopupAction::Close(id)
        }),
{
}

/// Opening the settings twice, with the panel able to host a popup, shows
/// the settings and then closes that same window.
pub proof fn toggle_settings_twice_closes_it<W>(s: PopupState<W>, id: W, fresh: Option<W>)
    requires
        s.popup is None,
    ensures
        ({
            let (opened, first) = settings_toggled(s, Some(id));
            let (closed, second) = settings_toggled(opened, fresh);
            &&& first is Open
            &&& opened.kind == PopupKind::Settings
            &&& closed.popup is None
            &&& second == PopupAction::Close(id)
        }),
{
}

/// A popup window is only ever closed by the id it was opened with, and no
/// step opens a second window while one is open.
pub proof fn popup_steps_close_the_open_window<W>(s: PopupState<W>, fresh: Option<W>)
    ensures
        popup_toggled(s, fresh).1 matches PopupAction::Close(id) ==> s.popup == Some(id),
        settings_toggled(s, fresh).1 matches PopupAction::Close(id) ==> s.popup == Some(id),
        s.popup is Some ==> !(popup_toggled(s, fresh).1 is Open),
        s.popup is Some ==> !(settings_toggled(s, fresh).1 is Open),
        popup_toggled(s, fresh).1 is Open ==> popup_toggled(s, fresh).0.popup == fresh,
        settings_toggled(s, fresh).1 is Open ==> settings_toggled(s, fresh).0.popup == fresh,
{
}

/// A left click on the panel button closes an open popup, whatever it shows:
/// the action destroys that very window and no popup is left open. With no
/// popup open it opens an info popup in the fresh window, if there is one.
pub proof fn left_click_closes_any_open_popup<W>(s: PopupState<W>, fresh: Option<W>)
    ensures
        s.popup matches Some(id) ==> {
            &&& popup_toggled(s, fresh).1 == PopupAction::Close(id)
            &&& popup_toggled(s, fresh).0.popup is None
        },
        s.popup is None && fresh is Some ==> {
            &&& popup_toggled(s, fresh).1 is Open
            &&& popup_toggled(s, fresh).0.popup == fresh
            &&& popup_toggled(s, fresh).0.kind == PopupKind::Info
        },
        s.popup is None && fresh is None ==> popup_toggled(s, fresh) == (s, PopupAction::<W>::Nothing),
{
}

/// A right click closes the popup only when it shows the settings; on the info
/// view it switches that same window to the settings; with none open it opens
/// a settings popup in the fresh window, if there is one.
pub proof fn right_click_toggles_the_settings<W>(s: PopupState<W>, fresh: Option<W>)
    ensures
        s.popup matches Some(id) ==> if s.kind == PopupKind::Settings {
            &&& settings_toggled(s, fresh).1 == PopupAction::Close(id)
            &&& settings_toggled(s, fresh).0.popup is None
        } else {
            &&& settings_toggled(s, fresh).1 is Nothing
            &&& settings_toggled(s, fresh).0.popup == s.popup
            &&& settings_toggled(s, fresh).0.kind == PopupKind::Settings
        },
        s.popup is None && fresh is Some ==> {
            &&& settings_toggled(s, fresh).1 is Open
            &&& settings_toggled(s, fresh).0.popup == fresh
            &&& settings_toggled(s, fresh).0.kind == PopupKind::Settings
        },
{
}

/// From the info popup, the settings open in the same window.
pub proof fn settings_and_back_keep_the_window<W>(s: PopupState<W>, fresh: Option<W>)
    requires
        s.popup is Some,
        s.kind == PopupKind::Info,
    ensures
        ({
            let (in_settings, action) = settings_toggled(s, fresh);
            &&& action is Nothing
            &&& in_settings.popup == s.popup
            &&& in_settings.kind == PopupKind::Settings
        }),
{
}

/// A change made in the settings panel.
#[derive(Clone, Debug)]
pub enum Setting {
    Scope(Scope),
    Style(Style),
    ShowPercent(bool),
    PercentInsideRing(bool),
    ResetDisplay(ResetDisplay),
    /// The staleness limit, in minutes.
    StaleAfterMins(u64),
    /// The history location as typed; blank text restores the default location.
    HistoryPath(String),
}

impl<F> Config<F> {
    /// Applies one settings change; a style change also drops a reset display
    /// mode that the new style cannot show. Returns whether the usage history has to be
    /// read again (its location changed).
    pub fn apply(&mut self, setting: Setting) -> (reload: bool)
        requires
            setting matches Setting::StaleAfterMins(m) ==> m * 60 <= u64::MAX,
        ensures
            reload == (setting is HistoryPath),
            match setting {
                Setting::Scope(v) => *final(self) == Config { scope: v, ..*old(self) },
                Setting::Style(v) => *final(self) == Config {
                    style: v,
                    reset_display: if reset_shown_by(v, old(self).reset_display) {
                        old(self).reset_display
                    } else {
                        ResetDisplay::Off
                    },
                    ..*old(self)
                },
                Setting::ShowPercent(v) => *final(self) == Config { show_percent: v, ..*old(self) },
                Setting::PercentInsideRing(v) => *final(self) == Config {
                    percent_inside_ring: v,
                    ..*old(self)
                },
                Setting::ResetDisplay(v) => *final(self) == Config { reset_display: v, ..*old(self) },
                Setting::StaleAfterMins(m) => *final(self) == Config {
                    stale_after: (m * 60) as u64,
                    ..*old(self)
                },
                Setting::HistoryPath(p) => {
                    &&& *final(self) == Config { history_path: final(self).history_path, ..*old(self) }
                    &&& (trim(p@).len() == 0 <==> final(self).history_path is None)
                    &&& (final(self).history_path matches Some(q) ==> q@ == trim(p@))
                },
            },
    {
        match setting {
            Setting::Scope(v) => {
                self.scope = v;
                false
            },
            Setting::Style(v) => {
                self.style = v;
                // Drop a reset mode the new style cannot render (e.g. a dual
                // ring on a bar), so the stored value stays consistent.
                if !reset_valid(v, self.reset_display) {
                    self.reset_display = ResetDisplay::Off;
                }
                false
            },
            Setting::ShowPercent(v) => {
                self.show_percent = v;
                false
            },
            Setting::PercentInsideRing(v) => {
                self.percent_inside_ring = v;
                false
            },
            Setting::ResetDisplay(v) => {
                self.reset_display = v;
                false
            },
            Setting::StaleAfterMins(m) => {
                self.stale_after = m * 60;
                false
            },
            Setting::HistoryPath(p) => {
                let trimmed = trim_text(p.as_str());
                self.history_path = if trimmed.as_str().is_empty() {
                    None
                } else {
                    Some(trimmed)
                };
                true
            },
        }
    }
}

/// What the popup surface renders.
#[derive(Clone, Copy, Debug, PartialEq, Eq, Structural)]
pub enum PopupContent {
    Settings,
    /// Both budgets in detail.
    Details,
    /// The "no usage data yet" notice.
    NoData,
}

pub fn popup_content(kind: PopupKind, has_sample: bool) -> (content: PopupContent)
    ensures
        content == (match kind {
            PopupKind::Settings => PopupContent::Settings,
            PopupKind::Info => if has_sample {
                PopupContent::Details
            } else {
                PopupContent::NoData
            },
        }),
{
    match kind {
        PopupKind::Settings => PopupContent::Settings,
        PopupKind::Info => if has_sample {
            PopupContent::Details
        } else {
            PopupContent::NoData
        },
    }
}

} // verus!
