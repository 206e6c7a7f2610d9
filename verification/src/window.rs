//! Window lifecycle decisions. The GUI layer owns the real windows; it
//! reports whether a window exists, is visible and is focused, and performs
//! the action decided here.

use vstd::prelude::*;

verus! {

/// What the GUI layer reports of an existing window.
#[derive(Debug, Clone, Copy, PartialEq, Eq, Structural)]
pub struct WindowStatus {
    pub visible: bool,
    pub focused: bool,
}

/// What the GUI layer is to do with the main window.
#[derive(Debug, Clone, Copy, PartialEq, Eq, Structural)]
pub enum WindowAction {
    /// No window yet: create it (a fresh window comes up visible and
    /// focused).
    Create,
    /// Hidden: show it, then focus it.
    ShowAndFocus,
    /// Visible but in the background: focus it, never hide it.
    FocusOnly,
    /// Visible and focused: hide it.
    Hide,
}

/// The toggle decision as a transition on the window's status.
pub open spec fn spec_toggle_window(w: Option<WindowStatus>) -> (WindowAction, WindowStatus) {
    match w {
        None => (WindowAction::Create, WindowStatus { visible: true, focused: true }),
        Some(s) => if !s.visible {
            (WindowAction::ShowAndFocus, WindowStatus { visible: true, focused: true })
        } else if s.focused {
            (WindowAction::Hide, WindowStatus { visible: false, focused: false })
        } else {
            (WindowAction::FocusOnly, WindowStatus { visible: true, focused: true })
        },
    }
}

/// Decides what toggling the main window does, and what the window's status
/// will be once the GUI layer has done it: no window is created; a hidden
/// one is shown and focused; a focused one is hidden; a visible but
/// unfocused one is only brought to the front.
pub fn toggle_window(w: Option<WindowStatus>) -> (r: (WindowAction, WindowStatus))
    ensures
        r == spec_toggle_window(w),
{
    match w {
        None => (WindowAction::Create, WindowStatus { visible: true, focused: true }),
        Some(s) => {
            if !s.visible {
                (WindowAction::ShowAndFocus, WindowStatus { visible: true, focused: true })
            } else if s.focused {
                (WindowAction::Hide, WindowStatus { visible: false, focused: false })
            } else {
                (WindowAction::FocusOnly, WindowStatus { visible: true, focused: true })
            }
        },
    }
}

/// Law: a window that is visible but not focused is never hidden by a
/// toggle; it is only focused.
pub proof fn lemma_toggle_never_hides_unfocused(s: WindowStatus)
    requires
        s.visible,
        !s.focused,
    ensures
        spec_toggle_window(Some(s)).0 == WindowAction::FocusOnly,
        spec_toggle_window(Some(s)).1.visible,
{
}

/// Law: from no window, three toggles run create (visible and focused),
/// hide, show-and-focus (visible and focused again) — never a double hide,
/// never a skipped focus.
pub proof fn lemma_toggle_cycle()
    ensures
        ({
            let (a1, s1) = spec_toggle_window(None);
            let (a2, s2) = spec_toggle_window(Some(s1));
            let (a3, s3) = spec_toggle_window(Some(s2));
            &&& a1 == WindowAction::Create && s1.visible && s1.focused
            &&& a2 == WindowAction::Hide && !s2.visible
            &&& a3 == WindowAction::ShowAndFocus && s3.visible && s3.focused
        }),
{
}

/// What the GUI layer is to do with the settings window.
#[derive(Debug, Clone, Copy, PartialEq, Eq, Structural)]
pub enum SettingsWindowAction {
    Create,
    ShowAndFocus,
    FocusOnly,
}

/// Opening the settings window: create it when missing, show it when
/// hidden, and focus it in every case; it is never hidden from here.
pub fn open_settings_window(w: Option<WindowStatus>) -> (r: SettingsWindowAction)
    ensures
        w is None ==> r == SettingsWindowAction::Create,
        w matches Some(s) && !s.visible ==> r == SettingsWindowAction::ShowAndFocus,
        w matches Some(s) && s.visible ==> r == SettingsWindowAction::FocusOnly,
{
    match w {
        None => SettingsWindowAction::Create,
        Some(s) => {
            if !s.visible {
                SettingsWindowAction::ShowAndFocus
            } else {
                SettingsWindowAction::FocusOnly
            }
        },
    }
}

/// What a tray menu click comes to. The tray adds no window rules of its
/// own: its entries dispatch into the same command paths the hotkeys use.
#[derive(Debug, Clone, Copy, PartialEq, Eq, Structural)]
pub enum TrayAction {
    /// `toggle`: fire the ToggleWindow command — capture the selection,
    /// then follow `toggle_window`'s rule (created when absent, shown and
    /// focused when hidden, only focused while unfocused, hidden only while
    /// focused).
    ToggleMain,
    /// `settings`: run the settings-window-open path
    /// (`open_settings_window`'s rule).
    OpenSettings,
    /// `quit`.
    Exit,
    /// Anything else.
    Nothing,
}

/// Routes a tray menu event into the shared command paths: `toggle` fires
/// the same ToggleWindow command as the hotkey, `settings` the
/// settings-window-open path, `quit` ends the process.
pub fn tray_event_plan(menu_id: &str) -> (r: TrayAction)
    ensures
        menu_id@ == "toggle"@ ==> r == TrayAction::ToggleMain,
        menu_id@ == "settings"@ ==> r == TrayAction::OpenSettings,
        menu_id@ == "quit"@ ==> r == TrayAction::Exit,
        menu_id@ != "toggle"@ && menu_id@ != "settings"@ && menu_id@ != "quit"@ ==> r
            == TrayAction::Nothing,
{
    proof {
        reveal_strlit("toggle");
        reveal_strlit("settings");
        reveal_strlit("quit");
        assert("toggle"@.len() == 6);
        assert("settings"@.len() == 8);
        assert("quit"@.len() == 4);
    }
    if crate::chord::str_eq(menu_id, "toggle") {
        TrayAction::ToggleMain
    } else if crate::chord::str_eq(menu_id, "settings") {
        TrayAction::OpenSettings
    } else if crate::chord::str_eq(menu_id, "quit") {
        TrayAction::Exit
    } else {
        TrayAction::Nothing
    }
}

} // verus!
