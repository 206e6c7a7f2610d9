//! Command dispatch: what each fired shortcut command comes to. The
//! dispatcher is stateless; it reads the session snapshots and returns a
//! plan for the host to carry out (capture, toggle, paste, or nothing).

use vstd::prelude::*;

use crate::settings::CommandType;
use crate::state::AppState;

verus! {

/// Why there was nothing to paste.
#[derive(Debug, PartialEq)]
pub enum PasteError {
    /// No prompt has answered yet.
    NoResponse,
    /// The latest response is the empty string.
    EmptyResponse,
}

impl PasteError {
    /// The report the host logs or returns.
    pub fn message(&self) -> (r: String)
        ensures
            *self is NoResponse ==> r@ == "No response available to paste (no response found)"@,
            *self is EmptyResponse ==> r@
                == "No response available to paste (empty response)"@,
    {
        match self {
            PasteError::NoResponse => String::from_str(
                "No response available to paste (no response found)",
            ),
            PasteError::EmptyResponse => String::from_str(
                "No response available to paste (empty response)",
            ),
        }
    }
}

/// The text to inject at the cursor, or the exact reason there is none:
/// never a response when none was stored, never an empty injection, and no
/// injection at all on an error.
pub fn paste_plan(state: &AppState) -> (r: Result<String, PasteError>)
    ensures
        match state.latest_output() {
            None => r == Err::<String, PasteError>(PasteError::NoResponse),
            Some(t) => if t.len() == 0 {
                r == Err::<String, PasteError>(PasteError::EmptyResponse)
            } else {
                r is Ok && r->Ok_0@ == t
            },
        },
{
    match state.get_latest_output() {
        None => Err(PasteError::NoResponse),
        Some(text) => {
            if text.as_str().is_empty() {
                Err(PasteError::EmptyResponse)
            } else {
                Ok(text)
            }
        },
    }
}

/// What the host is to do for a fired shortcut command.
#[derive(Debug, PartialEq)]
pub enum DispatchPlan {
    /// Capture the selection into the state first, then toggle the main
    /// window (`crate::window::toggle_window` decides how).
    CaptureThenToggle,
    /// Read the cursor position and report it.
    ReportCursorPosition,
    /// Capture the selection and report it.
    CaptureSelection,
    /// Inject this text at the cursor.
    Paste(String),
    /// Nothing to paste; log the reason.
    PasteUnavailable(PasteError),
    /// Prompt bindings are driven by the front end, not by the hotkey layer.
    FrontEndOnly,
}

/// Decides what a fired command does. Toggling captures the selection
/// before the window moves, so the panel can show it; pasting reads the
/// latest-output snapshot and refuses empty or missing responses; prompt
/// commands are not dispatched from here at all.
pub fn handle_shortcut_commands(state: &AppState, command: &CommandType) -> (p: DispatchPlan)
    ensures
        match command@ {
            crate::settings::CommandTypeModel::ToggleWindow => p
                == DispatchPlan::CaptureThenToggle,
            crate::settings::CommandTypeModel::GetCursorPosition => p
                == DispatchPlan::ReportCursorPosition,
            crate::settings::CommandTypeModel::GetSelectedText => p
                == DispatchPlan::CaptureSelection,
            crate::settings::CommandTypeModel::PasteOutput => match state.latest_output() {
                None => p == DispatchPlan::PasteUnavailable(PasteError::NoResponse),
                Some(t) => if t.len() == 0 {
                    p == DispatchPlan::PasteUnavailable(PasteError::EmptyResponse)
                } else {
                    p matches DispatchPlan::Paste(text) && text@ == t
                },
            },
            crate::settings::CommandTypeModel::Prompt { .. } => p == DispatchPlan::FrontEndOnly,
        },
{
    match command {
        CommandType::ToggleWindow => DispatchPlan::CaptureThenToggle,
        CommandType::GetCursorPosition => DispatchPlan::ReportCursorPosition,
        CommandType::GetSelectedText => DispatchPlan::CaptureSelection,
        CommandType::PasteOutput => match paste_plan(state) {
            Ok(text) => DispatchPlan::Paste(text),
            Err(e) => DispatchPlan::PasteUnavailable(e),
        },
        CommandType::Prompt { .. } => DispatchPlan::FrontEndOnly,
    }
}

} // verus!
