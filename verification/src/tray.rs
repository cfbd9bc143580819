//! The tray menu: its item identifiers and what each click does.
use vstd::prelude::*;
use crate::text::str_eq;

verus! {

pub struct MenuIds;

impl MenuIds {
    pub const TOGGLE_WINDOW: &'static str = "tray:toggle_window";
    pub const TOGGLE_CAPTURE: &'static str = "tray:toggle_capture";
    pub const TOGGLE_MODE: &'static str = "tray:toggle_mode";
    pub const QUIT: &'static str = "tray:quit";
}

/// What a click on a menu item asks for.
#[derive(Debug, Clone, Copy, PartialEq, Eq, Structural)]
pub enum MenuAction {
    /// Show the main window, or hide it when it is visible and focused.
    ToggleWindow,
    /// Stop capturing when capturing, else start.
    ToggleCapture,
    /// Switch between always-on and push-to-talk and persist the choice.
    ToggleMode,
    /// Leave the application for good.
    Quit,
    /// Not one of the tray's items.
    Ignore,
}

pub open spec fn menu_action_spec(id: Seq<char>) -> MenuAction {
    if id == "tray:toggle_window"@ {
        MenuAction::ToggleWindow
    } else if id == "tray:toggle_capture"@ {
        MenuAction::ToggleCapture
    } else if id == "tray:toggle_mode"@ {
        MenuAction::ToggleMode
    } else if id == "tray:quit"@ {
        MenuAction::Quit
    } else {
        MenuAction::Ignore
    }
}

/// The action of the menu item with identifier `id`.
pub fn menu_action(id: &str) -> (r: MenuAction)
    ensures
        r == menu_action_spec(id@),
{
    if str_eq(id, "tray:toggle_window") {
        MenuAction::ToggleWindow
    } else if str_eq(id, "tray:toggle_capture") {
        MenuAction::ToggleCapture
    } else if str_eq(id, "tray:toggle_mode") {
        MenuAction::ToggleMode
    } else if str_eq(id, "tray:quit") {
        MenuAction::Quit
    } else {
        MenuAction::Ignore
    }
}

/// Toggling the main window hides it only when it is both visible and
/// focused; otherwise it is shown and focused.
pub fn toggle_hides_window(visible: bool, focused: bool) -> (r: bool)
    ensures
        r == (visible && focused),
{
    visible && focused
}

} // verus!
