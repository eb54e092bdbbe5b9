//! What the tray icon asks for.

use vstd::prelude::*;

use crate::constants::IDM_OPTIONS;
use crate::constants::WM_LBUTTONDBLCLK;
use crate::constants::WM_RBUTTONUP;
use crate::spotlight::window::WindowAction;

verus! {

/// What mouse activity on the tray icon leads to.  The mouse message is the
/// low 32 bits of `lparam`: releasing the right button opens the context
/// menu, a double click with the left button opens the settings.
pub open spec fn tray_message_action(lparam: isize) -> Option<WindowAction> {
    if lparam as u32 == WM_RBUTTONUP {
        Some(WindowAction::ShowTrayMenu)
    } else if lparam as u32 == WM_LBUTTONDBLCLK {
        Some(WindowAction::OpenSettings)
    } else {
        None
    }
}

/// What a command of the context menu leads to, the exit command aside.
pub open spec fn tray_command_action(command: u32) -> Option<WindowAction> {
    if command == IDM_OPTIONS {
        Some(WindowAction::OpenSettings)
    } else {
        None
    }
}

/// Decides what to do about mouse activity on the tray icon.
pub fn handle_tray_message(lparam: isize) -> (action: Option<WindowAction>)
    ensures
        action == tray_message_action(lparam),
{
    let event: u32 = #[verifier::truncate]
    (lparam as u32);
    if event == WM_RBUTTONUP {
        Some(WindowAction::ShowTrayMenu)
    } else if event == WM_LBUTTONDBLCLK {
        Some(WindowAction::OpenSettings)
    } else {
        None
    }
}

/// Decides what to do about a command of the context menu.
pub fn handle_tray_command(command: u32) -> (action: Option<WindowAction>)
    ensures
        action == tray_command_action(command),
{
    if command == IDM_OPTIONS {
        Some(WindowAction::OpenSettings)
    } else {
        None
    }
}

} // verus!
