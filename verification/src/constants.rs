//! Window message numbers, timer identifiers and menu commands.

use vstd::prelude::*;

verus! {

/// First message number available to applications.
pub const WM_USER: u32 = 0x0400;

/// Message sent when a window is being destroyed.
pub const WM_DESTROY: u32 = 0x0002;

/// Message sent when the window background must be erased.
pub const WM_ERASEBKGND: u32 = 0x0014;

/// Message posted when a non-system key is pressed.
pub const WM_KEYDOWN: u32 = 0x0100;

/// Message posted when a key is pressed while Alt is held, or when Alt or
/// F10 itself is pressed.
pub const WM_SYSKEYDOWN: u32 = 0x0104;

/// Message sent when a menu item is chosen.
pub const WM_COMMAND: u32 = 0x0111;

/// Message posted when a timer expires.
pub const WM_TIMER: u32 = 0x0113;

/// Message posted when the left mouse button is pressed.
pub const WM_LBUTTONDOWN: u32 = 0x0201;

/// Message posted when the left mouse button is double-clicked.
pub const WM_LBUTTONDBLCLK: u32 = 0x0203;

/// Message posted when the right mouse button is pressed.
pub const WM_RBUTTONDOWN: u32 = 0x0204;

/// Message posted when the right mouse button is released.
pub const WM_RBUTTONUP: u32 = 0x0205;

/// Message posted when the middle mouse button is pressed.
pub const WM_MBUTTONDOWN: u32 = 0x0207;

/// Message posted when one of the side buttons of the mouse is pressed.
pub const WM_XBUTTONDOWN: u32 = 0x020B;

/// Virtual-key code of the left Ctrl key.
pub const VK_LCONTROL: u32 = 0xA2;

/// Virtual-key code of the right Ctrl key.
pub const VK_RCONTROL: u32 = 0xA3;

/// Custom message that asks the overlay window to show the spotlight.
pub const WM_USER_SHOW_SPOTLIGHT: u32 = WM_USER + 1;

/// Custom message that asks the overlay window to hide the spotlight.
pub const WM_USER_HIDE_SPOTLIGHT: u32 = WM_USER + 2;

/// Message through which the tray icon reports mouse activity.
pub const WM_TRAYICON: u32 = WM_USER + 100;

/// Identifier of the icon in the system tray.
pub const TRAY_ICON_ID: u32 = 1;

/// Context menu command that opens the settings dialog.
pub const IDM_OPTIONS: u32 = 1000;

/// Context menu command that ends the program.
pub const IDM_EXIT: u32 = 1001;

/// Identifier of the timer that drives the follow ticks.
pub const TIMER_UPDATE: usize = 1;

/// Identifier of the timer that drives the animation ticks.
pub const TIMER_ANIMATION: usize = 2;

} // verus!
