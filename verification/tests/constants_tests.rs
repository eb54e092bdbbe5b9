use spot_cursor::config::RuntimeConfig;
use spot_cursor::constants::IDM_EXIT;
use spot_cursor::constants::IDM_OPTIONS;
use spot_cursor::constants::TIMER_ANIMATION;
use spot_cursor::constants::TIMER_UPDATE;
use spot_cursor::constants::TRAY_ICON_ID;
use spot_cursor::constants::VK_LCONTROL;
use spot_cursor::constants::VK_RCONTROL;
use spot_cursor::constants::WM_COMMAND;
use spot_cursor::constants::WM_DESTROY;
use spot_cursor::constants::WM_ERASEBKGND;
use spot_cursor::constants::WM_KEYDOWN;
use spot_cursor::constants::WM_LBUTTONDBLCLK;
use spot_cursor::constants::WM_LBUTTONDOWN;
use spot_cursor::constants::WM_MBUTTONDOWN;
use spot_cursor::constants::WM_RBUTTONDOWN;
use spot_cursor::constants::WM_RBUTTONUP;
use spot_cursor::constants::WM_SYSKEYDOWN;
use spot_cursor::constants::WM_TIMER;
use spot_cursor::constants::WM_TRAYICON;
use spot_cursor::constants::WM_USER;
use spot_cursor::constants::WM_USER_HIDE_SPOTLIGHT;
use spot_cursor::constants::WM_USER_SHOW_SPOTLIGHT;
use spot_cursor::constants::WM_XBUTTONDOWN;
use spot_cursor::hooks::is_ctrl_key;
use spot_cursor::hooks::is_mouse_button_down;
use spot_cursor::hooks::keyboard_hook_proc;
use spot_cursor::hooks::SpotlightRequest;
use spot_cursor::spotlight::window::classify_message;
use spot_cursor::spotlight::window::WindowAction;
use spot_cursor::spotlight::window::WindowMessage;
use spot_cursor::spotlight::GlobalState;
use spot_cursor::tray::handle_tray_command;
use spot_cursor::tray::handle_tray_message;

#[test]
fn message_numbers_are_those_of_the_system() {
    assert_eq!(WM_DESTROY, 2);
    assert_eq!(WM_ERASEBKGND, 20);
    assert_eq!(WM_KEYDOWN, 256);
    assert_eq!(WM_SYSKEYDOWN, 260);
    assert_eq!(WM_COMMAND, 273);
    assert_eq!(WM_TIMER, 275);
    assert_eq!(WM_LBUTTONDOWN, 513);
    assert_eq!(WM_LBUTTONDBLCLK, 515);
    assert_eq!(WM_RBUTTONDOWN, 516);
    assert_eq!(WM_RBUTTONUP, 517);
    assert_eq!(WM_MBUTTONDOWN, 519);
    assert_eq!(WM_XBUTTONDOWN, 523);
    assert_eq!(WM_USER, 1024);
}

#[test]
fn key_codes_are_those_of_the_system() {
    assert_eq!(VK_LCONTROL, 162);
    assert_eq!(VK_RCONTROL, 163);
}

#[test]
fn own_numbers() {
    assert_eq!(WM_USER_SHOW_SPOTLIGHT, 1025);
    assert_eq!(WM_USER_HIDE_SPOTLIGHT, 1026);
    assert_eq!(WM_TRAYICON, 1124);
    assert_eq!(TRAY_ICON_ID, 1);
    assert_eq!(IDM_OPTIONS, 1000);
    assert_eq!(IDM_EXIT, 1001);
    assert_eq!(TIMER_UPDATE, 1);
    assert_eq!(TIMER_ANIMATION, 2);
}

#[test]
fn named_key_codes_reach_the_detector() {
    assert!(is_ctrl_key(VK_LCONTROL));
    assert!(is_ctrl_key(VK_RCONTROL));
    // The key code that does not tell left from right, shift and escape.
    assert!(!is_ctrl_key(0x11));
    assert!(!is_ctrl_key(0xA0));
    assert!(!is_ctrl_key(0x1B));

    let config = RuntimeConfig::new();
    let mut state = GlobalState::new();
    let key_down = WM_KEYDOWN as usize;
    assert_eq!(keyboard_hook_proc(&mut state, &config, 0, key_down, VK_LCONTROL, 1_000), None);
    assert_eq!(
        keyboard_hook_proc(&mut state, &config, 0, key_down, VK_LCONTROL, 1_100),
        Some(SpotlightRequest::Show)
    );
    let key_up = (WM_KEYDOWN + 1) as usize;
    assert_eq!(keyboard_hook_proc(&mut state, &config, 0, key_up, VK_LCONTROL, 1_200), None);
    assert_eq!(state.last_ctrl_time, 1_100);
    let sys_key_down = WM_SYSKEYDOWN as usize;
    assert_eq!(
        keyboard_hook_proc(&mut state, &config, 0, sys_key_down, VK_LCONTROL, 1_300),
        Some(SpotlightRequest::Show)
    );
    assert_eq!(state.last_ctrl_time, 1_300);
}

#[test]
fn named_mouse_messages_reach_the_detector() {
    assert!(is_mouse_button_down(WM_LBUTTONDOWN as usize));
    assert!(is_mouse_button_down(WM_RBUTTONDOWN as usize));
    assert!(is_mouse_button_down(WM_MBUTTONDOWN as usize));
    assert!(is_mouse_button_down(WM_XBUTTONDOWN as usize));
    assert!(!is_mouse_button_down(WM_RBUTTONUP as usize));
    assert!(!is_mouse_button_down(WM_LBUTTONDBLCLK as usize));
}

#[test]
fn named_messages_reach_the_dispatch() {
    assert_eq!(classify_message(WM_USER_SHOW_SPOTLIGHT, 0, 0), WindowMessage::ShowSpotlight);
    assert_eq!(classify_message(WM_USER_HIDE_SPOTLIGHT, 0, 0), WindowMessage::HideSpotlight);
    assert_eq!(classify_message(WM_TIMER, TIMER_UPDATE, 0), WindowMessage::UpdateTick);
    assert_eq!(classify_message(WM_TIMER, TIMER_ANIMATION, 0), WindowMessage::AnimationTick);
    assert_eq!(classify_message(WM_TRAYICON, 0, 7), WindowMessage::TrayIcon { lparam: 7 });
    assert_eq!(classify_message(WM_DESTROY, 0, 0), WindowMessage::Destroy);
    assert_eq!(classify_message(WM_ERASEBKGND, 0, 0), WindowMessage::EraseBackground);
    assert_eq!(
        classify_message(WM_COMMAND, IDM_OPTIONS as usize, 0),
        WindowMessage::Command { id: IDM_OPTIONS }
    );
    assert_eq!(classify_message(WM_USER, 0, 0), WindowMessage::Other);
    assert_eq!(classify_message(WM_KEYDOWN, 0, 0), WindowMessage::Other);
}

#[test]
fn tray_events() {
    assert_eq!(handle_tray_message(WM_RBUTTONUP as isize), Some(WindowAction::ShowTrayMenu));
    assert_eq!(handle_tray_message(WM_LBUTTONDBLCLK as isize), Some(WindowAction::OpenSettings));
    assert_eq!(handle_tray_message(WM_LBUTTONDOWN as isize), None);
    assert_eq!(handle_tray_message(0x0200), None);
    assert_eq!(handle_tray_message(0), None);
    assert_eq!(handle_tray_message(-1), None);
    assert_eq!(handle_tray_command(IDM_OPTIONS), Some(WindowAction::OpenSettings));
    assert_eq!(handle_tray_command(IDM_EXIT), None);
    assert_eq!(handle_tray_command(0), None);
}

#[test]
fn a_tray_event_is_the_low_half_of_its_parameter() {
    let high: isize = isize::MIN;
    assert_eq!(
        handle_tray_message(high | 0x0205),
        if isize::BITS > 32 { Some(WindowAction::ShowTrayMenu) } else { None }
    );
}
