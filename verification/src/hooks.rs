//! What the global keyboard and mouse hooks decide.
//!
//! A hook must return at once, so it never changes the overlay itself: it
//! answers with the request to post to the overlay window, if there is one.

use vstd::prelude::*;

use crate::config::RuntimeConfig;
use crate::config::Settings;
use crate::constants::VK_LCONTROL;
use crate::constants::VK_RCONTROL;
use crate::constants::WM_KEYDOWN;
use crate::constants::WM_LBUTTONDOWN;
use crate::constants::WM_MBUTTONDOWN;
use crate::constants::WM_RBUTTONDOWN;
use crate::constants::WM_SYSKEYDOWN;
use crate::constants::WM_USER_HIDE_SPOTLIGHT;
use crate::constants::WM_USER_SHOW_SPOTLIGHT;
use crate::constants::WM_XBUTTONDOWN;
use crate::spotlight::state::GlobalState;
use crate::spotlight::window::message_kind;
use crate::spotlight::window::state_after_message;
use crate::spotlight::window::Observation;
use crate::spotlight::window::WindowMessage;

verus! {

/// A request that a hook posts to the overlay window.
#[derive(Debug, Clone, Copy, PartialEq, Eq)]
pub enum SpotlightRequest {
    Show,
    Hide,
}

impl SpotlightRequest {
    /// The number of the window message that carries the request.
    pub open spec fn spec_message(self) -> u32 {
        match self {
            SpotlightRequest::Show => WM_USER_SHOW_SPOTLIGHT,
            SpotlightRequest::Hide => WM_USER_HIDE_SPOTLIGHT,
        }
    }

    /// The number of the window message that carries the request.
    pub fn message(&self) -> (msg: u32)
        ensures
            msg == self.spec_message(),
    {
        match self {
            SpotlightRequest::Show => WM_USER_SHOW_SPOTLIGHT,
            SpotlightRequest::Hide => WM_USER_HIDE_SPOTLIGHT,
        }
    }

    /// The overlay window reads a posted request as what it is, whatever the
    /// parameters that travel with it.
    pub proof fn lemma_request_is_understood(
        request: SpotlightRequest,
        wparam: usize,
        lparam: isize,
    )
        ensures
            message_kind(request.spec_message(), wparam, lparam) == (match request {
                SpotlightRequest::Show => WindowMessage::ShowSpotlight,
                SpotlightRequest::Hide => WindowMessage::HideSpotlight,
            }),
    {
    }
}

/// Whether a virtual-key code is that of the left or the right Ctrl key.
pub open spec fn spec_is_ctrl_key(vk_code: u32) -> bool {
    vk_code == VK_LCONTROL || vk_code == VK_RCONTROL
}

/// Whether a mouse message, taken by its low 32 bits, reports that a button
/// went down: the left, the right or the middle one, or one of the side
/// buttons.  Releases, movement and the wheel are no such message.
pub open spec fn spec_is_mouse_button_down(msg: usize) -> bool {
    ||| msg as u32 == WM_LBUTTONDOWN
    ||| msg as u32 == WM_RBUTTONDOWN
    ||| msg as u32 == WM_MBUTTONDOWN
    ||| msg as u32 == WM_XBUTTONDOWN
}

/// Whether a keyboard message reports a key going down, be it an ordinary
/// key or a system key (a key pressed with Alt held, Alt or F10).
pub open spec fn is_key_down_message(wparam: usize) -> bool {
    wparam == WM_KEYDOWN || wparam == WM_SYSKEYDOWN
}

/// Whether a hook event is to be looked at (`code` is not negative) and
/// reports a key going down.
pub open spec fn is_key_down(code: i32, wparam: usize) -> bool {
    code >= 0 && is_key_down_message(wparam)
}

/// A double tap flips the spotlight: it hides a spotlight that is shown and
/// shows one that is hidden.
pub open spec fn toggle_request(state: GlobalState) -> SpotlightRequest {
    if state.active {
        SpotlightRequest::Hide
    } else {
        SpotlightRequest::Show
    }
}

/// The state after a keyboard event: a Ctrl press is recorded as the new
/// baseline of the double-tap detector, and nothing else changes.
pub open spec fn state_after_key(
    state: GlobalState,
    code: i32,
    wparam: usize,
    vk_code: u32,
    now: u64,
) -> GlobalState {
    if is_key_down(code, wparam) && spec_is_ctrl_key(vk_code) {
        state.after_ctrl_press(now)
    } else {
        state
    }
}

/// The request that a keyboard event leads to: the second Ctrl press of a
/// double tap toggles the spotlight, and any other key going down hides a
/// spotlight that is shown.
pub open spec fn request_of_key(
    state: GlobalState,
    settings: Settings,
    code: i32,
    wparam: usize,
    vk_code: u32,
    now: u64,
) -> Option<SpotlightRequest> {
    if !is_key_down(code, wparam) {
        None
    } else if spec_is_ctrl_key(vk_code) {
        if state.ctrl_press_is_double_tap(now, settings.double_tap_time_ms) {
            Some(toggle_request(state))
        } else {
            None
        }
    } else if state.active {
        Some(SpotlightRequest::Hide)
    } else {
        None
    }
}

/// The request that a mouse event leads to: a button going down hides a
/// spotlight that is shown.
pub open spec fn request_of_mouse(
    state: GlobalState,
    code: i32,
    wparam: usize,
) -> Option<SpotlightRequest> {
    if code >= 0 && state.active && spec_is_mouse_button_down(wparam) {
        Some(SpotlightRequest::Hide)
    } else {
        None
    }
}

/// Tells whether a virtual-key code is that of a Ctrl key.
pub fn is_ctrl_key(vk_code: u32) -> (ctrl: bool)
    ensures
        ctrl == spec_is_ctrl_key(vk_code),
{
    vk_code == VK_LCONTROL || vk_code == VK_RCONTROL
}

/// Tells whether a mouse message reports a button going down.
pub fn is_mouse_button_down(msg: usize) -> (down: bool)
    ensures
        down == spec_is_mouse_button_down(msg),
{
    let low: u32 = #[verifier::truncate]
    (msg as u32);
    low == WM_LBUTTONDOWN || low == WM_RBUTTONDOWN || low == WM_MBUTTONDOWN || low
        == WM_XBUTTONDOWN
}

/// Chooses the request that flips the spotlight.
pub fn toggle_spotlight(state: &GlobalState) -> (request: SpotlightRequest)
    ensures
        request == toggle_request(*state),
{
    if state.is_active() {
        SpotlightRequest::Hide
    } else {
        SpotlightRequest::Show
    }
}

/// Decides what a keyboard hook event leads to.  `code` and `wparam` are the
/// hook's own, `vk_code` is the key, `now` the monotonic clock in
/// milliseconds.
pub fn keyboard_hook_proc(
    state: &mut GlobalState,
    config: &RuntimeConfig,
    code: i32,
    wparam: usize,
    vk_code: u32,
    now: u64,
) -> (request: Option<SpotlightRequest>)
    ensures
        *final(state) == state_after_key(*old(state), code, wparam, vk_code, now),
        request == request_of_key(*old(state), config@, code, wparam, vk_code, now),
        old(state).wf() ==> final(state).wf(),
{
    if code >= 0 {
        let is_key_down = wparam == WM_KEYDOWN as usize || wparam == WM_SYSKEYDOWN as usize;
        if is_key_down {
            if is_ctrl_key(vk_code) {
                if state.register_ctrl_press(now, config) {
                    return Some(toggle_spotlight(state));
                }
            } else if state.is_active() {
                return Some(SpotlightRequest::Hide);
            }
        }
    }
    None
}

/// Decides what a mouse hook event leads to.
pub fn mouse_hook_proc(
    state: &GlobalState,
    code: i32,
    wparam: usize,
) -> (request: Option<SpotlightRequest>)
    ensures
        request == request_of_mouse(*state, code, wparam),
{
    if code >= 0 && state.is_active() {
        if is_mouse_button_down(wparam) {
            return Some(SpotlightRequest::Hide);
        }
    }
    None
}

/// While the spotlight is shown, any key other than Ctrl going down asks for
/// it to be hidden, however long it has been shown, and the overlay window
/// then hides it.
pub proof fn lemma_other_key_hides(
    state: GlobalState,
    settings: Settings,
    code: i32,
    hook_wparam: usize,
    vk_code: u32,
    now: u64,
    wparam: usize,
    lparam: isize,
    seen: Observation,
)
    requires
        state.active,
        is_key_down(code, hook_wparam),
        !spec_is_ctrl_key(vk_code),
    ensures
        request_of_key(state, settings, code, hook_wparam, vk_code, now) == Some(
            SpotlightRequest::Hide,
        ),
        state_after_key(state, code, hook_wparam, vk_code, now) == state,
        !state_after_message(
            state,
            settings,
            message_kind(SpotlightRequest::Hide.spec_message(), wparam, lparam),
            seen,
        ).active,
{
}

/// While the spotlight is shown, any mouse button going down asks for it to
/// be hidden, and the overlay window then hides it.
pub proof fn lemma_mouse_click_hides(
    state: GlobalState,
    settings: Settings,
    code: i32,
    hook_wparam: usize,
    wparam: usize,
    lparam: isize,
    seen: Observation,
)
    requires
        state.active,
        code >= 0,
        spec_is_mouse_button_down(hook_wparam),
    ensures
        request_of_mouse(state, code, hook_wparam) == Some(SpotlightRequest::Hide),
        !state_after_message(
            state,
            settings,
            message_kind(SpotlightRequest::Hide.spec_message(), wparam, lparam),
            seen,
        ).active,
{
}

/// A double tap always flips the spotlight: the request it leads to, once
/// handled, leaves the overlay shown if it was hidden and hidden if it was
/// shown.
pub proof fn lemma_double_tap_toggles(
    state: GlobalState,
    settings: Settings,
    code: i32,
    hook_wparam: usize,
    vk_code: u32,
    now: u64,
    wparam: usize,
    lparam: isize,
    seen: Observation,
)
    requires
        is_key_down(code, hook_wparam),
        spec_is_ctrl_key(vk_code),
        state.ctrl_press_is_double_tap(now, settings.double_tap_time_ms),
    ensures
        ({
            let pressed = state_after_key(state, code, hook_wparam, vk_code, now);
            let request = request_of_key(state, settings, code, hook_wparam, vk_code, now);
            &&& request is Some
            &&& state_after_message(
                pressed,
                settings,
                message_kind(request->Some_0.spec_message(), wparam, lparam),
                seen,
            ).active == !state.active
        }),
{
}

} // verus!
