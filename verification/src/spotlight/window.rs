//! The transitions of the spotlight and the dispatch of window messages.
//!
//! Every function here takes what was observed (the clock, the cursor, the
//! screen) as plain values, updates the state, and answers with the list of
//! actions to carry out on the overlay, in order.

use vstd::prelude::*;

use crate::config::ConfigDefaults;
use crate::config::RuntimeConfig;
use crate::config::Settings;
use crate::constants::IDM_EXIT;
use crate::constants::TIMER_ANIMATION;
use crate::constants::TIMER_UPDATE;
use crate::constants::WM_COMMAND;
use crate::constants::WM_DESTROY;
use crate::constants::WM_ERASEBKGND;
use crate::constants::WM_TIMER;
use crate::constants::WM_TRAYICON;
use crate::constants::WM_USER_HIDE_SPOTLIGHT;
use crate::constants::WM_USER_SHOW_SPOTLIGHT;
use crate::spotlight::animation::interpolate_radius;
use crate::spotlight::animation::interpolated_radius;
use crate::spotlight::animation::lemma_interpolation_between;
use crate::spotlight::animation::lemma_interpolation_endpoints;
use crate::spotlight::state::elapsed_ms;
use crate::spotlight::state::is_drawable_radius;
use crate::spotlight::state::GlobalState;
use crate::tray::handle_tray_command;
use crate::tray::handle_tray_message;
use crate::tray::tray_command_action;
use crate::tray::tray_message_action;
use crate::types::Position;
use crate::types::VirtualScreen;

verus! {

/// The two periodic timers of the overlay window.
#[derive(Debug, Clone, Copy, PartialEq, Eq)]
pub enum TimerId {
    /// Drives the follow ticks.
    Update,
    /// Drives the animation ticks.
    Animation,
}

impl TimerId {
    /// The number under which the timer is registered with the window.
    pub open spec fn spec_id(self) -> usize {
        match self {
            TimerId::Update => TIMER_UPDATE,
            TimerId::Animation => TIMER_ANIMATION,
        }
    }

    /// The number under which the timer is registered with the window.
    pub fn id(&self) -> (id: usize)
        ensures
            id == self.spec_id(),
    {
        match self {
            TimerId::Update => TIMER_UPDATE,
            TimerId::Animation => TIMER_ANIMATION,
        }
    }
}

/// One thing to do to the overlay window or around it.
#[derive(Debug, Clone, Copy, PartialEq, Eq)]
pub enum WindowAction {
    /// Stretch the overlay over `screen` and keep it topmost, without
    /// activating it.
    Reposition { screen: VirtualScreen },
    /// Clip the overlay to the backdrop minus the disc of `radius` around
    /// `cursor_pos`.
    ApplyRegion { cursor_pos: Position, screen: VirtualScreen, radius: i32 },
    /// Remove the clip shape.
    ClearRegion,
    /// Show the overlay without activating it.
    ShowOverlay,
    /// Hide the overlay.
    HideOverlay,
    /// Start `timer` with a period of `interval_ms` milliseconds.
    StartTimer { timer: TimerId, interval_ms: u32 },
    /// Stop `timer`.
    StopTimer { timer: TimerId },
    /// Set the opacity of the backdrop.
    SetOpacity { opacity: u8 },
    /// Have the backdrop painted anew.
    Repaint,
    /// Fill the backdrop with `color` now.
    PaintBackground { color: u32 },
    /// Store `settings` for the next start.
    SaveSettings { settings: Settings },
    /// Pop up the context menu of the tray icon.
    ShowTrayMenu,
    /// Open the settings dialog.
    OpenSettings,
    /// Take the icon out of the system tray.
    RemoveTrayIcon,
    /// End the message loop.
    Quit,
}

/// What was read from the system just before a message is handled.
#[derive(Debug, Clone, Copy, PartialEq, Eq)]
pub struct Observation {
    /// Where the cursor is; `None` when the query failed.
    pub cursor: Option<Position>,
    /// The rectangle that encloses all monitors.
    pub screen: VirtualScreen,
    /// The monotonic clock, in milliseconds.
    pub now: u64,
}

/// The kinds of message that the overlay window tells apart.
#[derive(Debug, Clone, Copy, PartialEq, Eq)]
pub enum WindowMessage {
    /// A request to show the spotlight.
    ShowSpotlight,
    /// A request to hide the spotlight.
    HideSpotlight,
    /// A tick of the follow timer.
    UpdateTick,
    /// A tick of the animation timer.
    AnimationTick,
    /// A tick of a timer that is not one of ours.
    OtherTimer,
    /// Mouse activity on the tray icon; `lparam` holds the mouse message.
    TrayIcon { lparam: isize },
    /// A menu command.
    Command { id: u32 },
    /// The window is being destroyed.
    Destroy,
    /// The background is to be painted.
    EraseBackground,
    /// Anything else; left to the default window procedure.
    Other,
}

/// How the window procedure answers a message.
#[derive(Debug, Clone, Copy, PartialEq, Eq)]
pub enum Reply {
    /// The message was handled; `result` goes back to the sender.
    Handled { result: isize },
    /// The message goes on to the default window procedure.
    NotHandled,
}

/// What the window procedure decided: the actions to carry out, in order, and
/// the answer to the message.
pub struct WindowResponse {
    pub actions: Vec<WindowAction>,
    pub reply: Reply,
}

/// The state after a request to show the spotlight: nothing changes while it
/// is shown already; else the overlay becomes visible at the cursor, the rest
/// period starts anew, and the opening animation begins if it is enabled.
pub open spec fn state_after_show(
    state: GlobalState,
    settings: Settings,
    cursor_pos: Position,
    now: u64,
) -> GlobalState {
    if state.active {
        state
    } else {
        let shown = (GlobalState { active: true, ..state }).after_move(cursor_pos, now);
        if settings.animation_enabled {
            shown.after_animation_start(settings.animation_initial_radius, now)
        } else {
            shown
        }
    }
}

/// The actions of a request to show the spotlight.
pub open spec fn actions_of_show(
    state: GlobalState,
    settings: Settings,
    cursor_pos: Position,
    screen: VirtualScreen,
) -> Seq<WindowAction> {
    if state.active {
        seq![]
    } else if settings.animation_enabled {
        seq![
            WindowAction::Reposition { screen },
            WindowAction::ApplyRegion {
                cursor_pos,
                screen,
                radius: settings.animation_initial_radius,
            },
            WindowAction::StartTimer {
                timer: TimerId::Animation,
                interval_ms: ConfigDefaults::ANIMATION_INTERVAL_MS,
            },
            WindowAction::ShowOverlay,
            WindowAction::StartTimer {
                timer: TimerId::Update,
                interval_ms: ConfigDefaults::UPDATE_INTERVAL_MS,
            },
        ]
    } else {
        seq![
            WindowAction::Reposition { screen },
            WindowAction::ApplyRegion { cursor_pos, screen, radius: settings.spotlight_radius },
            WindowAction::ShowOverlay,
            WindowAction::StartTimer {
                timer: TimerId::Update,
                interval_ms: ConfigDefaults::UPDATE_INTERVAL_MS,
            },
        ]
    }
}

/// The state after a request to hide the spotlight: hidden, with no animation
/// in flight.
pub open spec fn state_after_hide(state: GlobalState) -> GlobalState {
    if state.active {
        GlobalState { active: false, animating: false, ..state }
    } else {
        state
    }
}

/// The actions of a request to hide the spotlight: none while it is hidden
/// already; else both timers that run are stopped, the overlay is hidden and
/// its shape removed.
pub open spec fn actions_of_hide(state: GlobalState) -> Seq<WindowAction> {
    if !state.active {
        seq![]
    } else if state.animating {
        seq![
            WindowAction::StopTimer { timer: TimerId::Animation },
            WindowAction::StopTimer { timer: TimerId::Update },
            WindowAction::HideOverlay,
            WindowAction::ClearRegion,
        ]
    } else {
        seq![
            WindowAction::StopTimer { timer: TimerId::Update },
            WindowAction::HideOverlay,
            WindowAction::ClearRegion,
        ]
    }
}

/// Whether a follow tick sees the cursor somewhere else than last time.  A
/// failed query counts as no movement.
pub open spec fn cursor_moved(state: GlobalState, cursor: Option<Position>) -> bool {
    match cursor {
        Some(pos) => pos != state.last_position(),
        None => false,
    }
}

/// Whether the cursor has been at rest for longer than the configured delay.
pub open spec fn auto_hide_due(state: GlobalState, settings: Settings, now: u64) -> bool {
    elapsed_ms(state.last_move_time, now) > settings.auto_hide_delay_ms
}

/// The radius with which the spotlight is drawn at present: the animated one
/// while an animation is in flight, the configured one otherwise.
pub open spec fn current_radius(state: GlobalState, settings: Settings) -> i32 {
    if state.animating {
        state.animation_current_radius
    } else {
        settings.spotlight_radius
    }
}

/// The state after a follow tick.
pub open spec fn state_after_update(
    state: GlobalState,
    settings: Settings,
    cursor: Option<Position>,
    now: u64,
) -> GlobalState {
    if !state.active {
        state
    } else if cursor_moved(state, cursor) {
        state.after_move(cursor->Some_0, now)
    } else if auto_hide_due(state, settings, now) {
        state_after_hide(state)
    } else {
        state
    }
}

/// The actions of a follow tick.
pub open spec fn actions_of_update(
    state: GlobalState,
    settings: Settings,
    cursor: Option<Position>,
    screen: VirtualScreen,
    now: u64,
) -> Seq<WindowAction> {
    if !state.active {
        seq![]
    } else if cursor_moved(state, cursor) {
        seq![
            WindowAction::ApplyRegion {
                cursor_pos: cursor->Some_0,
                screen,
                radius: current_radius(state, settings),
            },
        ]
    } else if auto_hide_due(state, settings, now) {
        actions_of_hide(state)
    } else {
        seq![]
    }
}

/// Whether the animation in flight has run its full time.
pub open spec fn animation_is_over(state: GlobalState, settings: Settings, now: u64) -> bool {
    elapsed_ms(state.animation_start_time, now) >= settings.animation_duration_ms
}

/// The radius of the animation in flight at time `now`, computed from the
/// time since its start and not from the radius drawn before.
pub open spec fn animated_radius(state: GlobalState, settings: Settings, now: u64) -> int {
    interpolated_radius(
        settings.animation_initial_radius as int,
        settings.spotlight_radius as int,
        elapsed_ms(state.animation_start_time, now) as nat,
        settings.animation_duration_ms as nat,
    )
}

/// The state after an animation tick.
pub open spec fn state_after_animate(
    state: GlobalState,
    settings: Settings,
    now: u64,
) -> GlobalState {
    if !state.animating {
        state
    } else if animation_is_over(state, settings, now) {
        GlobalState { animating: false, ..state }
    } else {
        GlobalState {
            animation_current_radius: animated_radius(state, settings, now) as i32,
            ..state
        }
    }
}

/// The actions of an animation tick.
pub open spec fn actions_of_animate(
    state: GlobalState,
    settings: Settings,
    screen: VirtualScreen,
    now: u64,
) -> Seq<WindowAction> {
    if !state.animating {
        seq![]
    } else if animation_is_over(state, settings, now) {
        seq![
            WindowAction::StopTimer { timer: TimerId::Animation },
            WindowAction::ApplyRegion {
                cursor_pos: state.last_position(),
                screen,
                radius: settings.spotlight_radius,
            },
        ]
    } else {
        seq![
            WindowAction::ApplyRegion {
                cursor_pos: state.last_position(),
                screen,
                radius: animated_radius(state, settings, now) as i32,
            },
        ]
    }
}

/// Shows the spotlight at `cursor_pos`, unless it is shown already.
pub fn show_spotlight(
    state: &mut GlobalState,
    config: &RuntimeConfig,
    cursor_pos: Position,
    screen: VirtualScreen,
    now: u64,
) -> (actions: Vec<WindowAction>)
    ensures
        *final(state) == state_after_show(*old(state), config@, cursor_pos, now),
        actions@ == actions_of_show(*old(state), config@, cursor_pos, screen),
        old(state).wf() ==> final(state).wf(),
{
    let mut actions: Vec<WindowAction> = Vec::new();
    if state.is_active() {
        return actions;
    }
    state.set_active(true);
    state.update_position(cursor_pos, now);
    actions.push(WindowAction::Reposition { screen });
    if config.animation_enabled() {
        state.start_animation(config.animation_initial_radius(), now);
        let initial_radius = state.get_animation_radius();
        actions.push(WindowAction::ApplyRegion { cursor_pos, screen, radius: initial_radius });
        actions.push(
            WindowAction::StartTimer {
                timer: TimerId::Animation,
                interval_ms: ConfigDefaults::ANIMATION_INTERVAL_MS,
            },
        );
    } else {
        actions.push(
            WindowAction::ApplyRegion { cursor_pos, screen, radius: config.spotlight_radius() },
        );
    }
    actions.push(WindowAction::ShowOverlay);
    actions.push(
        WindowAction::StartTimer {
            timer: TimerId::Update,
            interval_ms: ConfigDefaults::UPDATE_INTERVAL_MS,
        },
    );
    actions
}

/// Hides the spotlight, unless it is hidden already.
pub fn hide_spotlight(state: &mut GlobalState) -> (actions: Vec<WindowAction>)
    ensures
        *final(state) == state_after_hide(*old(state)),
        actions@ == actions_of_hide(*old(state)),
        !final(state).active,
        old(state).wf() ==> final(state).wf(),
{
    let mut actions: Vec<WindowAction> = Vec::new();
    if !state.is_active() {
        return actions;
    }
    state.set_active(false);
    if state.is_animating() {
        state.stop_animation();
        actions.push(WindowAction::StopTimer { timer: TimerId::Animation });
    }
    actions.push(WindowAction::StopTimer { timer: TimerId::Update });
    actions.push(WindowAction::HideOverlay);
    actions.push(WindowAction::ClearRegion);
    actions
}

/// Handles a follow tick: the hole follows a cursor that moved, and the
/// spotlight hides once the cursor has rested for longer than the configured
/// delay.  `cursor` is `None` when the position could not be read, which
/// counts as no movement.
pub fn update_spotlight(
    state: &mut GlobalState,
    config: &RuntimeConfig,
    cursor: Option<Position>,
    screen: VirtualScreen,
    now: u64,
) -> (actions: Vec<WindowAction>)
    ensures
        *final(state) == state_after_update(*old(state), config@, cursor, now),
        actions@ == actions_of_update(*old(state), config@, cursor, screen, now),
        old(state).wf() ==> final(state).wf(),
{
    if !state.is_active() {
        return Vec::new();
    }
    let last_pos = state.get_last_position();
    let moved_to: Option<Position> = match cursor {
        Some(current_pos) => if current_pos.same_as(&last_pos) {
            None
        } else {
            Some(current_pos)
        },
        None => None,
    };
    match moved_to {
        Some(current_pos) => {
            state.update_position(current_pos, now);
            let radius = if state.is_animating() {
                state.get_animation_radius()
            } else {
                config.spotlight_radius()
            };
            let mut actions: Vec<WindowAction> = Vec::new();
            actions.push(WindowAction::ApplyRegion { cursor_pos: current_pos, screen, radius });
            actions
        },
        None => {
            if state.time_since_last_move(now) > config.auto_hide_delay_ms() {
                hide_spotlight(state)
            } else {
                Vec::new()
            }
        },
    }
}

/// Handles an animation tick: the radius moves on toward the configured one,
/// and at the end of the animation the spotlight is drawn once with exactly
/// the configured radius and the animation timer stops.
pub fn animate_spotlight(
    state: &mut GlobalState,
    config: &RuntimeConfig,
    screen: VirtualScreen,
    now: u64,
) -> (actions: Vec<WindowAction>)
    ensures
        *final(state) == state_after_animate(*old(state), config@, now),
        actions@ == actions_of_animate(*old(state), config@, screen, now),
        old(state).wf() ==> final(state).wf(),
{
    let mut actions: Vec<WindowAction> = Vec::new();
    if !state.is_animating() {
        return actions;
    }
    let elapsed = state.animation_elapsed_time(now);
    let animation_duration = config.animation_duration_ms();
    let cursor_pos = state.get_last_position();
    if elapsed >= animation_duration {
        state.stop_animation();
        actions.push(WindowAction::StopTimer { timer: TimerId::Animation });
        actions.push(
            WindowAction::ApplyRegion { cursor_pos, screen, radius: config.spotlight_radius() },
        );
        return actions;
    }
    let current_radius = interpolate_radius(
        config.animation_initial_radius(),
        config.spotlight_radius(),
        elapsed,
        animation_duration,
    );
    proof {
        lemma_interpolation_between(
            config@.animation_initial_radius as int,
            config@.spotlight_radius as int,
            elapsed as nat,
            animation_duration as nat,
        );
    }
    state.update_animation_radius(current_radius);
    actions.push(WindowAction::ApplyRegion { cursor_pos, screen, radius: current_radius });
    actions
}

/// The kind of a window message, from its number and its two parameters.
pub open spec fn message_kind(msg: u32, wparam: usize, lparam: isize) -> WindowMessage {
    if msg == WM_USER_SHOW_SPOTLIGHT {
        WindowMessage::ShowSpotlight
    } else if msg == WM_USER_HIDE_SPOTLIGHT {
        WindowMessage::HideSpotlight
    } else if msg == WM_TIMER {
        if wparam == TIMER_UPDATE {
            WindowMessage::UpdateTick
        } else if wparam == TIMER_ANIMATION {
            WindowMessage::AnimationTick
        } else {
            WindowMessage::OtherTimer
        }
    } else if msg == WM_TRAYICON {
        WindowMessage::TrayIcon { lparam }
    } else if msg == WM_COMMAND {
        WindowMessage::Command { id: wparam as u32 }
    } else if msg == WM_DESTROY {
        WindowMessage::Destroy
    } else if msg == WM_ERASEBKGND {
        WindowMessage::EraseBackground
    } else {
        WindowMessage::Other
    }
}

/// Tells the kinds of window message apart.  The identifier of a command is
/// the low 32 bits of `wparam`.
pub fn classify_message(msg: u32, wparam: usize, lparam: isize) -> (kind: WindowMessage)
    ensures
        kind == message_kind(msg, wparam, lparam),
{
    if msg == WM_USER_SHOW_SPOTLIGHT {
        WindowMessage::ShowSpotlight
    } else if msg == WM_USER_HIDE_SPOTLIGHT {
        WindowMessage::HideSpotlight
    } else if msg == WM_TIMER {
        if wparam == TIMER_UPDATE {
            WindowMessage::UpdateTick
        } else if wparam == TIMER_ANIMATION {
            WindowMessage::AnimationTick
        } else {
            WindowMessage::OtherTimer
        }
    } else if msg == WM_TRAYICON {
        WindowMessage::TrayIcon { lparam }
    } else if msg == WM_COMMAND {
        WindowMessage::Command {
            id: #[verifier::truncate]
            (wparam as u32),
        }
    } else if msg == WM_DESTROY {
        WindowMessage::Destroy
    } else if msg == WM_ERASEBKGND {
        WindowMessage::EraseBackground
    } else {
        WindowMessage::Other
    }
}

/// Where the cursor is taken to be when the spotlight is shown: a cursor that
/// could not be read counts as lying at the origin.
pub open spec fn cursor_or_origin(cursor: Option<Position>) -> Position {
    match cursor {
        Some(pos) => pos,
        None => Position { x: 0, y: 0 },
    }
}

/// The state after a window message of kind `kind`.
pub open spec fn state_after_message(
    state: GlobalState,
    settings: Settings,
    kind: WindowMessage,
    seen: Observation,
) -> GlobalState {
    match kind {
        WindowMessage::ShowSpotlight => state_after_show(
            state,
            settings,
            cursor_or_origin(seen.cursor),
            seen.now,
        ),
        WindowMessage::HideSpotlight => state_after_hide(state),
        WindowMessage::UpdateTick => state_after_update(state, settings, seen.cursor, seen.now),
        WindowMessage::AnimationTick => state_after_animate(state, settings, seen.now),
        _ => state,
    }
}

/// The actions of a window message of kind `kind`.
pub open spec fn actions_of_message(
    state: GlobalState,
    settings: Settings,
    kind: WindowMessage,
    seen: Observation,
) -> Seq<WindowAction> {
    match kind {
        WindowMessage::ShowSpotlight => actions_of_show(
            state,
            settings,
            cursor_or_origin(seen.cursor),
            seen.screen,
        ),
        WindowMessage::HideSpotlight => actions_of_hide(state),
        WindowMessage::UpdateTick => actions_of_update(
            state,
            settings,
            seen.cursor,
            seen.screen,
            seen.now,
        ),
        WindowMessage::AnimationTick => actions_of_animate(state, settings, seen.screen, seen.now),
        WindowMessage::OtherTimer => seq![],
        WindowMessage::TrayIcon { lparam } => match tray_message_action(lparam) {
            Some(action) => seq![action],
            None => seq![],
        },
        WindowMessage::Command { id } => if id == IDM_EXIT {
            seq![WindowAction::RemoveTrayIcon, WindowAction::Quit]
        } else {
            match tray_command_action(id) {
                Some(action) => seq![action],
                None => seq![],
            }
        },
        WindowMessage::Destroy => seq![WindowAction::RemoveTrayIcon, WindowAction::Quit],
        WindowMessage::EraseBackground => seq![
            WindowAction::PaintBackground { color: settings.backdrop_color },
        ],
        WindowMessage::Other => seq![],
    }
}

/// The answer to a window message of kind `kind`.
pub open spec fn reply_to_message(kind: WindowMessage) -> Reply {
    match kind {
        WindowMessage::Other => Reply::NotHandled,
        WindowMessage::EraseBackground => Reply::Handled { result: 1 },
        _ => Reply::Handled { result: 0 },
    }
}

/// Handles one message to the overlay window: tells its kind, makes the
/// transition that belongs to it, and answers with the actions to carry out
/// and the reply to give.
pub fn window_proc(
    state: &mut GlobalState,
    config: &RuntimeConfig,
    msg: u32,
    wparam: usize,
    lparam: isize,
    seen: Observation,
) -> (response: WindowResponse)
    ensures
        *final(state) == state_after_message(
            *old(state),
            config@,
            message_kind(msg, wparam, lparam),
            seen,
        ),
        response.actions@ == actions_of_message(
            *old(state),
            config@,
            message_kind(msg, wparam, lparam),
            seen,
        ),
        response.reply == reply_to_message(message_kind(msg, wparam, lparam)),
        old(state).wf() ==> final(state).wf(),
{
    match classify_message(msg, wparam, lparam) {
        WindowMessage::ShowSpotlight => {
            let cursor_pos = match seen.cursor {
                Some(pos) => pos,
                None => Position::new(0, 0),
            };
            let actions = show_spotlight(state, config, cursor_pos, seen.screen, seen.now);
            WindowResponse { actions, reply: Reply::Handled { result: 0 } }
        },
        WindowMessage::HideSpotlight => {
            let actions = hide_spotlight(state);
            WindowResponse { actions, reply: Reply::Handled { result: 0 } }
        },
        WindowMessage::UpdateTick => {
            let actions = update_spotlight(state, config, seen.cursor, seen.screen, seen.now);
            WindowResponse { actions, reply: Reply::Handled { result: 0 } }
        },
        WindowMessage::AnimationTick => {
            let actions = animate_spotlight(state, config, seen.screen, seen.now);
            WindowResponse { actions, reply: Reply::Handled { result: 0 } }
        },
        WindowMessage::OtherTimer => {
            WindowResponse { actions: Vec::new(), reply: Reply::Handled { result: 0 } }
        },
        WindowMessage::TrayIcon { lparam } => {
            let mut actions: Vec<WindowAction> = Vec::new();
            match handle_tray_message(lparam) {
                Some(action) => {
                    actions.push(action);
                },
                None => {},
            }
            WindowResponse { actions, reply: Reply::Handled { result: 0 } }
        },
        WindowMessage::Command { id } => {
            let mut actions: Vec<WindowAction> = Vec::new();
            if id == IDM_EXIT {
                actions.push(WindowAction::RemoveTrayIcon);
                actions.push(WindowAction::Quit);
            } else {
                match handle_tray_command(id) {
                    Some(action) => {
                        actions.push(action);
                    },
                    None => {},
                }
            }
            WindowResponse { actions, reply: Reply::Handled { result: 0 } }
        },
        WindowMessage::Destroy => {
            let mut actions: Vec<WindowAction> = Vec::new();
            actions.push(WindowAction::RemoveTrayIcon);
            actions.push(WindowAction::Quit);
            WindowResponse { actions, reply: Reply::Handled { result: 0 } }
        },
        WindowMessage::EraseBackground => {
            let mut actions: Vec<WindowAction> = Vec::new();
            actions.push(WindowAction::PaintBackground { color: config.backdrop_color() });
            WindowResponse { actions, reply: Reply::Handled { result: 1 } }
        },
        WindowMessage::Other => {
            WindowResponse { actions: Vec::new(), reply: Reply::NotHandled }
        },
    }
}

/// Showing twice in a row is showing once: after the first request the
/// spotlight is shown, and a second request, whatever it observes, changes
/// nothing and starts no timer.
pub proof fn lemma_show_is_idempotent(
    state: GlobalState,
    settings: Settings,
    cursor_pos: Position,
    now: u64,
    later_settings: Settings,
    later_cursor_pos: Position,
    later_screen: VirtualScreen,
    later: u64,
)
    ensures
        ({
            let shown = state_after_show(state, settings, cursor_pos, now);
            &&& shown.active
            &&& state_after_show(shown, later_settings, later_cursor_pos, later) == shown
            &&& actions_of_show(shown, later_settings, later_cursor_pos, later_screen).len() == 0
        }),
{
}

/// Hiding a hidden spotlight does nothing: the state stays as it is, and no
/// timer or overlay is touched.  So hiding twice in a row is hiding once.
pub proof fn lemma_hide_is_idempotent(state: GlobalState)
    ensures
        !state.active ==> state_after_hide(state) == state && actions_of_hide(state).len() == 0,
        !state_after_hide(state).active,
        state_after_hide(state_after_hide(state)) == state_after_hide(state),
        actions_of_hide(state_after_hide(state)).len() == 0,
{
}

/// Hiding a shown spotlight stops every timer that runs: the follow timer in
/// any case, and the animation timer while an animation is in flight.
pub proof fn lemma_hide_stops_the_timers(state: GlobalState)
    requires
        state.active,
    ensures
        actions_of_hide(state).contains((WindowAction::StopTimer { timer: TimerId::Update })),
        state.animating ==> actions_of_hide(state).contains(
            (WindowAction::StopTimer { timer: TimerId::Animation }),
        ),
        !state_after_hide(state).animating,
{
    let actions = actions_of_hide(state);
    if state.animating {
        assert(actions[0] == WindowAction::StopTimer { timer: TimerId::Animation });
        assert(actions[1] == WindowAction::StopTimer { timer: TimerId::Update });
    } else {
        assert(actions[0] == WindowAction::StopTimer { timer: TimerId::Update });
    }
}

/// While the cursor rests, a follow tick hides the spotlight exactly when the
/// rest has lasted longer than the configured delay.  At the delay itself the
/// spotlight stays, untouched.
pub proof fn lemma_auto_hide_threshold(
    state: GlobalState,
    settings: Settings,
    cursor: Option<Position>,
    screen: VirtualScreen,
    now: u64,
)
    requires
        state.active,
        !cursor_moved(state, cursor),
    ensures
        !state_after_update(state, settings, cursor, now).active <==> elapsed_ms(
            state.last_move_time,
            now,
        ) > settings.auto_hide_delay_ms,
        elapsed_ms(state.last_move_time, now) <= settings.auto_hide_delay_ms ==> ({
            &&& state_after_update(state, settings, cursor, now) == state
            &&& actions_of_update(state, settings, cursor, screen, now).len() == 0
        }),
        elapsed_ms(state.last_move_time, now) > settings.auto_hide_delay_ms ==> ({
            &&& state_after_update(state, settings, cursor, now) == state_after_hide(state)
            &&& actions_of_update(state, settings, cursor, screen, now) == actions_of_hide(state)
        }),
{
}

/// A cursor that moved keeps the spotlight shown, however long it had rested
/// before, and the rest period starts anew.
pub proof fn lemma_movement_keeps_visible(
    state: GlobalState,
    settings: Settings,
    cursor: Option<Position>,
    now: u64,
)
    requires
        state.active,
        cursor_moved(state, cursor),
    ensures
        state_after_update(state, settings, cursor, now).active,
        state_after_update(state, settings, cursor, now).last_position() == cursor->Some_0,
        state_after_update(state, settings, cursor, now).last_move_time == now,
{
}

/// A tick that arrives while the spotlight is hidden finds nothing to do.
pub proof fn lemma_ticks_idle_when_hidden(
    state: GlobalState,
    settings: Settings,
    cursor: Option<Position>,
    screen: VirtualScreen,
    now: u64,
)
    requires
        state.wf(),
        !state.active,
    ensures
        state_after_update(state, settings, cursor, now) == state,
        actions_of_update(state, settings, cursor, screen, now).len() == 0,
        state_after_animate(state, settings, now) == state,
        actions_of_animate(state, settings, screen, now).len() == 0,
{
}

/// Once the animation has run its full time, the next tick ends it: the
/// animation timer stops and the spotlight is drawn with exactly the
/// configured radius.
pub proof fn lemma_animation_ends_at_target(
    state: GlobalState,
    settings: Settings,
    screen: VirtualScreen,
    now: u64,
)
    requires
        state.animating,
        elapsed_ms(state.animation_start_time, now) >= settings.animation_duration_ms,
    ensures
        !state_after_animate(state, settings, now).animating,
        current_radius(state_after_animate(state, settings, now), settings)
            == settings.spotlight_radius,
        actions_of_animate(state, settings, screen, now) == seq![
            (WindowAction::StopTimer { timer: TimerId::Animation }),
            (WindowAction::ApplyRegion {
                cursor_pos: state.last_position(),
                screen,
                radius: settings.spotlight_radius,
            }),
        ],
{
}

/// Before its end, a tick of the animation keeps it in flight and draws a
/// radius between the initial and the configured one.
pub proof fn lemma_animation_stays_between(state: GlobalState, settings: Settings, now: u64)
    requires
        state.animating,
        elapsed_ms(state.animation_start_time, now) < settings.animation_duration_ms,
    ensures
        ({
            let next = state_after_animate(state, settings, now);
            let radius = next.animation_current_radius;
            &&& next.animating
            &&& radius == animated_radius(state, settings, now)
            &&& (settings.animation_initial_radius <= radius <= settings.spotlight_radius)
                || (settings.spotlight_radius <= radius <= settings.animation_initial_radius)
        }),
{
    lemma_interpolation_between(
        settings.animation_initial_radius as int,
        settings.spotlight_radius as int,
        elapsed_ms(state.animation_start_time, now) as nat,
        settings.animation_duration_ms as nat,
    );
}

/// An animation that starts with the showing of the spotlight is over after
/// the configured duration, whatever happened in between to the radius drawn:
/// each tick reckons from the start of the animation.
pub proof fn lemma_animation_reckons_from_start(
    state: GlobalState,
    other: GlobalState,
    settings: Settings,
    now: u64,
)
    requires
        state.animation_start_time == other.animation_start_time,
    ensures
        animated_radius(state, settings, now) == animated_radius(other, settings, now),
        animation_is_over(state, settings, now) == animation_is_over(other, settings, now),
{
}

/// In the first instant of an animation the radius is the initial one.
pub proof fn lemma_animation_begins_at_initial(state: GlobalState, settings: Settings)
    requires
        settings.animation_duration_ms > 0,
    ensures
        animated_radius(state, settings, state.animation_start_time)
            == settings.animation_initial_radius,
{
    lemma_interpolation_endpoints(
        settings.animation_initial_radius as int,
        settings.spotlight_radius as int,
        0,
        settings.animation_duration_ms as nat,
    );
}

/// Under a valid configuration every transition keeps the state well formed:
/// an animation is in flight only while the spotlight is shown, and its
/// radius is one that can be drawn.
pub proof fn lemma_transitions_keep_wf(
    state: GlobalState,
    settings: Settings,
    kind: WindowMessage,
    seen: Observation,
)
    requires
        state.wf(),
        settings.is_valid(),
    ensures
        state_after_message(state, settings, kind, seen).wf(),
{
    lemma_interpolation_between(
        settings.animation_initial_radius as int,
        settings.spotlight_radius as int,
        elapsed_ms(state.animation_start_time, seen.now) as nat,
        settings.animation_duration_ms as nat,
    );
}

/// Under a valid configuration a well-formed state never leads to a radius
/// that is zero or negative, or larger than the largest radius that the
/// configuration allows: the hole drawn is a true disc.
pub proof fn lemma_radius_is_drawable(state: GlobalState, settings: Settings)
    requires
        state.wf(),
        settings.is_valid(),
    ensures
        is_drawable_radius(current_radius(state, settings)),
        0 < current_radius(state, settings),
{
}

} // verus!
