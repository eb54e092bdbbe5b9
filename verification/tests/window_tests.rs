use spot_cursor::config::RuntimeConfig;
use spot_cursor::config::Settings;
use spot_cursor::settings_dialog::save_current_settings;
use spot_cursor::spotlight::window::animate_spotlight;
use spot_cursor::spotlight::window::classify_message;
use spot_cursor::spotlight::window::hide_spotlight;
use spot_cursor::spotlight::window::show_spotlight;
use spot_cursor::spotlight::window::update_spotlight;
use spot_cursor::spotlight::window::window_proc;
use spot_cursor::spotlight::window::Observation;
use spot_cursor::spotlight::window::Reply;
use spot_cursor::spotlight::window::TimerId;
use spot_cursor::spotlight::window::WindowAction;
use spot_cursor::spotlight::window::WindowMessage;
use spot_cursor::spotlight::GlobalState;
use spot_cursor::types::Position;
use spot_cursor::types::VirtualScreen;

fn screen() -> VirtualScreen {
    VirtualScreen { x: -1920, y: 0, width: 3840, height: 1080 }
}

fn steady_config() -> RuntimeConfig {
    let mut config = RuntimeConfig::new();
    config.set_animation_enabled(false);
    config
}

fn region(cursor_pos: Position, radius: i32) -> WindowAction {
    WindowAction::ApplyRegion { cursor_pos, screen: screen(), radius }
}

#[test]
fn timers_have_their_numbers() {
    assert_eq!(TimerId::Update.id(), 1);
    assert_eq!(TimerId::Animation.id(), 2);
}

#[test]
fn show_with_animation() {
    let config = RuntimeConfig::new();
    let mut state = GlobalState::new();
    let cursor = Position::new(100, 200);
    let actions = show_spotlight(&mut state, &config, cursor, screen(), 5000);
    assert_eq!(
        actions,
        vec![
            WindowAction::Reposition { screen: screen() },
            region(cursor, 600),
            WindowAction::StartTimer { timer: TimerId::Animation, interval_ms: 16 },
            WindowAction::ShowOverlay,
            WindowAction::StartTimer { timer: TimerId::Update, interval_ms: 16 },
        ]
    );
    assert_eq!(
        state,
        GlobalState {
            active: true,
            last_ctrl_time: 0,
            last_mouse_x: 100,
            last_mouse_y: 200,
            last_move_time: 5000,
            animating: true,
            animation_current_radius: 600,
            animation_start_time: 5000,
        }
    );
}

#[test]
fn show_without_animation() {
    let config = steady_config();
    let mut state = GlobalState::new();
    let cursor = Position::new(-5, 7);
    let actions = show_spotlight(&mut state, &config, cursor, screen(), 5000);
    assert_eq!(
        actions,
        vec![
            WindowAction::Reposition { screen: screen() },
            region(cursor, 100),
            WindowAction::ShowOverlay,
            WindowAction::StartTimer { timer: TimerId::Update, interval_ms: 16 },
        ]
    );
    assert_eq!(
        state,
        GlobalState {
            active: true,
            last_ctrl_time: 0,
            last_mouse_x: -5,
            last_mouse_y: 7,
            last_move_time: 5000,
            animating: false,
            animation_current_radius: 0,
            animation_start_time: 0,
        }
    );
}

#[test]
fn show_twice_is_show_once() {
    let config = RuntimeConfig::new();
    let mut state = GlobalState::new();
    show_spotlight(&mut state, &config, Position::new(1, 2), screen(), 5000);
    let shown = state;
    let again = show_spotlight(&mut state, &config, Position::new(30, 40), screen(), 5100);
    assert_eq!(again, vec![]);
    assert_eq!(state, shown);
    assert!(state.is_active());
}

#[test]
fn hide_a_steady_spotlight() {
    let config = steady_config();
    let mut state = GlobalState::new();
    show_spotlight(&mut state, &config, Position::new(1, 2), screen(), 5000);
    let shown = state;
    let actions = hide_spotlight(&mut state);
    assert_eq!(
        actions,
        vec![
            WindowAction::StopTimer { timer: TimerId::Update },
            WindowAction::HideOverlay,
            WindowAction::ClearRegion,
        ]
    );
    assert_eq!(state, GlobalState { active: false, ..shown });
}

#[test]
fn hide_during_the_animation_stops_both_timers() {
    let config = RuntimeConfig::new();
    let mut state = GlobalState::new();
    show_spotlight(&mut state, &config, Position::new(1, 2), screen(), 5000);
    let shown = state;
    let actions = hide_spotlight(&mut state);
    assert_eq!(
        actions,
        vec![
            WindowAction::StopTimer { timer: TimerId::Animation },
            WindowAction::StopTimer { timer: TimerId::Update },
            WindowAction::HideOverlay,
            WindowAction::ClearRegion,
        ]
    );
    assert_eq!(state, GlobalState { active: false, animating: false, ..shown });
}

#[test]
fn hide_while_hidden_does_nothing() {
    let mut state = GlobalState::new();
    assert_eq!(hide_spotlight(&mut state), vec![]);
    assert_eq!(state, GlobalState::new());

    let config = RuntimeConfig::new();
    show_spotlight(&mut state, &config, Position::new(1, 2), screen(), 5000);
    hide_spotlight(&mut state);
    let hidden = state;
    assert_eq!(hide_spotlight(&mut state), vec![]);
    assert_eq!(state, hidden);
}

#[test]
fn follow_tick_moves_the_hole_with_the_cursor() {
    let config = steady_config();
    let mut state = GlobalState::new();
    show_spotlight(&mut state, &config, Position::new(1, 2), screen(), 5000);
    let shown = state;
    let moved = Position::new(11, 2);
    let actions = update_spotlight(&mut state, &config, Some(moved), screen(), 9000);
    assert_eq!(actions, vec![region(moved, 100)]);
    assert_eq!(
        state,
        GlobalState { last_mouse_x: 11, last_mouse_y: 2, last_move_time: 9000, ..shown }
    );
}

#[test]
fn follow_tick_during_the_animation_draws_the_animated_radius() {
    let config = RuntimeConfig::new();
    let mut state = GlobalState::new();
    show_spotlight(&mut state, &config, Position::new(1, 2), screen(), 5000);
    animate_spotlight(&mut state, &config, screen(), 5150);
    let moved = Position::new(1, 3);
    let actions = update_spotlight(&mut state, &config, Some(moved), screen(), 5160);
    assert_eq!(actions, vec![region(moved, 350)]);
    assert!(state.is_animating());
}

#[test]
fn auto_hide_fires_only_beyond_the_delay() {
    let config = steady_config();
    let cursor = Position::new(1, 2);

    let mut state = GlobalState::new();
    show_spotlight(&mut state, &config, cursor, screen(), 5000);
    let shown = state;
    assert_eq!(update_spotlight(&mut state, &config, Some(cursor), screen(), 6999), vec![]);
    assert_eq!(state, shown);
    assert_eq!(update_spotlight(&mut state, &config, Some(cursor), screen(), 7000), vec![]);
    assert_eq!(state, shown);
    assert!(state.is_active());

    let actions = update_spotlight(&mut state, &config, Some(cursor), screen(), 7001);
    assert_eq!(
        actions,
        vec![
            WindowAction::StopTimer { timer: TimerId::Update },
            WindowAction::HideOverlay,
            WindowAction::ClearRegion,
        ]
    );
    assert!(!state.is_active());
}

#[test]
fn auto_hide_follows_the_configured_delay() {
    let mut config = steady_config();
    config.set_auto_hide_delay_ms(500);
    let cursor = Position::new(1, 2);
    let mut state = GlobalState::new();
    show_spotlight(&mut state, &config, cursor, screen(), 0);
    update_spotlight(&mut state, &config, Some(cursor), screen(), 500);
    assert!(state.is_active());
    update_spotlight(&mut state, &config, Some(cursor), screen(), 501);
    assert!(!state.is_active());
}

#[test]
fn movement_starts_the_rest_period_anew() {
    let config = steady_config();
    let mut state = GlobalState::new();
    show_spotlight(&mut state, &config, Position::new(1, 2), screen(), 5000);
    // Long past the delay, but the cursor has moved.
    update_spotlight(&mut state, &config, Some(Position::new(9, 9)), screen(), 9000);
    assert!(state.is_active());
    update_spotlight(&mut state, &config, Some(Position::new(9, 9)), screen(), 11000);
    assert!(state.is_active());
    update_spotlight(&mut state, &config, Some(Position::new(9, 9)), screen(), 11001);
    assert!(!state.is_active());
}

#[test]
fn a_failed_cursor_query_counts_as_no_movement() {
    let config = steady_config();
    let mut state = GlobalState::new();
    show_spotlight(&mut state, &config, Position::new(1, 2), screen(), 5000);
    let shown = state;
    assert_eq!(update_spotlight(&mut state, &config, None, screen(), 6000), vec![]);
    assert_eq!(state, shown);
    let actions = update_spotlight(&mut state, &config, None, screen(), 7001);
    assert_eq!(actions.len(), 3);
    assert!(!state.is_active());
}

#[test]
fn follow_tick_while_hidden_does_nothing() {
    let config = RuntimeConfig::new();
    let mut state = GlobalState::new();
    let actions = update_spotlight(&mut state, &config, Some(Position::new(5, 5)), screen(), 99999);
    assert_eq!(actions, vec![]);
    assert_eq!(state, GlobalState::new());
}

#[test]
fn animation_tick_interpolates_from_the_start_time() {
    let config = RuntimeConfig::new();
    let cursor = Position::new(1, 2);
    let mut state = GlobalState::new();
    show_spotlight(&mut state, &config, cursor, screen(), 5000);
    let shown = state;

    assert_eq!(animate_spotlight(&mut state, &config, screen(), 5016), vec![region(cursor, 573)]);
    assert_eq!(state, GlobalState { animation_current_radius: 573, ..shown });

    // A late tick: the radius is that of its own time, not one step further.
    assert_eq!(animate_spotlight(&mut state, &config, screen(), 5150), vec![region(cursor, 350)]);
    assert_eq!(state, GlobalState { animation_current_radius: 350, ..shown });
    assert!(state.is_animating());
}

#[test]
fn animation_ends_with_exactly_the_configured_radius() {
    let config = RuntimeConfig::new();
    let cursor = Position::new(1, 2);
    let mut state = GlobalState::new();
    show_spotlight(&mut state, &config, cursor, screen(), 5000);
    animate_spotlight(&mut state, &config, screen(), 5299);
    assert!(state.is_animating());
    assert_eq!(state.get_animation_radius(), 102);

    let actions = animate_spotlight(&mut state, &config, screen(), 5300);
    assert_eq!(
        actions,
        vec![WindowAction::StopTimer { timer: TimerId::Animation }, region(cursor, 100)]
    );
    assert!(!state.is_animating());
    assert!(state.is_active());

    // The timer is stopped; a straggling tick finds nothing to do.
    let done = state;
    assert_eq!(animate_spotlight(&mut state, &config, screen(), 5316), vec![]);
    assert_eq!(state, done);
}

#[test]
fn animation_that_overshoots_its_end_is_cleared_too() {
    let config = RuntimeConfig::new();
    let cursor = Position::new(1, 2);
    let mut state = GlobalState::new();
    show_spotlight(&mut state, &config, cursor, screen(), 5000);
    let actions = animate_spotlight(&mut state, &config, screen(), 9000);
    assert_eq!(
        actions,
        vec![WindowAction::StopTimer { timer: TimerId::Animation }, region(cursor, 100)]
    );
    assert!(!state.is_animating());
}

#[test]
fn animation_follows_the_last_position_seen() {
    let config = RuntimeConfig::new();
    let mut state = GlobalState::new();
    show_spotlight(&mut state, &config, Position::new(1, 2), screen(), 5000);
    update_spotlight(&mut state, &config, Some(Position::new(50, 60)), screen(), 5100);
    assert_eq!(
        animate_spotlight(&mut state, &config, screen(), 5150),
        vec![region(Position::new(50, 60), 350)]
    );
}

#[test]
fn animation_reads_the_configuration_at_every_tick() {
    let mut config = RuntimeConfig::new();
    let cursor = Position::new(1, 2);
    let mut state = GlobalState::new();
    show_spotlight(&mut state, &config, cursor, screen(), 5000);
    config.set_spotlight_radius(200);
    // 600 - 400 * 150 / 300 = 400
    assert_eq!(animate_spotlight(&mut state, &config, screen(), 5150), vec![region(cursor, 400)]);
    config.set_animation_duration_ms(150);
    assert_eq!(
        animate_spotlight(&mut state, &config, screen(), 5150),
        vec![WindowAction::StopTimer { timer: TimerId::Animation }, region(cursor, 200)]
    );
}

#[test]
fn messages_are_told_apart() {
    assert_eq!(classify_message(0x0401, 0, 0), WindowMessage::ShowSpotlight);
    assert_eq!(classify_message(0x0402, 7, -7), WindowMessage::HideSpotlight);
    assert_eq!(classify_message(0x0113, 1, 0), WindowMessage::UpdateTick);
    assert_eq!(classify_message(0x0113, 2, 0), WindowMessage::AnimationTick);
    assert_eq!(classify_message(0x0113, 3, 0), WindowMessage::OtherTimer);
    assert_eq!(classify_message(0x0113, 0, 0), WindowMessage::OtherTimer);
    assert_eq!(classify_message(0x0464, 1, 0x0205), WindowMessage::TrayIcon { lparam: 0x0205 });
    assert_eq!(classify_message(0x0111, 1001, 0), WindowMessage::Command { id: 1001 });
    assert_eq!(classify_message(0x0002, 0, 0), WindowMessage::Destroy);
    assert_eq!(classify_message(0x0014, 0, 0), WindowMessage::EraseBackground);
    assert_eq!(classify_message(0x0400, 0, 0), WindowMessage::Other);
    assert_eq!(classify_message(0x000F, 0, 0), WindowMessage::Other);
    assert_eq!(classify_message(0, 1, 1), WindowMessage::Other);
}

#[test]
fn a_command_is_the_low_half_of_its_parameter() {
    let wparam: usize = ((1usize << (usize::BITS - 1)) | (1usize << 31) | 1001) as usize;
    assert_eq!(
        classify_message(0x0111, wparam, 0),
        WindowMessage::Command { id: (1u32 << 31) | 1001 }
    );
}

fn seen(cursor: Option<Position>, now: u64) -> Observation {
    Observation { cursor, screen: screen(), now }
}

#[test]
fn window_proc_shows_and_hides() {
    let config = RuntimeConfig::new();
    let mut state = GlobalState::new();
    let cursor = Position::new(100, 200);
    let response = window_proc(&mut state, &config, 0x0401, 0, 0, seen(Some(cursor), 5000));
    assert_eq!(response.reply, Reply::Handled { result: 0 });
    assert_eq!(response.actions.len(), 5);
    assert_eq!(response.actions[1], region(cursor, 600));
    assert!(state.is_active());
    assert!(state.is_animating());

    let response = window_proc(&mut state, &config, 0x0402, 0, 0, seen(Some(cursor), 5050));
    assert_eq!(response.reply, Reply::Handled { result: 0 });
    assert_eq!(response.actions.len(), 4);
    assert!(!state.is_active());
    assert!(!state.is_animating());
}

#[test]
fn window_proc_shows_at_the_origin_when_the_cursor_is_unknown() {
    let config = steady_config();
    let mut state = GlobalState::new();
    state.update_position(Position::new(9, 9), 1);
    let response = window_proc(&mut state, &config, 0x0401, 0, 0, seen(None, 5000));
    assert_eq!(response.actions[1], region(Position::new(0, 0), 100));
    assert_eq!(state.get_last_position(), Position::new(0, 0));
}

#[test]
fn window_proc_runs_the_ticks() {
    let config = RuntimeConfig::new();
    let mut state = GlobalState::new();
    let cursor = Position::new(100, 200);
    window_proc(&mut state, &config, 0x0401, 0, 0, seen(Some(cursor), 5000));

    let response = window_proc(&mut state, &config, 0x0113, 2, 0, seen(Some(cursor), 5150));
    assert_eq!(response.reply, Reply::Handled { result: 0 });
    assert_eq!(response.actions, vec![region(cursor, 350)]);

    let moved = Position::new(101, 200);
    let response = window_proc(&mut state, &config, 0x0113, 1, 0, seen(Some(moved), 5160));
    assert_eq!(response.reply, Reply::Handled { result: 0 });
    assert_eq!(response.actions, vec![region(moved, 350)]);

    let before = state;
    let response = window_proc(&mut state, &config, 0x0113, 3, 0, seen(Some(cursor), 9999));
    assert_eq!(response.reply, Reply::Handled { result: 0 });
    assert_eq!(response.actions, vec![]);
    assert_eq!(state, before);
}

#[test]
fn window_proc_handles_tray_and_menu() {
    let config = RuntimeConfig::new();
    let mut state = GlobalState::new();
    let quiet = seen(None, 0);

    let response = window_proc(&mut state, &config, 0x0464, 0, 0x0205, quiet);
    assert_eq!(response.actions, vec![WindowAction::ShowTrayMenu]);
    assert_eq!(response.reply, Reply::Handled { result: 0 });

    let response = window_proc(&mut state, &config, 0x0464, 0, 0x0203, quiet);
    assert_eq!(response.actions, vec![WindowAction::OpenSettings]);

    let response = window_proc(&mut state, &config, 0x0464, 0, 0x0200, quiet);
    assert_eq!(response.actions, vec![]);
    assert_eq!(response.reply, Reply::Handled { result: 0 });

    let response = window_proc(&mut state, &config, 0x0111, 1000, 0, quiet);
    assert_eq!(response.actions, vec![WindowAction::OpenSettings]);

    let response = window_proc(&mut state, &config, 0x0111, 1001, 0, quiet);
    assert_eq!(response.actions, vec![WindowAction::RemoveTrayIcon, WindowAction::Quit]);
    assert_eq!(response.reply, Reply::Handled { result: 0 });

    let response = window_proc(&mut state, &config, 0x0111, 1002, 0, quiet);
    assert_eq!(response.actions, vec![]);
    assert_eq!(response.reply, Reply::Handled { result: 0 });

    let response = window_proc(&mut state, &config, 0x0002, 0, 0, quiet);
    assert_eq!(response.actions, vec![WindowAction::RemoveTrayIcon, WindowAction::Quit]);

    assert_eq!(state, GlobalState::new());
}

#[test]
fn window_proc_paints_with_the_configured_colour() {
    let mut config = RuntimeConfig::new();
    config.set_backdrop_color(0x00AA4488);
    let mut state = GlobalState::new();
    let response = window_proc(&mut state, &config, 0x0014, 0, 0, seen(None, 0));
    assert_eq!(response.actions, vec![WindowAction::PaintBackground { color: 0x00AA4488 }]);
    assert_eq!(response.reply, Reply::Handled { result: 1 });
}

#[test]
fn window_proc_leaves_other_messages_to_the_default() {
    let config = RuntimeConfig::new();
    let mut state = GlobalState::new();
    let response = window_proc(&mut state, &config, 0x000F, 1, 2, seen(None, 0));
    assert_eq!(response.actions, vec![]);
    assert_eq!(response.reply, Reply::NotHandled);
    assert_eq!(state, GlobalState::new());
}

#[test]
fn accepted_settings_are_pushed_and_stored() {
    let mut wanted = Settings::default();
    wanted.backdrop_opacity = 99;
    wanted.backdrop_color = 0x00112233;
    wanted.spotlight_radius = 250;
    let mut config = RuntimeConfig::new();
    assert_eq!(
        save_current_settings(&mut config, &wanted),
        Ok(vec![
            WindowAction::SetOpacity { opacity: 99 },
            WindowAction::Repaint,
            WindowAction::SaveSettings { settings: wanted },
        ])
    );
    assert_eq!(config.to_settings(), wanted);
}

#[test]
fn rejected_settings_change_nothing() {
    let mut wanted = Settings::default();
    wanted.backdrop_opacity = 99;
    wanted.spotlight_radius = 400;
    let mut config = RuntimeConfig::new();
    assert_eq!(
        save_current_settings(&mut config, &wanted),
        Err("Radio debe estar entre 50-300 píxeles".to_string())
    );
    assert_eq!(config.to_settings(), Settings::default());
}
