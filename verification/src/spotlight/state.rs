//! The state of the spotlight and the double-tap detector.

use vstd::prelude::*;

use crate::config::ConfigDefaults;
use crate::config::ConfigLimits;
use crate::config::RuntimeConfig;
use crate::types::Position;

verus! {

/// Milliseconds from `since` to `now` on a monotonic clock; zero when `now`
/// lies before `since`.
pub open spec fn elapsed_ms(since: u64, now: u64) -> u64 {
    if now >= since {
        (now - since) as u64
    } else {
        0
    }
}

/// Two Ctrl presses `elapsed` milliseconds apart are a double tap when the gap
/// is longer than the fixed floor and shorter than the configured window.
pub open spec fn is_double_tap(elapsed: u64, window: u64) -> bool {
    ConfigDefaults::DOUBLE_TAP_MIN_TIME_MS < elapsed < window
}

/// Whether `radius` is one that a valid configuration can lead to: not below
/// the smallest radius at rest, not above the largest radius that an
/// animation can begin with.
pub open spec fn is_drawable_radius(radius: i32) -> bool {
    ConfigLimits::SPOTLIGHT_RADIUS_MIN <= radius <= ConfigLimits::ANIMATION_INITIAL_RADIUS_MAX
}

/// Everything the spotlight remembers between two events.  All times are
/// readings of one monotonic millisecond clock.
#[derive(Debug, Clone, Copy, PartialEq, Eq)]
pub struct GlobalState {
    /// Whether the overlay is shown.
    pub active: bool,
    /// Time of the last Ctrl press.
    pub last_ctrl_time: u64,
    /// Last cursor position seen, in absolute screen coordinates.
    pub last_mouse_x: i32,
    pub last_mouse_y: i32,
    /// Time at which the cursor was last seen to move.
    pub last_move_time: u64,
    /// Whether an opening animation is in flight.
    pub animating: bool,
    /// Radius drawn at the last animation tick.
    pub animation_current_radius: i32,
    /// Time at which the animation in flight began.
    pub animation_start_time: u64,
}

impl GlobalState {
    /// The state at start-up: hidden, nothing seen yet.
    pub open spec fn initial() -> GlobalState {
        GlobalState {
            active: false,
            last_ctrl_time: 0,
            last_mouse_x: 0,
            last_mouse_y: 0,
            last_move_time: 0,
            animating: false,
            animation_current_radius: 0,
            animation_start_time: 0,
        }
    }

    /// An animation is in flight only while the overlay is shown, and the
    /// radius it has reached is one that can be drawn.
    pub open spec fn wf(self) -> bool {
        self.animating ==> self.active && is_drawable_radius(self.animation_current_radius)
    }

    /// The last cursor position seen.
    pub open spec fn last_position(self) -> Position {
        Position { x: self.last_mouse_x, y: self.last_mouse_y }
    }

    /// The state after the cursor was seen at `pos` at time `now`.
    pub open spec fn after_move(self, pos: Position, now: u64) -> GlobalState {
        GlobalState { last_mouse_x: pos.x, last_mouse_y: pos.y, last_move_time: now, ..self }
    }

    /// The state after a Ctrl press at time `now`: the press becomes the
    /// baseline for the next one, whatever it was itself.
    pub open spec fn after_ctrl_press(self, now: u64) -> GlobalState {
        GlobalState { last_ctrl_time: now, ..self }
    }

    /// Whether a Ctrl press at time `now` completes a double tap.
    pub open spec fn ctrl_press_is_double_tap(self, now: u64, window: u64) -> bool {
        is_double_tap(elapsed_ms(self.last_ctrl_time, now), window)
    }

    /// The state after an animation began at time `now` with `initial_radius`.
    pub open spec fn after_animation_start(self, initial_radius: i32, now: u64) -> GlobalState {
        GlobalState {
            animating: true,
            animation_current_radius: initial_radius,
            animation_start_time: now,
            ..self
        }
    }

    /// Builds the state at start-up.
    pub fn new() -> (state: Self)
        ensures
            state == GlobalState::initial(),
            state.wf(),
    {
        GlobalState {
            active: false,
            last_ctrl_time: 0,
            last_mouse_x: 0,
            last_mouse_y: 0,
            last_move_time: 0,
            animating: false,
            animation_current_radius: 0,
            animation_start_time: 0,
        }
    }

    pub fn is_active(&self) -> (active: bool)
        ensures
            active == self.active,
    {
        self.active
    }

    /// Records whether the overlay is shown, and nothing else.
    pub fn set_active(&mut self, active: bool)
        ensures
            *final(self) == (GlobalState { active, ..*old(self) }),
    {
        self.active = active;
    }

    pub fn get_last_position(&self) -> (pos: Position)
        ensures
            pos == self.last_position(),
    {
        Position::new(self.last_mouse_x, self.last_mouse_y)
    }

    /// Records that the cursor was seen at `pos` at time `now`.
    pub fn update_position(&mut self, pos: Position, now: u64)
        ensures
            *final(self) == old(self).after_move(pos, now),
            final(self).last_position() == pos,
    {
        self.last_mouse_x = pos.x;
        self.last_mouse_y = pos.y;
        self.last_move_time = now;
    }

    /// Milliseconds for which the cursor has been at rest at time `now`.
    pub fn time_since_last_move(&self, now: u64) -> (elapsed: u64)
        ensures
            elapsed == elapsed_ms(self.last_move_time, now),
    {
        now.saturating_sub(self.last_move_time)
    }

    /// Registers a Ctrl press at time `now` and tells whether it completes a
    /// double tap.  The press is recorded whatever the answer.
    pub fn register_ctrl_press(&mut self, now: u64, config: &RuntimeConfig) -> (double_tap: bool)
        ensures
            *final(self) == old(self).after_ctrl_press(now),
            double_tap == old(self).ctrl_press_is_double_tap(now, config@.double_tap_time_ms),
    {
        let elapsed: u64 = now.saturating_sub(self.last_ctrl_time);
        self.last_ctrl_time = now;
        elapsed > ConfigDefaults::DOUBLE_TAP_MIN_TIME_MS && elapsed < config.double_tap_time_ms()
    }

    /// Begins an animation at time `now`, drawn first with `initial_radius`.
    pub fn start_animation(&mut self, initial_radius: i32, now: u64)
        ensures
            *final(self) == old(self).after_animation_start(initial_radius, now),
    {
        self.animation_current_radius = initial_radius;
        self.animation_start_time = now;
        self.animating = true;
    }

    pub fn is_animating(&self) -> (animating: bool)
        ensures
            animating == self.animating,
    {
        self.animating
    }

    pub fn get_animation_radius(&self) -> (radius: i32)
        ensures
            radius == self.animation_current_radius,
    {
        self.animation_current_radius
    }

    /// Records the radius drawn at this tick and hands it back.
    pub fn update_animation_radius(&mut self, new_radius: i32) -> (radius: i32)
        ensures
            radius == new_radius,
            *final(self) == (GlobalState { animation_current_radius: new_radius, ..*old(self) }),
    {
        self.animation_current_radius = new_radius;
        new_radius
    }

    /// Ends the animation; the radius last drawn and the start time stay.
    pub fn stop_animation(&mut self)
        ensures
            *final(self) == (GlobalState { animating: false, ..*old(self) }),
    {
        self.animating = false;
    }

    /// Milliseconds for which the animation has been running at time `now`.
    pub fn animation_elapsed_time(&self, now: u64) -> (elapsed: u64)
        ensures
            elapsed == elapsed_ms(self.animation_start_time, now),
    {
        now.saturating_sub(self.animation_start_time)
    }

    /// A third Ctrl press is judged by its distance from the second alone:
    /// when the first one came makes no difference.
    pub proof fn lemma_press_is_judged_by_the_one_before(
        state: GlobalState,
        t1: u64,
        t2: u64,
        t3: u64,
        window: u64,
    )
        ensures
            state.after_ctrl_press(t1).after_ctrl_press(t2).ctrl_press_is_double_tap(t3, window)
                == is_double_tap(elapsed_ms(t2, t3), window),
    {
    }

    /// Of two Ctrl presses at times `t1 < t2`, the second completes a double
    /// tap exactly when the gap is longer than the floor and shorter than the
    /// window; a gap at or below the floor, or at or beyond the window, does
    /// not.  Either way the second press is the baseline for a third.
    pub proof fn lemma_double_tap_window(state: GlobalState, t1: u64, t2: u64, window: u64)
        requires
            t1 < t2,
        ensures
            state.after_ctrl_press(t1).ctrl_press_is_double_tap(t2, window) <==> (
            ConfigDefaults::DOUBLE_TAP_MIN_TIME_MS < t2 - t1 < window),
            t2 - t1 <= ConfigDefaults::DOUBLE_TAP_MIN_TIME_MS ==> !state.after_ctrl_press(
                t1,
            ).ctrl_press_is_double_tap(t2, window),
            t2 - t1 >= window ==> !state.after_ctrl_press(t1).ctrl_press_is_double_tap(t2, window),
            state.after_ctrl_press(t1).after_ctrl_press(t2).last_ctrl_time == t2,
    {
    }
}

} // verus!
