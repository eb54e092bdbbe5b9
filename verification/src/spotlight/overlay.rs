//! A model of the overlay window, and the proof that the actions of every
//! transition keep the window in step with the state.

use vstd::prelude::*;

use crate::config::Settings;
use crate::hooks::state_after_key;
use crate::spotlight::state::is_drawable_radius;
use crate::spotlight::state::GlobalState;
use crate::spotlight::window::actions_of_message;
use crate::spotlight::window::lemma_transitions_keep_wf;
use crate::spotlight::window::message_kind;
use crate::spotlight::window::current_radius;
use crate::spotlight::window::state_after_message;
use crate::spotlight::window::Observation;
use crate::spotlight::window::TimerId;
use crate::spotlight::window::WindowAction;
use crate::spotlight::window::WindowMessage;
use crate::types::Position;

verus! {

/// The disc cut out of the backdrop: its centre in absolute screen
/// coordinates and its radius.
pub struct Hole {
    pub center: Position,
    pub radius: i32,
}

/// What the actions have made of the overlay window so far.
pub struct OverlayModel {
    /// Whether the overlay is on screen.
    pub visible: bool,
    /// Whether the follow timer runs.
    pub update_timer: bool,
    /// Whether the animation timer runs.
    pub animation_timer: bool,
    /// The hole of the clip shape asked for last; `None` without a shape.
    pub hole: Option<Hole>,
}

impl OverlayModel {
    /// The overlay as it is created: hidden, no timer, no shape.
    pub open spec fn initial() -> OverlayModel {
        OverlayModel { visible: false, update_timer: false, animation_timer: false, hole: None }
    }

    /// The overlay after one action.
    pub open spec fn after(self, action: WindowAction) -> OverlayModel {
        match action {
            WindowAction::ApplyRegion { cursor_pos, screen, radius } => OverlayModel {
                hole: Some(Hole { center: cursor_pos, radius }),
                ..self
            },
            WindowAction::ClearRegion => OverlayModel { hole: None, ..self },
            WindowAction::ShowOverlay => OverlayModel { visible: true, ..self },
            WindowAction::HideOverlay => OverlayModel { visible: false, ..self },
            WindowAction::StartTimer { timer, interval_ms } => match timer {
                TimerId::Update => OverlayModel { update_timer: true, ..self },
                TimerId::Animation => OverlayModel { animation_timer: true, ..self },
            },
            WindowAction::StopTimer { timer } => match timer {
                TimerId::Update => OverlayModel { update_timer: false, ..self },
                TimerId::Animation => OverlayModel { animation_timer: false, ..self },
            },
            _ => self,
        }
    }

    /// The overlay after a list of actions, carried out in order.
    pub open spec fn after_all(self, actions: Seq<WindowAction>) -> OverlayModel
        decreases actions.len(),
    {
        if actions.len() == 0 {
            self
        } else {
            self.after(actions[0]).after_all(actions.skip(1))
        }
    }

    /// The overlay is in step with the state: it is on screen, and the follow
    /// timer runs, exactly while the spotlight is shown; the animation timer
    /// runs exactly while an animation is in flight; and a shown spotlight
    /// has its hole at the last cursor position, with the radius of the
    /// moment, while a hidden one has no shape.
    pub open spec fn in_step_with(self, state: GlobalState, settings: Settings) -> bool {
        &&& self.visible == state.active
        &&& self.update_timer == state.active
        &&& self.animation_timer == state.animating
        &&& self.hole == if state.active {
            Some(Hole { center: state.last_position(), radius: current_radius(state, settings) })
        } else {
            None
        }
    }
}

proof fn lemma_after_none(model: OverlayModel, actions: Seq<WindowAction>)
    requires
        actions.len() == 0,
    ensures
        model.after_all(actions) == model,
{
}

proof fn lemma_after_one(model: OverlayModel, actions: Seq<WindowAction>)
    requires
        actions.len() >= 1,
    ensures
        model.after_all(actions) == model.after(actions[0]).after_all(actions.skip(1)),
        actions.skip(1).len() == actions.len() - 1,
        forall|i: int| 0 <= i < actions.len() - 1 ==> actions.skip(1)[i] == actions[i + 1],
{
}

/// Unfolds `after_all` on a list of at most five actions.
proof fn lemma_after_short(model: OverlayModel, actions: Seq<WindowAction>)
    requires
        actions.len() <= 5,
    ensures
        actions.len() == 0 ==> model.after_all(actions) == model,
        actions.len() == 1 ==> model.after_all(actions) == model.after(actions[0]),
        actions.len() == 2 ==> model.after_all(actions) == model.after(actions[0]).after(
            actions[1],
        ),
        actions.len() == 3 ==> model.after_all(actions) == model.after(actions[0]).after(
            actions[1],
        ).after(actions[2]),
        actions.len() == 4 ==> model.after_all(actions) == model.after(actions[0]).after(
            actions[1],
        ).after(actions[2]).after(actions[3]),
        actions.len() == 5 ==> model.after_all(actions) == model.after(actions[0]).after(
            actions[1],
        ).after(actions[2]).after(actions[3]).after(actions[4]),
    decreases actions.len(),
{
    if actions.len() == 0 {
        lemma_after_none(model, actions);
    } else {
        lemma_after_one(model, actions);
        lemma_after_short(model.after(actions[0]), actions.skip(1));
    }
}

/// The overlay stays in step with the state.  If it is in step before a
/// message, under a well-formed state, then carrying out the actions of the
/// message brings it in step with the state after the message: no timer is
/// started twice or left running over a hidden spotlight, no hole is left
/// behind, and what is on screen shows the radius of the moment.
pub proof fn lemma_overlay_stays_in_step(
    model: OverlayModel,
    state: GlobalState,
    settings: Settings,
    kind: WindowMessage,
    seen: Observation,
)
    requires
        state.wf(),
        model.in_step_with(state, settings),
    ensures
        model.after_all(actions_of_message(state, settings, kind, seen)).in_step_with(
            state_after_message(state, settings, kind, seen),
            settings,
        ),
{
    let actions = actions_of_message(state, settings, kind, seen);
    assert(actions.len() <= 5);
    lemma_after_short(model, actions);
}

/// Under a valid configuration, an overlay in step with a well-formed state
/// shows, while the spotlight is shown, a hole with a radius that is positive
/// and within the bounds of the configuration.
pub proof fn lemma_hole_is_a_true_disc(
    model: OverlayModel,
    state: GlobalState,
    settings: Settings,
)
    requires
        state.wf(),
        settings.is_valid(),
        model.in_step_with(state, settings),
        state.active,
    ensures
        model.hole is Some,
        model.hole->Some_0.center == state.last_position(),
        is_drawable_radius(model.hole->Some_0.radius),
        0 < model.hole->Some_0.radius,
{
}

/// At start-up the overlay is in step with the state.
pub proof fn lemma_overlay_starts_in_step(settings: Settings)
    ensures
        OverlayModel::initial().in_step_with(GlobalState::initial(), settings),
        GlobalState::initial().wf(),
{
}

/// One thing that happens to the program: a message arrives at the overlay
/// window, or the keyboard hook sees a key.  (The mouse hook changes
/// nothing; what it asks for arrives as a message.)
pub enum Event {
    /// A message to the overlay window, with what was read from the system
    /// on its arrival.
    Message { msg: u32, wparam: usize, lparam: isize, seen: Observation },
    /// An event of the keyboard hook, with the clock on its arrival.
    Key { code: i32, wparam: usize, vk_code: u32, now: u64 },
}

/// The state after one event.
pub open spec fn state_after_event(
    state: GlobalState,
    settings: Settings,
    event: Event,
) -> GlobalState {
    match event {
        Event::Message { msg, wparam, lparam, seen } => state_after_message(
            state,
            settings,
            message_kind(msg, wparam, lparam),
            seen,
        ),
        Event::Key { code, wparam, vk_code, now } => state_after_key(
            state,
            code,
            wparam,
            vk_code,
            now,
        ),
    }
}

/// The overlay after the actions of one event are carried out.
pub open spec fn overlay_after_event(
    model: OverlayModel,
    state: GlobalState,
    settings: Settings,
    event: Event,
) -> OverlayModel {
    match event {
        Event::Message { msg, wparam, lparam, seen } => model.after_all(
            actions_of_message(state, settings, message_kind(msg, wparam, lparam), seen),
        ),
        Event::Key { code, wparam, vk_code, now } => model,
    }
}

/// The state after a run of events, from the state at start-up.
pub open spec fn state_after_run(settings: Settings, events: Seq<Event>) -> GlobalState
    decreases events.len(),
{
    if events.len() == 0 {
        GlobalState::initial()
    } else {
        state_after_event(state_after_run(settings, events.drop_last()), settings, events.last())
    }
}

/// The overlay after a run of events, from the overlay as it is created.
pub open spec fn overlay_after_run(settings: Settings, events: Seq<Event>) -> OverlayModel
    decreases events.len(),
{
    if events.len() == 0 {
        OverlayModel::initial()
    } else {
        overlay_after_event(
            overlay_after_run(settings, events.drop_last()),
            state_after_run(settings, events.drop_last()),
            settings,
            events.last(),
        )
    }
}

/// Whatever happens, in whatever order, under a valid configuration: the
/// state stays well formed and the overlay stays in step with it.  So the
/// overlay is on screen exactly while the spotlight is shown, no tick is
/// under way for a hidden spotlight, and the hole that is shown is a true
/// disc at the last cursor position.
pub proof fn lemma_every_run_stays_in_step(settings: Settings, events: Seq<Event>)
    requires
        settings.is_valid(),
    ensures
        state_after_run(settings, events).wf(),
        overlay_after_run(settings, events).in_step_with(
            state_after_run(settings, events),
            settings,
        ),
    decreases events.len(),
{
    if events.len() > 0 {
        let before = events.drop_last();
        lemma_every_run_stays_in_step(settings, before);
        let state = state_after_run(settings, before);
        let model = overlay_after_run(settings, before);
        match events.last() {
            Event::Message { msg, wparam, lparam, seen } => {
                let kind = message_kind(msg, wparam, lparam);
                lemma_transitions_keep_wf(state, settings, kind, seen);
                lemma_overlay_stays_in_step(model, state, settings, kind, seen);
            },
            Event::Key { code, wparam, vk_code, now } => {},
        }
    }
}

} // verus!
