//! What pressing OK in the settings dialog leads to.

use vstd::prelude::*;

use crate::config::RuntimeConfig;
use crate::config::Settings;
use crate::spotlight::window::WindowAction;

verus! {

/// What follows the taking over of `settings`: the overlay gets the new
/// opacity and is painted anew, which brings the new colour, and the record
/// is stored for the next start.
pub open spec fn actions_of_accepted_settings(settings: Settings) -> Seq<WindowAction> {
    seq![
        WindowAction::SetOpacity { opacity: settings.backdrop_opacity },
        WindowAction::Repaint,
        WindowAction::SaveSettings { settings },
    ]
}

/// Puts the values chosen in the dialog in force.  A valid record is taken
/// over as a whole, pushed to the overlay, whether it is shown or not, and
/// handed on to be stored.  A record with a field out of bounds is turned
/// down as a whole: the configuration stays as it was, nothing is pushed or
/// stored, and the answer names the first such field.
pub fn save_current_settings(
    config: &mut RuntimeConfig,
    settings: &Settings,
) -> (outcome: Result<Vec<WindowAction>, String>)
    ensures
        outcome is Ok <==> settings.is_valid(),
        (match outcome {
            Ok(actions) => {
                &&& final(config)@ == *settings
                &&& actions@ == actions_of_accepted_settings(*settings)
            },
            Err(text) => {
                &&& final(config)@ == old(config)@
                &&& match settings.violation() {
                    Some(error) => text@ == error.message_text(),
                    None => false,
                }
            },
        }),
{
    match config.apply_settings(settings) {
        Ok(_) => {
            let mut actions: Vec<WindowAction> = Vec::new();
            actions.push(WindowAction::SetOpacity { opacity: settings.backdrop_opacity });
            actions.push(WindowAction::Repaint);
            actions.push(WindowAction::SaveSettings { settings: *settings });
            Ok(actions)
        },
        Err(text) => Err(text),
    }
}

} // verus!
