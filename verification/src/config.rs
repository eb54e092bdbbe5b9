//! Tunable parameters: defaults, limits, validation and the live configuration.

use vstd::prelude::*;

verus! {

/// Values that a fresh configuration starts with, and the fixed timings.
pub struct ConfigDefaults;

impl ConfigDefaults {
    /// Longest gap between two Ctrl presses that still counts as a double tap.
    pub const DOUBLE_TAP_TIME_MS: u64 = 400;

    /// Gaps of at most this length are key-repeat noise, never a double tap.
    pub const DOUBLE_TAP_MIN_TIME_MS: u64 = 50;

    /// Opacity of the backdrop, from 0 (transparent) to 255 (opaque).
    pub const BACKDROP_OPACITY: u8 = 180;

    /// Radius of the spotlight at rest, in pixels.
    pub const SPOTLIGHT_RADIUS: i32 = 100;

    /// Rest of the cursor after which the spotlight hides by itself.
    pub const AUTO_HIDE_DELAY_MS: u64 = 2000;

    /// Period of the follow timer, about sixty ticks per second.
    pub const UPDATE_INTERVAL_MS: u32 = 16;

    /// Period of the animation timer, about sixty ticks per second.
    pub const ANIMATION_INTERVAL_MS: u32 = 16;

    /// Whether the spotlight opens with an animation.
    pub const ANIMATION_ENABLED: bool = true;

    /// Radius with which the opening animation begins, in pixels.
    pub const ANIMATION_INITIAL_RADIUS: i32 = 600;

    /// Length of the opening animation.
    pub const ANIMATION_DURATION_MS: u64 = 300;

    /// Backdrop colour as `0x00BBGGRR`; black.
    pub const BACKDROP_COLOR: u32 = 0x00000000;
}

/// Inclusive bounds of the fields that validation restricts.
pub struct ConfigLimits;

impl ConfigLimits {
    pub const DOUBLE_TAP_TIME_MS_MIN: u64 = 50;

    pub const DOUBLE_TAP_TIME_MS_MAX: u64 = 1000;

    pub const SPOTLIGHT_RADIUS_MIN: i32 = 50;

    pub const SPOTLIGHT_RADIUS_MAX: i32 = 300;

    pub const AUTO_HIDE_DELAY_MS_MIN: u64 = 500;

    pub const AUTO_HIDE_DELAY_MS_MAX: u64 = 10000;

    pub const ANIMATION_INITIAL_RADIUS_MIN: i32 = 100;

    pub const ANIMATION_INITIAL_RADIUS_MAX: i32 = 1000;

    pub const ANIMATION_DURATION_MS_MIN: u64 = 100;

    pub const ANIMATION_DURATION_MS_MAX: u64 = 2000;
}

/// The field that made a record fail validation.
#[derive(Debug, Clone, Copy, PartialEq, Eq)]
pub enum ConfigError {
    DoubleTapTime,
    SpotlightRadius,
    AutoHideDelay,
    AnimationInitialRadius,
    AnimationDuration,
}

impl ConfigError {
    /// The text that reports this error.
    pub open spec fn message_text(self) -> Seq<char> {
        match self {
            ConfigError::DoubleTapTime => "Double tap time debe estar entre 50-1000ms"@,
            ConfigError::SpotlightRadius => "Radio debe estar entre 50-300 píxeles"@,
            ConfigError::AutoHideDelay => "Auto-hide delay debe estar entre 500-10000ms"@,
            ConfigError::AnimationInitialRadius => {
                "Radio inicial de animación debe estar entre 100-1000 píxeles"@
            },
            ConfigError::AnimationDuration => {
                "Duración de animación debe estar entre 100-2000ms"@
            },
        }
    }

    /// Renders the error as text.
    pub fn message(&self) -> (text: String)
        ensures
            text@ == self.message_text(),
    {
        match self {
            ConfigError::DoubleTapTime => "Double tap time debe estar entre 50-1000ms".to_owned(),
            ConfigError::SpotlightRadius => "Radio debe estar entre 50-300 píxeles".to_owned(),
            ConfigError::AutoHideDelay => "Auto-hide delay debe estar entre 500-10000ms".to_owned(),
            ConfigError::AnimationInitialRadius => {
                "Radio inicial de animación debe estar entre 100-1000 píxeles".to_owned()
            },
            ConfigError::AnimationDuration => {
                "Duración de animación debe estar entre 100-2000ms".to_owned()
            },
        }
    }

    /// Each error has a text of its own, so the text alone names the field.
    pub proof fn lemma_message_names_the_field(a: ConfigError, b: ConfigError)
        requires
            a.message_text() == b.message_text(),
        ensures
            a == b,
    {
        reveal_strlit("Double tap time debe estar entre 50-1000ms");
        reveal_strlit("Radio debe estar entre 50-300 píxeles");
        reveal_strlit("Auto-hide delay debe estar entre 500-10000ms");
        reveal_strlit("Radio inicial de animación debe estar entre 100-1000 píxeles");
        reveal_strlit("Duración de animación debe estar entre 100-2000ms");
        assert(ConfigError::DoubleTapTime.message_text().len() == 42);
        assert(ConfigError::SpotlightRadius.message_text().len() == 37);
        assert(ConfigError::AutoHideDelay.message_text().len() == 44);
        assert(ConfigError::AnimationInitialRadius.message_text().len() == 60);
        assert(ConfigError::AnimationDuration.message_text().len() == 49);
    }
}

/// One complete set of tunable parameters, as it is stored and edited.
#[derive(Debug, Clone, Copy, PartialEq, Eq)]
pub struct Settings {
    /// Longest gap between two Ctrl presses that counts as a double tap.
    pub double_tap_time_ms: u64,
    /// Opacity of the backdrop, from 0 (transparent) to 255 (opaque).
    pub backdrop_opacity: u8,
    /// Colour of the backdrop, as `0x00BBGGRR`.
    pub backdrop_color: u32,
    /// Radius of the spotlight at rest, in pixels.
    pub spotlight_radius: i32,
    /// Rest of the cursor after which the spotlight hides by itself.
    pub auto_hide_delay_ms: u64,
    /// Whether the spotlight opens with an animation.
    pub animation_enabled: bool,
    /// Radius with which the opening animation begins, in pixels.
    pub animation_initial_radius: i32,
    /// Length of the opening animation.
    pub animation_duration_ms: u64,
}

impl Settings {
    /// The record made of the default values.
    pub open spec fn spec_default() -> Settings {
        Settings {
            double_tap_time_ms: ConfigDefaults::DOUBLE_TAP_TIME_MS,
            backdrop_opacity: ConfigDefaults::BACKDROP_OPACITY,
            backdrop_color: ConfigDefaults::BACKDROP_COLOR,
            spotlight_radius: ConfigDefaults::SPOTLIGHT_RADIUS,
            auto_hide_delay_ms: ConfigDefaults::AUTO_HIDE_DELAY_MS,
            animation_enabled: ConfigDefaults::ANIMATION_ENABLED,
            animation_initial_radius: ConfigDefaults::ANIMATION_INITIAL_RADIUS,
            animation_duration_ms: ConfigDefaults::ANIMATION_DURATION_MS,
        }
    }

    pub open spec fn double_tap_time_in_range(self) -> bool {
        ConfigLimits::DOUBLE_TAP_TIME_MS_MIN <= self.double_tap_time_ms
            <= ConfigLimits::DOUBLE_TAP_TIME_MS_MAX
    }

    pub open spec fn spotlight_radius_in_range(self) -> bool {
        ConfigLimits::SPOTLIGHT_RADIUS_MIN <= self.spotlight_radius
            <= ConfigLimits::SPOTLIGHT_RADIUS_MAX
    }

    pub open spec fn auto_hide_delay_in_range(self) -> bool {
        ConfigLimits::AUTO_HIDE_DELAY_MS_MIN <= self.auto_hide_delay_ms
            <= ConfigLimits::AUTO_HIDE_DELAY_MS_MAX
    }

    pub open spec fn animation_initial_radius_in_range(self) -> bool {
        ConfigLimits::ANIMATION_INITIAL_RADIUS_MIN <= self.animation_initial_radius
            <= ConfigLimits::ANIMATION_INITIAL_RADIUS_MAX
    }

    pub open spec fn animation_duration_in_range(self) -> bool {
        ConfigLimits::ANIMATION_DURATION_MS_MIN <= self.animation_duration_ms
            <= ConfigLimits::ANIMATION_DURATION_MS_MAX
    }

    /// A record is valid when every restricted field lies within its bounds.
    /// Opacity and colour take every value of their types, and the animation
    /// switch both of its values.
    pub open spec fn is_valid(self) -> bool {
        &&& self.double_tap_time_in_range()
        &&& self.spotlight_radius_in_range()
        &&& self.auto_hide_delay_in_range()
        &&& self.animation_initial_radius_in_range()
        &&& self.animation_duration_in_range()
    }

    /// The first field out of bounds, in the order in which they are checked.
    pub open spec fn violation(self) -> Option<ConfigError> {
        if !self.double_tap_time_in_range() {
            Some(ConfigError::DoubleTapTime)
        } else if !self.spotlight_radius_in_range() {
            Some(ConfigError::SpotlightRadius)
        } else if !self.auto_hide_delay_in_range() {
            Some(ConfigError::AutoHideDelay)
        } else if !self.animation_initial_radius_in_range() {
            Some(ConfigError::AnimationInitialRadius)
        } else if !self.animation_duration_in_range() {
            Some(ConfigError::AnimationDuration)
        } else {
            None
        }
    }

    /// Builds the record made of the default values.
    pub fn default() -> (settings: Self)
        ensures
            settings == Settings::spec_default(),
            settings.is_valid(),
    {
        Settings {
            double_tap_time_ms: ConfigDefaults::DOUBLE_TAP_TIME_MS,
            backdrop_opacity: ConfigDefaults::BACKDROP_OPACITY,
            backdrop_color: ConfigDefaults::BACKDROP_COLOR,
            spotlight_radius: ConfigDefaults::SPOTLIGHT_RADIUS,
            auto_hide_delay_ms: ConfigDefaults::AUTO_HIDE_DELAY_MS,
            animation_enabled: ConfigDefaults::ANIMATION_ENABLED,
            animation_initial_radius: ConfigDefaults::ANIMATION_INITIAL_RADIUS,
            animation_duration_ms: ConfigDefaults::ANIMATION_DURATION_MS,
        }
    }

    /// Finds the first field out of bounds, if there is one.
    pub fn first_violation(&self) -> (found: Option<ConfigError>)
        ensures
            found == self.violation(),
            found is None <==> self.is_valid(),
    {
        if self.double_tap_time_ms < ConfigLimits::DOUBLE_TAP_TIME_MS_MIN
            || self.double_tap_time_ms > ConfigLimits::DOUBLE_TAP_TIME_MS_MAX {
            Some(ConfigError::DoubleTapTime)
        } else if self.spotlight_radius < ConfigLimits::SPOTLIGHT_RADIUS_MIN
            || self.spotlight_radius > ConfigLimits::SPOTLIGHT_RADIUS_MAX {
            Some(ConfigError::SpotlightRadius)
        } else if self.auto_hide_delay_ms < ConfigLimits::AUTO_HIDE_DELAY_MS_MIN
            || self.auto_hide_delay_ms > ConfigLimits::AUTO_HIDE_DELAY_MS_MAX {
            Some(ConfigError::AutoHideDelay)
        } else if self.animation_initial_radius < ConfigLimits::ANIMATION_INITIAL_RADIUS_MIN
            || self.animation_initial_radius > ConfigLimits::ANIMATION_INITIAL_RADIUS_MAX {
            Some(ConfigError::AnimationInitialRadius)
        } else if self.animation_duration_ms < ConfigLimits::ANIMATION_DURATION_MS_MIN
            || self.animation_duration_ms > ConfigLimits::ANIMATION_DURATION_MS_MAX {
            Some(ConfigError::AnimationDuration)
        } else {
            None
        }
    }

    /// Accepts the record when it is valid; otherwise reports, as text, the
    /// first field out of bounds.
    pub fn validate(&self) -> (outcome: Result<(), String>)
        ensures
            outcome is Ok <==> self.is_valid(),
            (match outcome {
                Ok(_) => self.violation() is None,
                Err(text) => match self.violation() {
                    Some(error) => text@ == error.message_text(),
                    None => false,
                },
            }),
    {
        match self.first_violation() {
            Some(error) => Err(error.message()),
            None => Ok(()),
        }
    }

    /// The default record passes validation.
    pub proof fn lemma_default_is_valid()
        ensures
            Settings::spec_default().is_valid(),
            Settings::spec_default().violation() is None,
    {
    }

    /// A record is valid exactly when no field is reported.
    pub proof fn lemma_valid_iff_no_violation(settings: Settings)
        ensures
            settings.is_valid() <==> settings.violation() is None,
    {
    }

    /// In an otherwise valid record, a double-tap time one unit outside its
    /// bounds is rejected, and the error names that field.
    pub proof fn lemma_double_tap_time_bounds(settings: Settings, value: u64)
        requires
            settings.is_valid(),
            value == ConfigLimits::DOUBLE_TAP_TIME_MS_MIN - 1
                || value == ConfigLimits::DOUBLE_TAP_TIME_MS_MAX + 1,
        ensures
            (Settings { double_tap_time_ms: value, ..settings }).violation() == Some(
                ConfigError::DoubleTapTime,
            ),
    {
    }

    /// In an otherwise valid record, a spotlight radius one unit outside its
    /// bounds is rejected, and the error names that field.
    pub proof fn lemma_spotlight_radius_bounds(settings: Settings, value: i32)
        requires
            settings.is_valid(),
            value == ConfigLimits::SPOTLIGHT_RADIUS_MIN - 1
                || value == ConfigLimits::SPOTLIGHT_RADIUS_MAX + 1,
        ensures
            (Settings { spotlight_radius: value, ..settings }).violation() == Some(
                ConfigError::SpotlightRadius,
            ),
    {
    }

    /// In an otherwise valid record, an auto-hide delay one unit outside its
    /// bounds is rejected, and the error names that field.
    pub proof fn lemma_auto_hide_delay_bounds(settings: Settings, value: u64)
        requires
            settings.is_valid(),
            value == ConfigLimits::AUTO_HIDE_DELAY_MS_MIN - 1
                || value == ConfigLimits::AUTO_HIDE_DELAY_MS_MAX + 1,
        ensures
            (Settings { auto_hide_delay_ms: value, ..settings }).violation() == Some(
                ConfigError::AutoHideDelay,
            ),
    {
    }

    /// In an otherwise valid record, an initial animation radius one unit
    /// outside its bounds is rejected, and the error names that field.
    pub proof fn lemma_animation_initial_radius_bounds(settings: Settings, value: i32)
        requires
            settings.is_valid(),
            value == ConfigLimits::ANIMATION_INITIAL_RADIUS_MIN - 1
                || value == ConfigLimits::ANIMATION_INITIAL_RADIUS_MAX + 1,
        ensures
            (Settings { animation_initial_radius: value, ..settings }).violation() == Some(
                ConfigError::AnimationInitialRadius,
            ),
    {
    }

    /// In an otherwise valid record, an animation duration one unit outside
    /// its bounds is rejected, and the error names that field.
    pub proof fn lemma_animation_duration_bounds(settings: Settings, value: u64)
        requires
            settings.is_valid(),
            value == ConfigLimits::ANIMATION_DURATION_MS_MIN - 1
                || value == ConfigLimits::ANIMATION_DURATION_MS_MAX + 1,
        ensures
            (Settings { animation_duration_ms: value, ..settings }).violation() == Some(
                ConfigError::AnimationDuration,
            ),
    {
    }
}

/// What a stored record amounts to: itself when it is there and valid, the
/// defaults as a whole in every other case.
pub open spec fn effective_settings(stored: Option<Settings>) -> Settings {
    match stored {
        Some(settings) => if settings.is_valid() {
            settings
        } else {
            Settings::spec_default()
        },
        None => Settings::spec_default(),
    }
}

/// What an update amounts to: the wanted record when it is valid, the record
/// held before in every other case.
pub open spec fn accepted_or_kept(held: Settings, wanted: Settings) -> Settings {
    if wanted.is_valid() {
        wanted
    } else {
        held
    }
}

/// Chooses the settings to start with.  `stored` is the record read from
/// persistent storage, or `None` when it was missing or unreadable.  No field
/// of a rejected record is taken over.
pub fn load_config(stored: Option<Settings>) -> (settings: Settings)
    ensures
        settings == effective_settings(stored),
        settings.is_valid(),
{
    match stored {
        Some(candidate) => {
            if candidate.first_violation().is_none() {
                candidate
            } else {
                Settings::default()
            }
        },
        None => Settings::default(),
    }
}

/// The configuration in force.  The state machine reads it anew at every
/// decision; the settings dialog replaces it.  Whatever is done to it, the
/// values it holds are valid: a record or a value out of bounds is never
/// taken over.
pub struct RuntimeConfig {
    current: Settings,
}

impl View for RuntimeConfig {
    type V = Settings;

    closed spec fn view(&self) -> Settings {
        self.current
    }
}

impl RuntimeConfig {
    #[verifier::type_invariant]
    spec fn holds_valid_settings(self) -> bool {
        self.current.is_valid()
    }

    /// Starts with the default values.
    pub fn new() -> (config: Self)
        ensures
            config@ == Settings::spec_default(),
            config@.is_valid(),
    {
        RuntimeConfig { current: Settings::default() }
    }

    /// Takes over `settings` as a whole when they are valid, and the defaults
    /// as a whole when they are not.
    pub fn load_from(&mut self, settings: &Settings)
        ensures
            final(self)@ == effective_settings(Some(*settings)),
            final(self)@.is_valid(),
    {
        self.current = load_config(Some(*settings));
    }

    /// Takes over `settings` as a whole when they are valid, and leaves the
    /// configuration as it was, reporting the first field out of bounds, when
    /// they are not.
    pub fn apply_settings(&mut self, settings: &Settings) -> (outcome: Result<(), String>)
        ensures
            outcome is Ok <==> settings.is_valid(),
            (match outcome {
                Ok(_) => final(self)@ == *settings,
                Err(text) => final(self)@ == old(self)@ && match settings.violation() {
                    Some(error) => text@ == error.message_text(),
                    None => false,
                },
            }),
            final(self)@.is_valid(),
    {
        proof {
            use_type_invariant(&*self);
        }
        match settings.validate() {
            Ok(_) => {
                self.current = *settings;
                Ok(())
            },
            Err(text) => Err(text),
        }
    }

    /// The values now in force, as one record.
    pub fn to_settings(&self) -> (settings: Settings)
        ensures
            settings == self@,
            settings.is_valid(),
    {
        proof {
            use_type_invariant(self);
        }
        self.current
    }

    /// Longest gap between two Ctrl presses that counts as a double tap.
    pub fn double_tap_time_ms(&self) -> (value: u64)
        ensures
            value == self@.double_tap_time_ms,
            self@.is_valid(),
    {
        proof {
            use_type_invariant(self);
        }
        self.current.double_tap_time_ms
    }

    /// Opacity of the backdrop, from transparent to opaque.
    pub fn backdrop_opacity(&self) -> (value: u8)
        ensures
            value == self@.backdrop_opacity,
            self@.is_valid(),
    {
        proof {
            use_type_invariant(self);
        }
        self.current.backdrop_opacity
    }

    /// Radius of the spotlight at rest.
    pub fn spotlight_radius(&self) -> (value: i32)
        ensures
            value == self@.spotlight_radius,
            self@.is_valid(),
    {
        proof {
            use_type_invariant(self);
        }
        self.current.spotlight_radius
    }

    /// Rest of the cursor after which the spotlight hides by itself.
    pub fn auto_hide_delay_ms(&self) -> (value: u64)
        ensures
            value == self@.auto_hide_delay_ms,
            self@.is_valid(),
    {
        proof {
            use_type_invariant(self);
        }
        self.current.auto_hide_delay_ms
    }

    /// Colour of the backdrop, as `0x00BBGGRR`.
    pub fn backdrop_color(&self) -> (value: u32)
        ensures
            value == self@.backdrop_color,
            self@.is_valid(),
    {
        proof {
            use_type_invariant(self);
        }
        self.current.backdrop_color
    }

    /// Whether the spotlight opens with an animation.
    pub fn animation_enabled(&self) -> (value: bool)
        ensures
            value == self@.animation_enabled,
            self@.is_valid(),
    {
        proof {
            use_type_invariant(self);
        }
        self.current.animation_enabled
    }

    /// Radius with which the opening animation begins.
    pub fn animation_initial_radius(&self) -> (value: i32)
        ensures
            value == self@.animation_initial_radius,
            self@.is_valid(),
    {
        proof {
            use_type_invariant(self);
        }
        self.current.animation_initial_radius
    }

    /// Length of the opening animation.
    pub fn animation_duration_ms(&self) -> (value: u64)
        ensures
            value == self@.animation_duration_ms,
            self@.is_valid(),
    {
        proof {
            use_type_invariant(self);
        }
        self.current.animation_duration_ms
    }

    /// Sets the double-tap time, unless `value` is out of bounds.
    pub fn set_double_tap_time_ms(&mut self, value: u64)
        ensures
            final(self)@ == accepted_or_kept(
                old(self)@,
                (Settings { double_tap_time_ms: value, ..old(self)@ }),
            ),
            final(self)@.is_valid(),
    {
        proof {
            use_type_invariant(&*self);
        }
        if ConfigLimits::DOUBLE_TAP_TIME_MS_MIN <= value && value
            <= ConfigLimits::DOUBLE_TAP_TIME_MS_MAX {
            self.current.double_tap_time_ms = value;
        }
    }

    /// Sets the opacity of the backdrop; every value is in bounds.
    pub fn set_backdrop_opacity(&mut self, value: u8)
        ensures
            final(self)@ == (Settings { backdrop_opacity: value, ..old(self)@ }),
            final(self)@.is_valid(),
    {
        proof {
            use_type_invariant(&*self);
        }
        self.current.backdrop_opacity = value;
    }

    /// Sets the radius of the spotlight, unless `value` is out of bounds.
    pub fn set_spotlight_radius(&mut self, value: i32)
        ensures
            final(self)@ == accepted_or_kept(
                old(self)@,
                (Settings { spotlight_radius: value, ..old(self)@ }),
            ),
            final(self)@.is_valid(),
    {
        proof {
            use_type_invariant(&*self);
        }
        if ConfigLimits::SPOTLIGHT_RADIUS_MIN <= value && value
            <= ConfigLimits::SPOTLIGHT_RADIUS_MAX {
            self.current.spotlight_radius = value;
        }
    }

    /// Sets the auto-hide delay, unless `value` is out of bounds.
    pub fn set_auto_hide_delay_ms(&mut self, value: u64)
        ensures
            final(self)@ == accepted_or_kept(
                old(self)@,
                (Settings { auto_hide_delay_ms: value, ..old(self)@ }),
            ),
            final(self)@.is_valid(),
    {
        proof {
            use_type_invariant(&*self);
        }
        if ConfigLimits::AUTO_HIDE_DELAY_MS_MIN <= value && value
            <= ConfigLimits::AUTO_HIDE_DELAY_MS_MAX {
            self.current.auto_hide_delay_ms = value;
        }
    }

    /// Sets the colour of the backdrop; every value is in bounds.
    pub fn set_backdrop_color(&mut self, value: u32)
        ensures
            final(self)@ == (Settings { backdrop_color: value, ..old(self)@ }),
            final(self)@.is_valid(),
    {
        proof {
            use_type_invariant(&*self);
        }
        self.current.backdrop_color = value;
    }

    /// Switches the opening animation on or off.
    pub fn set_animation_enabled(&mut self, value: bool)
        ensures
            final(self)@ == (Settings { animation_enabled: value, ..old(self)@ }),
            final(self)@.is_valid(),
    {
        proof {
            use_type_invariant(&*self);
        }
        self.current.animation_enabled = value;
    }

    /// Sets the initial radius of the animation, unless `value` is out of
    /// bounds.
    pub fn set_animation_initial_radius(&mut self, value: i32)
        ensures
            final(self)@ == accepted_or_kept(
                old(self)@,
                (Settings { animation_initial_radius: value, ..old(self)@ }),
            ),
            final(self)@.is_valid(),
    {
        proof {
            use_type_invariant(&*self);
        }
        if ConfigLimits::ANIMATION_INITIAL_RADIUS_MIN <= value && value
            <= ConfigLimits::ANIMATION_INITIAL_RADIUS_MAX {
            self.current.animation_initial_radius = value;
        }
    }

    /// Sets the duration of the animation, unless `value` is out of bounds.
    pub fn set_animation_duration_ms(&mut self, value: u64)
        ensures
            final(self)@ == accepted_or_kept(
                old(self)@,
                (Settings { animation_duration_ms: value, ..old(self)@ }),
            ),
            final(self)@.is_valid(),
    {
        proof {
            use_type_invariant(&*self);
        }
        if ConfigLimits::ANIMATION_DURATION_MS_MIN <= value && value
            <= ConfigLimits::ANIMATION_DURATION_MS_MAX {
            self.current.animation_duration_ms = value;
        }
    }
}

} // verus!
