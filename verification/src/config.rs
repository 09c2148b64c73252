//! Configuration: which posture the user is in, how long each posture lasts,
//! and what the reminders say.

use vstd::prelude::*;

use crate::span::{Span, NANOS_PER_SEC};

verus! {

/// Which posture the user is currently in.
#[derive(Clone, Copy, Debug, PartialEq, Eq, Structural)]
pub enum Phase {
    Sitting,
    Standing,
}

/// The opposite posture.
pub open spec fn flipped(phase: Phase) -> Phase {
    match phase {
        Phase::Sitting => Phase::Standing,
        Phase::Standing => Phase::Sitting,
    }
}

/// The lower-case name of a posture, as it appears in messages and in the
/// configuration file.
pub open spec fn phase_name(phase: Phase) -> Seq<char> {
    match phase {
        Phase::Sitting => "sitting"@,
        Phase::Standing => "standing"@,
    }
}

impl Phase {
    /// The opposite posture.
    pub fn other(self) -> (r: Phase)
        ensures
            r == flipped(self),
    {
        match self {
            Phase::Sitting => Phase::Standing,
            Phase::Standing => Phase::Sitting,
        }
    }

    /// The posture's lower-case name ("sitting" or "standing").
    pub fn name(self) -> (r: &'static str)
        ensures
            r@ == phase_name(self),
    {
        match self {
            Phase::Sitting => "sitting",
            Phase::Standing => "standing",
        }
    }
}

/// Turning around twice faces the same way again.
pub proof fn lemma_other_involution(phase: Phase)
    ensures
        flipped(flipped(phase)) == phase,
        flipped(phase) != phase,
{
}

/// Notification text used when it is time to stand, unless configured.
pub const DEFAULT_STAND_MESSAGE: &'static str = "Time to stand up and stretch your legs.";

/// Notification text used when it is time to sit, unless configured.
pub const DEFAULT_SIT_MESSAGE: &'static str = "Time to sit down for a bit.";

/// Default seconds to stay seated (45 minutes).
pub const DEFAULT_SIT_SECS: u64 = 2700;

/// Default seconds to stand (15 minutes).
pub const DEFAULT_STAND_SECS: u64 = 900;

/// Default seconds a snooze returns to the previous posture (5 minutes).
pub const DEFAULT_SNOOZE_SECS: u64 = 300;

/// User configuration.
#[derive(Clone, Debug, PartialEq, Eq)]
pub struct Config {
    /// How long to stay seated before being reminded to stand.
    pub sit_duration: Span,
    /// How long to stand before being reminded to sit down.
    pub stand_duration: Span,
    /// How long a snooze goes back to the previous posture.
    pub snooze_duration: Span,
    /// Notification body shown when it is time to stand.
    pub stand_message: String,
    /// Notification body shown when it is time to sit.
    pub sit_message: String,
    /// Ask the desktop to play its notification sound with each reminder.
    pub sound: bool,
    /// Which posture to assume the user is in at startup.
    pub start_phase: Phase,
}

/// How long `phase` lasts under `config`, in nanoseconds.
pub open spec fn phase_length(config: Config, phase: Phase) -> nat {
    match phase {
        Phase::Sitting => config.sit_duration@,
        Phase::Standing => config.stand_duration@,
    }
}

/// The notification body for entering `phase` under `config`.
pub open spec fn phase_message(config: Config, phase: Phase) -> Seq<char> {
    match phase {
        Phase::Sitting => config.sit_message@,
        Phase::Standing => config.stand_message@,
    }
}

/// A configuration whose phases both take some time, so the reminder neither
/// busy-loops nor never fires.
pub open spec fn config_valid(config: Config) -> bool {
    config.sit_duration@ > 0 && config.stand_duration@ > 0
}

/// The configuration used when the file says nothing else.
pub open spec fn is_default_config(config: Config) -> bool {
    &&& config.sit_duration@ == DEFAULT_SIT_SECS * NANOS_PER_SEC
    &&& config.stand_duration@ == DEFAULT_STAND_SECS * NANOS_PER_SEC
    &&& config.snooze_duration@ == DEFAULT_SNOOZE_SECS * NANOS_PER_SEC
    &&& config.stand_message@ == DEFAULT_STAND_MESSAGE@
    &&& config.sit_message@ == DEFAULT_SIT_MESSAGE@
    &&& config.sound
    &&& config.start_phase == Phase::Sitting
}

/// Why a configuration was rejected.
#[derive(Clone, Copy, Debug, PartialEq, Eq, Structural)]
pub enum ConfigError {
    /// `sit_duration` is zero.
    ZeroSitDuration,
    /// `stand_duration` is zero.
    ZeroStandDuration,
}

/// The message each rejection carries.
pub open spec fn config_error_text(error: ConfigError) -> Seq<char> {
    match error {
        ConfigError::ZeroSitDuration => "`sit_duration` must be greater than zero"@,
        ConfigError::ZeroStandDuration => "`stand_duration` must be greater than zero"@,
    }
}

/// What `validate` answers for `config`.
pub open spec fn validation(config: Config) -> Result<(), ConfigError> {
    if config.sit_duration@ == 0 {
        Err(ConfigError::ZeroSitDuration)
    } else if config.stand_duration@ == 0 {
        Err(ConfigError::ZeroStandDuration)
    } else {
        Ok(())
    }
}

impl ConfigError {
    /// The human-readable reason.
    pub fn message(&self) -> (r: &'static str)
        ensures
            r@ == config_error_text(*self),
    {
        match self {
            ConfigError::ZeroSitDuration => "`sit_duration` must be greater than zero",
            ConfigError::ZeroStandDuration => "`stand_duration` must be greater than zero",
        }
    }
}

impl Default for Config {
    fn default() -> (r: Config)
        ensures
            is_default_config(r),
    {
        Config {
            sit_duration: Span::from_secs(DEFAULT_SIT_SECS),
            stand_duration: Span::from_secs(DEFAULT_STAND_SECS),
            snooze_duration: Span::from_secs(DEFAULT_SNOOZE_SECS),
            stand_message: String::from_str(DEFAULT_STAND_MESSAGE),
            sit_message: String::from_str(DEFAULT_SIT_MESSAGE),
            sound: true,
            start_phase: Phase::Sitting,
        }
    }
}

impl Config {
    /// How long the given phase should last before switching.
    pub fn duration(&self, phase: Phase) -> (r: Span)
        ensures
            r@ == phase_length(*self, phase),
            r == (match phase {
                Phase::Sitting => self.sit_duration,
                Phase::Standing => self.stand_duration,
            }),
    {
        match phase {
            Phase::Sitting => self.sit_duration,
            Phase::Standing => self.stand_duration,
        }
    }

    /// The notification body to show when entering the given phase.
    pub fn message(&self, phase: Phase) -> (r: &str)
        ensures
            r@ == phase_message(*self, phase),
    {
        match phase {
            Phase::Sitting => self.sit_message.as_str(),
            Phase::Standing => self.stand_message.as_str(),
        }
    }

    /// Reject values that would otherwise busy-loop or never fire: both
    /// durations must be greater than zero. The sit duration is checked first.
    pub fn validate(&self) -> (r: Result<(), ConfigError>)
        ensures
            r == validation(*self),
            r is Ok <==> config_valid(*self),
    {
        if self.sit_duration.is_zero() {
            return Err(ConfigError::ZeroSitDuration);
        }
        if self.stand_duration.is_zero() {
            return Err(ConfigError::ZeroStandDuration);
        }
        Ok(())
    }
}

/// The configuration used when the file says nothing else is accepted by
/// `validate`.
pub proof fn lemma_default_config_valid(config: Config)
    requires
        is_default_config(config),
    ensures
        config_valid(config),
        validation(config) == Ok::<(), ConfigError>(()),
{
}

/// The commented file written on first run. Its values are those of
/// `Config::default` (the snooze length is left at its default).
pub const DEFAULT_CONFIG_TEMPLATE: &'static str = "# Configuration for standing-desk-reminder.
# Durations accept friendly units, e.g. \"30s\", \"15m\", \"1h 30m\".

# How long to stay seated before you are reminded to stand up.
sit_duration = \"45m\"

# How long to stand before you are reminded to sit down again.
stand_duration = \"15m\"

# Notification text shown when it is time to stand up.
stand_message = \"Time to stand up and stretch your legs.\"

# Notification text shown when it is time to sit down.
sit_message = \"Time to sit down for a bit.\"

# Ask the desktop to play its notification sound with each reminder.
sound = true

# Which posture to start in when the program launches: \"sitting\" or \"standing\".
start_phase = \"sitting\"
";

} // verus!
