//! The desktop notifications the reminder shows: what each one says and how
//! it asks to be shown. Sending them is the program's job.

use vstd::prelude::*;

use crate::config::{phase_length, phase_message, Config, Phase};
use crate::humane::{format_span, humantime_format};

verus! {

/// The application name every notification carries.
pub const APP_NAME: &'static str = "Standing Desk Reminder";

/// How insistently a notification asks for attention.
#[derive(Clone, Copy, Debug, PartialEq, Eq, Structural)]
pub enum Urgency {
    Low,
    Normal,
    Critical,
}

/// A desktop notification, ready to be sent through the freedesktop
/// notification service.
#[derive(Clone, Debug)]
pub struct Notification {
    pub app_name: String,
    pub summary: String,
    pub body: String,
    /// Freedesktop icon name; empty for none.
    pub icon: String,
    /// `None` leaves the urgency to the notification daemon.
    pub urgency: Option<Urgency>,
    /// Milliseconds before it expires; `None` leaves it to the daemon.
    pub timeout_ms: Option<u32>,
    /// Freedesktop sound-naming-spec event to play, if any.
    pub sound_name: Option<String>,
}

/// The summary line of the reminder for switching into `phase`.
pub open spec fn reminder_summary(phase: Phase) -> Seq<char> {
    match phase {
        Phase::Standing => "Time to stand up"@,
        Phase::Sitting => "Time to sit down"@,
    }
}

/// The icon of the reminder for switching into `phase`.
pub open spec fn reminder_icon(phase: Phase) -> Seq<char> {
    match phase {
        Phase::Standing => "go-up"@,
        Phase::Sitting => "go-down"@,
    }
}

/// `n` is the reminder for switching into `phase` under `config`: the
/// phase's summary, icon and configured message, normal urgency, twelve
/// seconds on screen, and the "message" sound when sound is on.
pub open spec fn is_reminder(n: Notification, config: Config, phase: Phase) -> bool {
    &&& n.app_name@ == APP_NAME@
    &&& n.summary@ == reminder_summary(phase)
    &&& n.body@ == phase_message(config, phase)
    &&& n.icon@ == reminder_icon(phase)
    &&& n.urgency == Some(Urgency::Normal)
    &&& n.timeout_ms == Some(12_000u32)
    &&& if config.sound {
        n.sound_name matches Some(name) && name@ == "message"@
    } else {
        n.sound_name is None
    }
}

/// The body of the startup notice, given the friendly texts of the sit and
/// stand lengths and of the time to the first reminder.
pub open spec fn startup_text(sit: Seq<char>, stand: Seq<char>, first: Seq<char>) -> Seq<char> {
    "Running. Sit for "@ + sit + ", stand for "@ + stand + ". First reminder in "@ + first + "."@
}

/// The body of the startup notice under `config`.
pub open spec fn startup_body(config: Config) -> Seq<char> {
    startup_text(
        humantime_format(config.sit_duration@),
        humantime_format(config.stand_duration@),
        humantime_format(phase_length(config, config.start_phase)),
    )
}

/// `n` is the startup notice with this body: the application's name as
/// summary, the "appointment-soon" icon, low urgency, six seconds on screen,
/// no sound.
pub open spec fn is_startup(n: Notification, body: Seq<char>) -> bool {
    &&& n.app_name@ == APP_NAME@
    &&& n.summary@ == APP_NAME@
    &&& n.body@ == body
    &&& n.icon@ == "appointment-soon"@
    &&& n.urgency == Some(Urgency::Low)
    &&& n.timeout_ms == Some(6_000u32)
    &&& n.sound_name is None
}

/// `n` is a plain notice with this summary and body, everything else left to
/// the notification daemon.
pub open spec fn is_simple(n: Notification, summary: Seq<char>, body: Seq<char>) -> bool {
    &&& n.app_name@ == APP_NAME@
    &&& n.summary@ == summary
    &&& n.body@ == body
    &&& n.icon@ == Seq::<char>::empty()
    &&& n.urgency is None
    &&& n.timeout_ms is None
    &&& n.sound_name is None
}

/// Show the reminder for the phase the user is switching *into*.
pub fn reminder_notification(config: &Config, phase: Phase) -> (r: Notification)
    ensures
        is_reminder(r, *config, phase),
{
    let (summary, icon) = match phase {
        Phase::Standing => ("Time to stand up", "go-up"),
        Phase::Sitting => ("Time to sit down", "go-down"),
    };
    let sound_name = if config.sound {
        // Freedesktop sound-naming-spec event; honored by the notification
        // daemon (reliably on KDE, best-effort on GNOME).
        Some(String::from_str("message"))
    } else {
        None
    };
    Notification {
        app_name: String::from_str(APP_NAME),
        summary: String::from_str(summary),
        body: String::from_str(config.message(phase)),
        icon: String::from_str(icon),
        urgency: Some(Urgency::Normal),
        timeout_ms: Some(12_000),
        sound_name,
    }
}

/// The startup notice's body from the friendly texts of the sit and stand
/// lengths and of the time to the first reminder.
pub fn startup_message(sit: &str, stand: &str, first: &str) -> (r: String)
    ensures
        r@ == startup_text(sit@, stand@, first@),
{
    let mut body = String::from_str("Running. Sit for ");
    body.append(sit);
    body.append(", stand for ");
    body.append(stand);
    body.append(". First reminder in ");
    body.append(first);
    body.append(".");
    body
}

/// The startup notice saying these lengths (already written out).
pub fn startup_notification_from(sit: &str, stand: &str, first: &str) -> (r: Notification)
    ensures
        is_startup(r, startup_text(sit@, stand@, first@)),
{
    Notification {
        app_name: String::from_str(APP_NAME),
        summary: String::from_str(APP_NAME),
        body: startup_message(sit, stand, first),
        icon: String::from_str("appointment-soon"),
        urgency: Some(Urgency::Low),
        timeout_ms: Some(6_000),
        sound_name: None,
    }
}

/// A brief, low-urgency confirmation that the reminder is running, saying how
/// long each phase lasts and when the first reminder comes.
pub fn startup_notification(config: &Config) -> (r: Notification)
    ensures
        is_startup(r, startup_body(*config)),
{
    let sit = format_span(config.sit_duration);
    let stand = format_span(config.stand_duration);
    let first = format_span(config.duration(config.start_phase));
    startup_notification_from(sit.as_str(), stand.as_str(), first.as_str())
}

/// A plain notice with the given summary and body.
pub fn simple_notification(summary: &str, body: &str) -> (r: Notification)
    ensures
        is_simple(r, summary@, body@),
{
    Notification {
        app_name: String::from_str(APP_NAME),
        summary: String::from_str(summary),
        body: String::from_str(body),
        icon: String::new(),
        urgency: None,
        timeout_ms: None,
        sound_name: None,
    }
}

/// The notice shown when re-reading the configuration failed.
pub fn reload_failure_notification(error: &str) -> (r: Notification)
    ensures
        is_simple(r, "Config reload failed"@, error@ + "\nKeeping the previous settings."@),
{
    let mut body = String::from_str(error);
    body.append("\nKeeping the previous settings.");
    simple_notification("Config reload failed", body.as_str())
}

/// A reminder asks for the "message" sound exactly when the configuration's
/// sound is on, whichever phase it announces; reminders for the two phases
/// differ in summary and icon, and each carries its phase's message.
pub proof fn lemma_reminder_sound_follows_config(
    n: Notification,
    config: Config,
    phase: Phase,
    other: Notification,
)
    requires
        is_reminder(n, config, phase),
        is_reminder(other, config, crate::config::flipped(phase)),
    ensures
        (n.sound_name matches Some(name) && name@ == "message"@) <==> config.sound,
        n.sound_name is None <==> !config.sound,
        n.sound_name is Some <==> other.sound_name is Some,
        n.summary@ != other.summary@,
        n.icon@ != other.icon@,
        n.body@ == phase_message(config, phase),
{
    reveal_strlit("Time to stand up");
    reveal_strlit("Time to sit down");
    reveal_strlit("go-up");
    reveal_strlit("go-down");
    if n.summary@ == other.summary@ {
        assert(n.summary@[9] != other.summary@[9]);
    }
    if n.icon@ == other.icon@ {
        assert(n.icon@.len() != other.icon@.len());
    }
}

} // verus!
