use standing_desk_reminder::config::{Config, Phase};
use standing_desk_reminder::icon::{icon_sizes, icon_style, IconStyle, Rgb};
use standing_desk_reminder::lock::lock_transition;
use standing_desk_reminder::notify::{
    reload_failure_notification, reminder_notification, simple_notification,
    startup_message, startup_notification, startup_notification_from, Urgency, APP_NAME,
};
use standing_desk_reminder::reminder::{MenuAction, TrayStatus};
use standing_desk_reminder::service::{unit_contents, EXEC_PLACEHOLDER, UNIT_NAME, UNIT_TEMPLATE};
use standing_desk_reminder::span::Span;
use standing_desk_reminder::tray::{
    configured_line, format_remaining, tooltip_description, tray_menu, tray_menu_with, MenuEntry,
};

#[test]
fn format_remaining_examples() {
    assert_eq!(format_remaining(Span::from_secs(3900)), "1h 05m");
    assert_eq!(format_remaining(Span::from_secs(3600 + 59)), "1h 00m");
    assert_eq!(format_remaining(Span::from_secs(750)), "12m 30s");
    assert_eq!(format_remaining(Span::from_secs(60)), "1m 00s");
    assert_eq!(format_remaining(Span::from_secs(45)), "45s");
    assert_eq!(format_remaining(Span::from_millis(999)), "0s");
    assert_eq!(format_remaining(Span::from_millis(9_999)), "9s");
    assert_eq!(format_remaining(Span::from_secs(100 * 3600 + 7 * 60)), "100h 07m");
}

#[test]
fn tooltip_mentions_phase_and_pause() {
    assert_eq!(tooltip_description(Phase::Sitting, false), "Currently sitting");
    assert_eq!(tooltip_description(Phase::Standing, true), "Currently standing — paused");
}

#[test]
fn tray_menu_layout() {
    let status = TrayStatus {
        phase: Phase::Standing,
        remaining: Span::from_secs(750),
        sit_duration: Span::from_secs(2700),
        stand_duration: Span::from_secs(900),
    };
    let menu = tray_menu(&status, true);
    assert_eq!(menu.len(), 9);
    match &menu[0] {
        MenuEntry::Standard { label, enabled, action, .. } => {
            assert_eq!(label, "Currently standing — 12m 30s left (paused)");
            assert!(!enabled);
            assert!(action.is_none());
        }
        other => panic!("unexpected {other:?}"),
    }
    match &menu[1] {
        MenuEntry::Standard { label, enabled, .. } => {
            assert_eq!(label, "Configured: sit 45m, stand 15m");
            assert!(!enabled);
        }
        other => panic!("unexpected {other:?}"),
    }
    assert!(matches!(menu[2], MenuEntry::Separator));
    match &menu[3] {
        MenuEntry::Checkmark { label, checked, on_toggle } => {
            assert_eq!(label, "Pause reminders");
            assert!(*checked);
            assert_eq!(*on_toggle, MenuAction::TogglePause);
        }
        other => panic!("unexpected {other:?}"),
    }
    match &menu[6] {
        MenuEntry::Standard { label, icon_name, action, enabled } => {
            assert_eq!(label, "Edit configuration…");
            assert_eq!(icon_name, "document-edit");
            assert_eq!(*action, Some(MenuAction::EditConfig));
            assert!(*enabled);
        }
        other => panic!("unexpected {other:?}"),
    }
    match &menu[8] {
        MenuEntry::Standard { label, action, .. } => {
            assert_eq!(label, "Quit");
            assert_eq!(*action, Some(MenuAction::Quit));
        }
        other => panic!("unexpected {other:?}"),
    }
    let running = tray_menu(&status, false);
    match &running[0] {
        MenuEntry::Standard { label, .. } => {
            assert_eq!(label, "Currently standing — 12m 30s left")
        }
        other => panic!("unexpected {other:?}"),
    }
}

#[test]
fn reminder_notification_content() {
    let config = Config::default();
    let stand = reminder_notification(&config, Phase::Standing);
    assert_eq!(stand.app_name, APP_NAME);
    assert_eq!(stand.summary, "Time to stand up");
    assert_eq!(stand.body, "Time to stand up and stretch your legs.");
    assert_eq!(stand.icon, "go-up");
    assert_eq!(stand.urgency, Some(Urgency::Normal));
    assert_eq!(stand.timeout_ms, Some(12_000));
    assert_eq!(stand.sound_name.as_deref(), Some("message"));

    let quiet = Config {
        sound: false,
        ..Config::default()
    };
    let sit = reminder_notification(&quiet, Phase::Sitting);
    assert_eq!(sit.summary, "Time to sit down");
    assert_eq!(sit.body, "Time to sit down for a bit.");
    assert_eq!(sit.icon, "go-down");
    assert_eq!(sit.sound_name, None);
}

#[test]
fn startup_notification_content() {
    let config = Config::default();
    let note = startup_notification(&config);
    assert_eq!(note.summary, "Standing Desk Reminder");
    assert_eq!(
        note.body,
        "Running. Sit for 45m, stand for 15m. First reminder in 45m."
    );
    assert_eq!(note.icon, "appointment-soon");
    assert_eq!(note.urgency, Some(Urgency::Low));
    assert_eq!(note.timeout_ms, Some(6_000));

    let standing = Config {
        start_phase: Phase::Standing,
        stand_duration: Span::from_secs(5400),
        ..Config::default()
    };
    assert_eq!(
        startup_notification(&standing).body,
        "Running. Sit for 45m, stand for 1h 30m. First reminder in 1h 30m."
    );
}

#[test]
fn reload_failure_notice() {
    let note = reload_failure_notification("`sit_duration` must be greater than zero");
    assert_eq!(note.summary, "Config reload failed");
    assert_eq!(
        note.body,
        "`sit_duration` must be greater than zero\nKeeping the previous settings."
    );
    assert_eq!(note.urgency, None);
    assert_eq!(note.timeout_ms, None);
    assert_eq!(note.icon, "");
    let plain = simple_notification("a", "b");
    assert_eq!(plain.summary, "a");
    assert_eq!(plain.body, "b");
}

#[test]
fn icon_style_by_phase() {
    assert_eq!(
        icon_style(Phase::Standing, false),
        IconStyle { color: Rgb { red: 0x2E, green: 0xCC, blue: 0x71 }, point_up: true }
    );
    assert_eq!(
        icon_style(Phase::Sitting, false),
        IconStyle { color: Rgb { red: 0x34, green: 0x98, blue: 0xDB }, point_up: false }
    );
    assert_eq!(
        icon_style(Phase::Sitting, true),
        IconStyle { color: Rgb { red: 0x9E, green: 0x9E, blue: 0x9E }, point_up: false }
    );
    assert_eq!(icon_sizes(), [22, 32, 48]);
}

#[test]
fn lock_changes_are_deduplicated() {
    assert_eq!(lock_transition(false, Some(false)), None);
    assert_eq!(lock_transition(false, Some(true)), Some(true));
    assert_eq!(lock_transition(true, Some(true)), None);
    assert_eq!(lock_transition(true, None), Some(false));
    assert_eq!(lock_transition(false, None), None);
}

#[test]
fn unit_points_at_executable() {
    let unit = unit_contents("/opt/bin/standing-desk-reminder");
    assert!(unit.contains("ExecStart=/opt/bin/standing-desk-reminder\n"));
    assert!(!unit.contains(EXEC_PLACEHOLDER));
    assert_eq!(unit, UNIT_TEMPLATE.replace(EXEC_PLACEHOLDER, "/opt/bin/standing-desk-reminder"));
    let odd = unit_contents("/home/zoë/bin/r %h");
    assert_eq!(odd, UNIT_TEMPLATE.replace(EXEC_PLACEHOLDER, "/home/zoë/bin/r %h"));
    assert_eq!(UNIT_NAME, "standing-desk-reminder.service");
}

#[test]
fn startup_text_from_given_lengths() {
    assert_eq!(
        startup_message("45m", "15m", "45m"),
        "Running. Sit for 45m, stand for 15m. First reminder in 45m."
    );
    let note = startup_notification_from("1h", "10m", "10m");
    assert_eq!(note.body, "Running. Sit for 1h, stand for 10m. First reminder in 10m.");
    assert_eq!(note.summary, APP_NAME);
    assert_eq!(note.urgency, Some(Urgency::Low));
}

#[test]
fn configured_line_from_given_lengths() {
    assert_eq!(configured_line("45m", "15m"), "Configured: sit 45m, stand 15m");
    let status = TrayStatus {
        phase: Phase::Sitting,
        remaining: Span::from_secs(45),
        sit_duration: Span::from_secs(2700),
        stand_duration: Span::from_secs(900),
    };
    let menu = tray_menu_with(&status, false, configured_line("a", "b"));
    match &menu[1] {
        MenuEntry::Standard { label, .. } => assert_eq!(label, "Configured: sit a, stand b"),
        other => panic!("unexpected {other:?}"),
    }
    match &menu[0] {
        MenuEntry::Standard { label, .. } => assert_eq!(label, "Currently sitting — 45s left"),
        other => panic!("unexpected {other:?}"),
    }
}
