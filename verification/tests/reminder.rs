use standing_desk_reminder::config::{Config, ConfigError, Phase};
use standing_desk_reminder::reminder::{
    poll_interval, reload, Controls, Event, MenuAction, Overrides, Request, Scheduler,
    TrayStatus,
};
use standing_desk_reminder::span::Span;

#[test]
fn toggle_paused_flips_and_reports_new_state() {
    let mut controls = Controls::new();
    assert!(!controls.is_paused());
    assert!(controls.toggle_paused());
    assert!(controls.is_paused());
    assert!(!controls.toggle_paused());
    assert!(!controls.is_paused());
}

#[test]
fn skip_is_taken_once() {
    let mut controls = Controls::new();
    controls.request_skip();
    assert!(controls.take_skip());
    assert!(!controls.take_skip());
}

#[test]
fn restart_and_snooze_are_taken_once() {
    let mut controls = Controls::new();
    controls.request_restart();
    controls.request_snooze();
    assert!(controls.take_restart());
    assert!(!controls.take_restart());
    assert!(controls.take_snooze());
    assert!(!controls.take_snooze());
}

#[test]
fn lock_state_round_trips() {
    let mut controls = Controls::new();
    assert!(!controls.is_locked());
    controls.set_locked(true);
    assert!(controls.is_locked());
    controls.set_locked(false);
    assert!(!controls.is_locked());
}

#[test]
fn reload_is_taken_once_and_quit_stays() {
    let mut controls = Controls::new();
    controls.request_reload();
    assert!(controls.take_reload());
    assert!(!controls.take_reload());
    assert!(!controls.quit_requested());
    controls.request_quit();
    assert!(controls.quit_requested());
    assert!(controls.quit_requested());
}

#[test]
fn poll_answers_in_priority_order() {
    let mut controls = Controls::new();
    assert_eq!(controls.poll(), Request::Tick);
    controls.toggle_paused();
    assert_eq!(controls.poll(), Request::Frozen);
    controls.request_snooze();
    controls.request_restart();
    controls.request_skip();
    controls.request_reload();
    assert_eq!(controls.poll(), Request::Reload);
    assert_eq!(controls.poll(), Request::Skip);
    assert_eq!(controls.poll(), Request::Restart);
    assert_eq!(controls.poll(), Request::Snooze);
    assert_eq!(controls.poll(), Request::Frozen);
    controls.toggle_paused();
    controls.set_locked(true);
    assert_eq!(controls.poll(), Request::Frozen);
    controls.set_locked(false);
    assert_eq!(controls.poll(), Request::Tick);
    controls.request_skip();
    controls.request_quit();
    assert_eq!(controls.poll(), Request::Quit);
    assert_eq!(controls.poll(), Request::Quit);
    assert!(controls.take_skip());
}

#[test]
fn menu_actions_drive_controls() {
    let mut controls = Controls::new();
    assert!(!controls.perform(MenuAction::TogglePause));
    assert!(controls.is_paused());
    assert!(!controls.perform(MenuAction::SwitchNow));
    assert!(controls.take_skip());
    assert!(controls.perform(MenuAction::EditConfig));
    assert!(!controls.quit_requested());
    assert!(!controls.perform(MenuAction::Quit));
    assert!(controls.quit_requested());
}

#[test]
fn overrides_replace_named_fields() {
    let mut config = Config::default();
    let overrides = Overrides {
        sit: Some(Span::from_secs(60)),
        stand: None,
        no_sound: true,
    };
    overrides.apply(&mut config);
    assert_eq!(config.sit_duration, Span::from_secs(60));
    assert_eq!(config.stand_duration, Span::from_secs(900));
    assert!(!config.sound);
    let once = config.clone();
    overrides.apply(&mut config);
    assert_eq!(config, once);

    let mut untouched = Config::default();
    Overrides::default().apply(&mut untouched);
    assert_eq!(untouched, Config::default());
}

#[test]
fn reload_checks_overridden_config() {
    let overrides = Overrides {
        sit: None,
        stand: Some(Span::zero()),
        no_sound: false,
    };
    assert_eq!(reload(Config::default(), &overrides), Err(ConfigError::ZeroStandDuration));
    let fine = Overrides {
        sit: Some(Span::from_secs(10)),
        stand: None,
        no_sound: false,
    };
    let config = reload(Config::default(), &fine).unwrap();
    assert_eq!(config.sit_duration, Span::from_secs(10));
}

fn short_config() -> Config {
    Config {
        sit_duration: Span::from_secs(3),
        stand_duration: Span::from_secs(2),
        snooze_duration: Span::from_secs(1),
        ..Config::default()
    }
}

#[test]
fn scheduler_starts_in_configured_phase() {
    let config = Config {
        start_phase: Phase::Standing,
        ..Config::default()
    };
    let scheduler = Scheduler::new(config);
    assert_eq!(scheduler.phase(), Phase::Standing);
    assert_eq!(scheduler.remaining(), Span::from_secs(900));
    assert_eq!(
        scheduler.status(),
        TrayStatus {
            phase: Phase::Standing,
            remaining: Span::from_secs(900),
            sit_duration: Span::from_secs(2700),
            stand_duration: Span::from_secs(900),
        }
    );
    assert_eq!(scheduler.next_tick(), poll_interval());
    assert_eq!(poll_interval(), Span::from_millis(250));
}

#[test]
fn ticks_count_down_and_refresh_once_per_second() {
    let mut scheduler = Scheduler::new(short_config());
    // 3.000s -> 2.750s: whole seconds change from 3 to 2.
    let out = scheduler.step(Event::Elapsed(Span::from_millis(250)));
    assert_eq!(scheduler.remaining(), Span::from_millis(2750));
    assert_eq!(out.status.unwrap().remaining, Span::from_millis(2750));
    assert_eq!(out.switched_to, None);
    // 2.750s -> 2.500s: still 2 whole seconds, no refresh.
    let out = scheduler.step(Event::Elapsed(Span::from_millis(250)));
    assert!(out.status.is_none());
    assert_eq!(scheduler.phase(), Phase::Sitting);
}

#[test]
fn countdown_running_out_switches_and_reminds() {
    let mut scheduler = Scheduler::new(short_config());
    let out = scheduler.step(Event::Elapsed(Span::from_secs(3)));
    assert_eq!(out.switched_to, Some(Phase::Standing));
    assert_eq!(scheduler.phase(), Phase::Standing);
    assert_eq!(scheduler.remaining(), Span::from_secs(2));
    assert_eq!(out.status.unwrap().phase, Phase::Standing);
    // Overshooting also switches, back to sitting.
    let out = scheduler.step(Event::Elapsed(Span::from_secs(5)));
    assert_eq!(out.switched_to, Some(Phase::Sitting));
    assert_eq!(scheduler.remaining(), Span::from_secs(3));
}

#[test]
fn skip_restart_and_snooze() {
    let mut scheduler = Scheduler::new(short_config());
    scheduler.step(Event::Elapsed(Span::from_secs(1)));
    let out = scheduler.step(Event::Restart);
    assert_eq!(scheduler.remaining(), Span::from_secs(3));
    assert_eq!(out.switched_to, None);
    assert!(out.status.is_some());

    let out = scheduler.step(Event::Skip);
    assert_eq!(scheduler.phase(), Phase::Standing);
    assert_eq!(scheduler.remaining(), Span::from_secs(2));
    assert_eq!(out.switched_to, None);

    let out = scheduler.step(Event::Snooze);
    assert_eq!(scheduler.phase(), Phase::Sitting);
    assert_eq!(scheduler.remaining(), Span::from_secs(1));
    assert_eq!(out.status.unwrap().remaining, Span::from_secs(1));
}

#[test]
fn reload_clamps_but_never_lengthens() {
    let mut scheduler = Scheduler::new(short_config());
    let shorter = Config {
        sit_duration: Span::from_secs(1),
        ..short_config()
    };
    let out = scheduler.step(Event::Reloaded(shorter));
    assert_eq!(scheduler.remaining(), Span::from_secs(1));
    assert_eq!(out.status.unwrap().sit_duration, Span::from_secs(1));

    let longer = Config {
        sit_duration: Span::from_secs(100),
        ..short_config()
    };
    scheduler.step(Event::Reloaded(longer));
    assert_eq!(scheduler.remaining(), Span::from_secs(1));
    assert_eq!(scheduler.config().sit_duration, Span::from_secs(100));
    // The longer phase applies from the next switch into it.
    scheduler.step(Event::Elapsed(Span::from_secs(1)));
    scheduler.step(Event::Elapsed(Span::from_secs(2)));
    assert_eq!(scheduler.phase(), Phase::Sitting);
    assert_eq!(scheduler.remaining(), Span::from_secs(100));
}

#[test]
fn failed_reload_keeps_settings() {
    let mut scheduler = Scheduler::new(short_config());
    let out = scheduler.step(Event::ReloadFailed("bad file".to_string()));
    assert_eq!(out.reload_error.as_deref(), Some("bad file"));
    assert!(out.status.is_none());
    assert_eq!(scheduler.remaining(), Span::from_secs(3));
    assert_eq!(scheduler.config(), &short_config());
}

#[test]
fn full_cycle_returns_to_start() {
    let config = short_config();
    let mut scheduler = Scheduler::new(config.clone());
    let mut reminders = Vec::new();
    for _ in 0..20 {
        let tick = scheduler.next_tick();
        let out = scheduler.step(Event::Elapsed(tick));
        if let Some(phase) = out.switched_to {
            reminders.push(phase);
        }
    }
    // 20 ticks of 250ms = 5s = one sit (3s) plus one stand (2s).
    assert_eq!(reminders, vec![Phase::Standing, Phase::Sitting]);
    assert_eq!(scheduler.phase(), Phase::Sitting);
    assert_eq!(scheduler.remaining(), config.sit_duration);
}

#[test]
fn pause_follows_toggle_parity() {
    let mut controls = Controls::new();
    for k in 1..=7u32 {
        controls.toggle_paused();
        controls.request_skip();
        controls.poll();
        assert_eq!(controls.is_paused(), k % 2 == 1);
    }
    controls.perform(MenuAction::TogglePause);
    assert!(!controls.is_paused());
}

#[test]
fn repeated_requests_do_not_accumulate() {
    let mut controls = Controls::new();
    for _ in 0..5 {
        controls.request_skip();
    }
    assert!(controls.take_skip());
    assert!(!controls.take_skip());
    assert!(!controls.is_paused());
    assert!(!controls.take_restart());
}

#[test]
fn quit_is_never_cleared() {
    let mut controls = Controls::new();
    controls.request_quit();
    controls.toggle_paused();
    controls.request_reload();
    controls.poll();
    controls.take_reload();
    controls.set_locked(true);
    controls.perform(MenuAction::SwitchNow);
    controls.take_skip();
    assert!(controls.quit_requested());
    assert_eq!(controls.poll(), Request::Quit);
}
