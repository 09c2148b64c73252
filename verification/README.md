# standing-desk-reminder

A desktop nudge to alternate between sitting and standing: desktop
notifications on a configurable cadence, an optional tray icon, and an
optional `systemd --user` service.

The decisions are a Verus-verified library (`src/`):

- `span` – `Span`, a nanosecond-precise length of time shaped like
  `std::time::Duration`, with the few operations the countdown needs.
- `config` – `Phase`, `Config`, its defaults, the default file template and
  validation.
- `humane` – friendly durations ("45m", "1h 30m"), read and written by the
  `humantime` crate.
- `reminder` – command-line `Overrides`, the shared `Controls` flags and the
  order in which the loop answers them, and the `Scheduler` state machine that
  alternates the phases; laws about all three are proved there.
- `notify`, `tray`, `icon`, `service`, `lock` – the content of every
  notification, the tray's countdown text, tooltip and menu, the icon's
  colour and direction, the service unit, and which lock-hint readings matter.

`app/` is the program around it: command-line parsing, reading and writing
the TOML file, the loop that sleeps and performs what the scheduler decides,
sending notifications over D-Bus, the tray (`ksni`), pixel drawing, the
screen-lock watcher (`zbus`) and `systemctl`.
