//! What the system tray shows: the compact countdown, the tooltip and the
//! menu entries. Registering the tray with the desktop is the program's job.

use vstd::prelude::*;

use crate::config::{phase_name, Phase};
use crate::humane::{format_span, humantime_format};
use crate::reminder::{
    performed, toggled, with_quit, with_request, ControlsView, MenuAction, OneShot, TrayStatus,
};
use crate::span::{whole_secs, Span};
use crate::text::{
    all_digits, decimal, decimal_value, lemma_decimal_reads_back, lemma_two_digits_read_back,
    push_decimal, push_two_digits, two_digits,
};

verus! {

/// `secs` seconds written compactly: "1h 05m" from an hour on (seconds
/// dropped), "12m 30s" from a minute on, else "45s".
pub open spec fn remaining_text(secs: nat) -> Seq<char> {
    let h = secs / 3600;
    let m = (secs % 3600) / 60;
    let s = secs % 60;
    if h > 0 {
        decimal(h) + "h "@ + two_digits(m) + "m"@
    } else if m > 0 {
        decimal(m) + "m "@ + two_digits(s) + "s"@
    } else {
        decimal(s) + "s"@
    }
}

/// `t` is `lead` digits spelling `big`, then `unit` and a space, then two
/// digits spelling `small`, then `small_unit`.
pub open spec fn reads_as_pair(t: Seq<char>, big: nat, unit: char, small: nat, small_unit: char) -> bool {
    let n = t.len() as int;
    &&& n >= 6
    &&& all_digits(t.subrange(0, n - 5))
    &&& decimal_value(t.subrange(0, n - 5)) == big
    &&& t[n - 5] == unit
    &&& t[n - 4] == ' '
    &&& all_digits(t.subrange(n - 3, n - 1))
    &&& decimal_value(t.subrange(n - 3, n - 1)) == small
    &&& t[n - 1] == small_unit
}

/// The compact countdown reads back as the time it stands for: from an hour
/// on, the whole hours then the whole minutes past the hour (two digits);
/// from a minute on, the whole minutes then the seconds past the minute (two
/// digits); below a minute, the seconds.
pub proof fn lemma_remaining_text_reads_back(secs: nat)
    ensures
        ({
            let t = remaining_text(secs);
            let n = t.len() as int;
            if secs >= 3600 {
                reads_as_pair(t, secs / 3600, 'h', (secs % 3600) / 60, 'm')
            } else if secs >= 60 {
                reads_as_pair(t, secs / 60, 'm', secs % 60, 's')
            } else {
                &&& n >= 2
                &&& all_digits(t.subrange(0, n - 1))
                &&& decimal_value(t.subrange(0, n - 1)) == secs
                &&& t[n - 1] == 's'
            }
        }),
{
    reveal_strlit("h ");
    reveal_strlit("m ");
    reveal_strlit("m");
    reveal_strlit("s");
    let h = secs / 3600;
    let m = (secs % 3600) / 60;
    let s = secs % 60;
    let t = remaining_text(secs);
    if secs >= 3600 {
        lemma_decimal_reads_back(h);
        lemma_two_digits_read_back(m);
        let a = decimal(h);
        let b = two_digits(m);
        assert(t == a + "h "@ + b + "m"@);
        let n = t.len() as int;
        assert(n == a.len() + 5);
        assert(t.subrange(0, n - 5) =~= a);
        assert(t.subrange(n - 3, n - 1) =~= b);
    } else if secs >= 60 {
        assert(h == 0);
        assert(m == secs / 60);
        lemma_decimal_reads_back(m);
        lemma_two_digits_read_back(s);
        let a = decimal(m);
        let b = two_digits(s);
        assert(t == a + "m "@ + b + "s"@);
        let n = t.len() as int;
        assert(n == a.len() + 5);
        assert(t.subrange(0, n - 5) =~= a);
        assert(t.subrange(n - 3, n - 1) =~= b);
    } else {
        lemma_decimal_reads_back(s);
        let a = decimal(s);
        assert(t == a + "s"@);
        let n = t.len() as int;
        assert(t.subrange(0, n - 1) =~= a);
    }
}

/// Format a remaining duration compactly, e.g. "1h 05m", "12m 30s", "45s";
/// fractions of a second are dropped.
pub fn format_remaining(remaining: Span) -> (r: String)
    ensures
        r@ == remaining_text(whole_secs(remaining@)),
{
    let secs = remaining.as_secs();
    let h = secs / 3600;
    let m = (secs % 3600) / 60;
    let s = secs % 60;
    let mut out = String::new();
    if h > 0 {
        push_decimal(&mut out, h);
        out.append("h ");
        push_two_digits(&mut out, m);
        out.append("m");
    } else if m > 0 {
        push_decimal(&mut out, m);
        out.append("m ");
        push_two_digits(&mut out, s);
        out.append("s");
    } else {
        push_decimal(&mut out, s);
        out.append("s");
    }
    assert(out@ =~= remaining_text(secs as nat));
    out
}

/// The tooltip text: the current phase, and whether the reminders are paused.
pub open spec fn tooltip_text(phase: Phase, paused: bool) -> Seq<char> {
    if paused {
        "Currently "@ + phase_name(phase) + " — paused"@
    } else {
        "Currently "@ + phase_name(phase)
    }
}

/// The tooltip's description line, e.g. "Currently sitting — paused".
pub fn tooltip_description(phase: Phase, paused: bool) -> (r: String)
    ensures
        r@ == tooltip_text(phase, paused),
{
    let mut out = String::from_str("Currently ");
    out.append(phase.name());
    if paused {
        out.append(" — paused");
    }
    assert(out@ =~= tooltip_text(phase, paused));
    out
}

/// One entry of the tray menu.
#[derive(Debug)]
pub enum MenuEntry {
    /// A plain entry; greyed out when not `enabled`.
    Standard { label: String, enabled: bool, icon_name: String, action: Option<MenuAction> },
    /// An entry with a check box.
    Checkmark { label: String, checked: bool, on_toggle: MenuAction },
    /// A dividing line.
    Separator,
}

/// The first menu line: phase, countdown, and pause state.
pub open spec fn countdown_label(status: TrayStatus, paused: bool) -> Seq<char> {
    let base = "Currently "@ + phase_name(status.phase) + " — "@ + remaining_text(
        whole_secs(status.remaining@),
    ) + " left"@;
    if paused {
        base + " (paused)"@
    } else {
        base
    }
}

/// The second menu line, given the friendly texts of the configured lengths.
pub open spec fn configured_text(sit: Seq<char>, stand: Seq<char>) -> Seq<char> {
    "Configured: sit "@ + sit + ", stand "@ + stand
}

/// The second menu line: the configured durations.
pub open spec fn configured_label(status: TrayStatus) -> Seq<char> {
    configured_text(humantime_format(status.sit_duration@), humantime_format(status.stand_duration@))
}

/// `e` is a greyed-out information line reading `label`.
pub open spec fn is_info(e: MenuEntry, label: Seq<char>) -> bool {
    e matches MenuEntry::Standard { label: l, enabled, icon_name, action } && l@ == label
        && !enabled && icon_name@ == Seq::<char>::empty() && action is None
}

/// `e` is an active entry reading `label`, with icon `icon`, doing `act`.
pub open spec fn is_button(e: MenuEntry, label: Seq<char>, icon: Seq<char>, act: MenuAction) -> bool {
    e matches MenuEntry::Standard { label: l, enabled, icon_name, action } && l@ == label && enabled
        && icon_name@ == icon && action == Some(act)
}

/// The tray menu for `status` (paused or not): two information lines, the
/// pause check box, "Switch now", "Edit configuration…" and "Quit", with
/// dividers between the groups.
pub open spec fn is_tray_menu(m: Seq<MenuEntry>, status: TrayStatus, paused: bool) -> bool {
    menu_layout(m, status, paused, configured_label(status))
}

/// The tray menu for `status` (paused or not) whose second line reads
/// `configured`.
pub open spec fn menu_layout(
    m: Seq<MenuEntry>,
    status: TrayStatus,
    paused: bool,
    configured: Seq<char>,
) -> bool {
    &&& m.len() == 9
    &&& is_info(m[0], countdown_label(status, paused))
    &&& is_info(m[1], configured)
    &&& m[2] is Separator
    &&& m[3] matches MenuEntry::Checkmark { label, checked, on_toggle } && label@
        == "Pause reminders"@ && checked == paused && on_toggle == MenuAction::TogglePause
    &&& is_button(m[4], "Switch now"@, Seq::<char>::empty(), MenuAction::SwitchNow)
    &&& m[5] is Separator
    &&& is_button(m[6], "Edit configuration…"@, "document-edit"@, MenuAction::EditConfig)
    &&& m[7] is Separator
    &&& is_button(m[8], "Quit"@, "application-exit"@, MenuAction::Quit)
}

/// The second menu line from the friendly texts of the configured lengths,
/// e.g. "Configured: sit 45m, stand 15m".
pub fn configured_line(sit: &str, stand: &str) -> (r: String)
    ensures
        r@ == configured_text(sit@, stand@),
{
    let mut line = String::from_str("Configured: sit ");
    line.append(sit);
    line.append(", stand ");
    line.append(stand);
    line
}

/// The tray menu for the given snapshot and pause state.
pub fn tray_menu(status: &TrayStatus, paused: bool) -> (r: Vec<MenuEntry>)
    ensures
        is_tray_menu(r@, *status, paused),
{
    let sit = format_span(status.sit_duration);
    let stand = format_span(status.stand_duration);
    tray_menu_with(status, paused, configured_line(sit.as_str(), stand.as_str()))
}

/// The tray menu for the given snapshot and pause state, its second line
/// reading `configured`.
pub fn tray_menu_with(status: &TrayStatus, paused: bool, configured: String) -> (r: Vec<MenuEntry>)
    ensures
        menu_layout(r@, *status, paused, configured@),
{
    let mut countdown = String::from_str("Currently ");
    countdown.append(status.phase.name());
    countdown.append(" — ");
    countdown.append(format_remaining(status.remaining).as_str());
    countdown.append(" left");
    if paused {
        countdown.append(" (paused)");
    }
    assert(countdown@ =~= countdown_label(*status, paused));

    let mut menu: Vec<MenuEntry> = Vec::new();
    menu.push(
        MenuEntry::Standard {
            label: countdown,
            enabled: false,
            icon_name: String::new(),
            action: None,
        },
    );
    menu.push(
        MenuEntry::Standard {
            label: configured,
            enabled: false,
            icon_name: String::new(),
            action: None,
        },
    );
    menu.push(MenuEntry::Separator);
    menu.push(
        MenuEntry::Checkmark {
            label: String::from_str("Pause reminders"),
            checked: paused,
            on_toggle: MenuAction::TogglePause,
        },
    );
    menu.push(
        MenuEntry::Standard {
            label: String::from_str("Switch now"),
            enabled: true,
            icon_name: String::new(),
            action: Some(MenuAction::SwitchNow),
        },
    );
    menu.push(MenuEntry::Separator);
    menu.push(
        MenuEntry::Standard {
            label: String::from_str("Edit configuration…"),
            enabled: true,
            icon_name: String::from_str("document-edit"),
            action: Some(MenuAction::EditConfig),
        },
    );
    menu.push(MenuEntry::Separator);
    menu.push(
        MenuEntry::Standard {
            label: String::from_str("Quit"),
            enabled: true,
            icon_name: String::from_str("application-exit"),
            action: Some(MenuAction::Quit),
        },
    );
    menu
}

/// Every active menu entry does what its label says, whatever the flags `c`
/// were: "Pause reminders" (checked exactly while paused) flips the pause,
/// "Switch now" raises the skip request and nothing else, "Edit
/// configuration…" changes no flag, and "Quit" requests the quit.
pub proof fn lemma_menu_entries_do_what_they_say(
    m: Seq<MenuEntry>,
    status: TrayStatus,
    paused: bool,
    c: ControlsView,
)
    requires
        is_tray_menu(m, status, paused),
    ensures
        m[3] matches MenuEntry::Checkmark { label, checked, on_toggle } && label@
            == "Pause reminders"@ && checked == paused && performed(c, on_toggle) == toggled(c),
        m[4] matches MenuEntry::Standard { label, action, enabled, .. } && label@ == "Switch now"@
            && enabled && action is Some && performed(c, action->0) == with_request(
            c,
            OneShot::Skip,
            true,
        ),
        m[6] matches MenuEntry::Standard { label, action, enabled, .. } && label@
            == "Edit configuration…"@ && enabled && action is Some && performed(c, action->0) == c,
        m[8] matches MenuEntry::Standard { label, action, enabled, .. } && label@ == "Quit"@
            && enabled && action is Some && performed(c, action->0) == with_quit(c),
{
}

} // verus!
