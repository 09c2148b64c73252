//! The reminder's decisions: command-line overrides, the shared control flags
//! that the tray menu, notification actions, the screen-lock watcher and
//! Ctrl-C set, and the scheduler that alternates the phases.

use vstd::prelude::*;

use crate::config::{
    config_valid, flipped, phase_length, validation, Config, ConfigError, Phase,
};
use crate::span::{min_nat, saturating_diff, whole_secs, Span};

verus! {

// ---------------------------------------------------------------------------
// Overrides
// ---------------------------------------------------------------------------

/// Command-line overrides, re-applied on top of the file on every (re)load.
#[derive(Clone, Copy, Debug)]
pub struct Overrides {
    pub sit: Option<Span>,
    pub stand: Option<Span>,
    pub no_sound: bool,
}

/// `config` with the overrides applied.
pub open spec fn overridden(overrides: Overrides, config: Config) -> Config {
    Config {
        sit_duration: match overrides.sit {
            Some(sit) => sit,
            None => config.sit_duration,
        },
        stand_duration: match overrides.stand {
            Some(stand) => stand,
            None => config.stand_duration,
        },
        sound: if overrides.no_sound { false } else { config.sound },
        ..config
    }
}

/// What re-reading the configuration yields once the file has been parsed:
/// the overridden configuration if it is valid, else the reason it is not.
pub open spec fn reload_result(loaded: Config, overrides: Overrides) -> Result<Config, ConfigError> {
    let config = overridden(overrides, loaded);
    match validation(config) {
        Ok(_) => Ok(config),
        Err(error) => Err(error),
    }
}

impl Default for Overrides {
    fn default() -> (r: Overrides)
        ensures
            r.sit is None,
            r.stand is None,
            !r.no_sound,
    {
        Overrides { sit: None, stand: None, no_sound: false }
    }
}

impl Overrides {
    /// Replace the configured durations with the overriding ones, and turn the
    /// sound off when asked to; everything else is left alone.
    pub fn apply(&self, config: &mut Config)
        ensures
            *final(config) == overridden(*self, *old(config)),
            final(config).sound == (old(config).sound && !self.no_sound),
    {
        if let Some(sit) = self.sit {
            config.sit_duration = sit;
        }
        if let Some(stand) = self.stand {
            config.stand_duration = stand;
        }
        if self.no_sound {
            config.sound = false;
        }
    }
}

/// Applying the same overrides a second time changes nothing, so re-applying
/// them on every reload is safe.
pub proof fn lemma_apply_idempotent(overrides: Overrides, config: Config)
    ensures
        overridden(overrides, overridden(overrides, config)) == overridden(overrides, config),
{
}

/// Overrides decide the fields they name, whatever the file said.
pub proof fn lemma_overrides_win(overrides: Overrides, config: Config)
    ensures
        overrides.sit matches Some(sit) ==> overridden(overrides, config).sit_duration == sit,
        overrides.stand matches Some(stand) ==> overridden(overrides, config).stand_duration
            == stand,
        overrides.no_sound ==> !overridden(overrides, config).sound,
        overridden(overrides, config).start_phase == config.start_phase,
        overridden(overrides, config).snooze_duration == config.snooze_duration,
{
}

/// Overrides only ever turn the sound off: the overridden configuration asks
/// for sound exactly when the file does and `--no-sound` was not given, so
/// without `--no-sound` the file's choice stands either way. Durations not
/// overridden, the messages and the start phase are the file's.
pub proof fn lemma_overrides_only_silence(overrides: Overrides, config: Config)
    ensures
        overridden(overrides, config).sound == (config.sound && !overrides.no_sound),
        !overrides.no_sound ==> overridden(overrides, config).sound == config.sound,
        overrides.sit is None ==> overridden(overrides, config).sit_duration == config.sit_duration,
        overrides.stand is None ==> overridden(overrides, config).stand_duration
            == config.stand_duration,
        overridden(overrides, config).sit_message == config.sit_message,
        overridden(overrides, config).stand_message == config.stand_message,
{
}

/// Finish re-reading the configuration once the file has been parsed and
/// checked: re-apply the command-line overrides and check the result again.
pub fn reload(loaded: Config, overrides: &Overrides) -> (r: Result<Config, ConfigError>)
    ensures
        r == reload_result(loaded, *overrides),
        r matches Ok(config) ==> config_valid(config),
{
    let mut config = loaded;
    overrides.apply(&mut config);
    match config.validate() {
        Ok(()) => Ok(config),
        Err(error) => Err(error),
    }
}

// ---------------------------------------------------------------------------
// Controls
// ---------------------------------------------------------------------------

/// The state of every control flag.
#[derive(Clone, Copy, Debug, PartialEq, Eq, Structural)]
pub struct ControlsView {
    pub paused: bool,
    pub quit: bool,
    pub skip: bool,
    pub restart: bool,
    pub snooze: bool,
    pub reload: bool,
    pub locked: bool,
}

/// Control flags driven by the tray menu, notification actions, the
/// screen-lock watcher and Ctrl-C, and read by the reminder loop.
///
/// A program that shares them between threads keeps them behind a lock.
#[derive(Debug)]
pub struct Controls {
    paused: bool,
    quit: bool,
    skip: bool,
    restart: bool,
    snooze: bool,
    reload: bool,
    locked: bool,
}

impl View for Controls {
    type V = ControlsView;

    closed spec fn view(&self) -> ControlsView {
        ControlsView {
            paused: self.paused,
            quit: self.quit,
            skip: self.skip,
            restart: self.restart,
            snooze: self.snooze,
            reload: self.reload,
            locked: self.locked,
        }
    }
}

/// No flag raised.
pub open spec fn all_clear() -> ControlsView {
    ControlsView {
        paused: false,
        quit: false,
        skip: false,
        restart: false,
        snooze: false,
        reload: false,
        locked: false,
    }
}

/// The one-shot requests: raised by the user, answered once by the loop.
#[derive(Clone, Copy, Debug, PartialEq, Eq, Structural)]
pub enum OneShot {
    Skip,
    Restart,
    Snooze,
    Reload,
}

/// Whether request `k` is pending in `c`.
pub open spec fn pending(c: ControlsView, k: OneShot) -> bool {
    match k {
        OneShot::Skip => c.skip,
        OneShot::Restart => c.restart,
        OneShot::Snooze => c.snooze,
        OneShot::Reload => c.reload,
    }
}

/// `c` with request `k` set to `on`; every other flag unchanged.
pub open spec fn with_request(c: ControlsView, k: OneShot, on: bool) -> ControlsView {
    match k {
        OneShot::Skip => ControlsView { skip: on, ..c },
        OneShot::Restart => ControlsView { restart: on, ..c },
        OneShot::Snooze => ControlsView { snooze: on, ..c },
        OneShot::Reload => ControlsView { reload: on, ..c },
    }
}

/// `c` with the screen-lock state set to `locked`.
pub open spec fn with_locked(c: ControlsView, locked: bool) -> ControlsView {
    ControlsView { locked: locked, ..c }
}

/// `c` with the pause flipped.
pub open spec fn toggled(c: ControlsView) -> ControlsView {
    ControlsView { paused: !c.paused, ..c }
}

/// What the reminder loop does next, as the flags decide it.
#[derive(Clone, Copy, Debug, PartialEq, Eq, Structural)]
pub enum Request {
    /// Stop the loop.
    Quit,
    /// Re-read the configuration.
    Reload,
    /// Switch to the other phase now.
    Skip,
    /// Start the current phase's countdown again.
    Restart,
    /// Go back to the other phase for the snooze duration.
    Snooze,
    /// Paused or locked: wait one poll interval without counting down.
    Frozen,
    /// Count down.
    Tick,
}

/// What `poll` answers for flags `c`: quitting first, then a reload, a skip,
/// a restart, a snooze; while paused or locked the countdown is frozen.
pub open spec fn polled(c: ControlsView) -> Request {
    if c.quit {
        Request::Quit
    } else if c.reload {
        Request::Reload
    } else if c.skip {
        Request::Skip
    } else if c.restart {
        Request::Restart
    } else if c.snooze {
        Request::Snooze
    } else if c.paused || c.locked {
        Request::Frozen
    } else {
        Request::Tick
    }
}

/// The flags after `poll` has answered `request`: the one-shot request it
/// answered is consumed, every other flag stays.
pub open spec fn after_poll(c: ControlsView) -> ControlsView {
    match polled(c) {
        Request::Reload => with_request(c, OneShot::Reload, false),
        Request::Skip => with_request(c, OneShot::Skip, false),
        Request::Restart => with_request(c, OneShot::Restart, false),
        Request::Snooze => with_request(c, OneShot::Snooze, false),
        _ => c,
    }
}

/// The menu entries that act on the controls.
#[derive(Clone, Copy, Debug, PartialEq, Eq, Structural)]
pub enum MenuAction {
    /// Pause or resume the reminders.
    TogglePause,
    /// Switch to the other phase now.
    SwitchNow,
    /// Open the configuration file in an editor.
    EditConfig,
    /// Stop the program.
    Quit,
}

/// The flags after carrying out menu entry `action`.
pub open spec fn performed(c: ControlsView, action: MenuAction) -> ControlsView {
    match action {
        MenuAction::TogglePause => toggled(c),
        MenuAction::SwitchNow => with_request(c, OneShot::Skip, true),
        MenuAction::EditConfig => c,
        MenuAction::Quit => with_quit(c),
    }
}

/// `c` with a quit requested.
pub open spec fn with_quit(c: ControlsView) -> ControlsView {
    ControlsView { quit: true, ..c }
}

/// The operations that change the controls, one per mutating method.
#[derive(Clone, Copy, Debug, PartialEq, Eq, Structural)]
pub enum ControlOp {
    /// `toggle_paused`
    TogglePause,
    /// `request_skip`, `request_restart`, `request_snooze`, `request_reload`
    Request(OneShot),
    /// `request_quit`
    RequestQuit,
    /// `set_locked`
    SetLocked(bool),
    /// `take_skip`, `take_restart`, `take_snooze`, `take_reload`
    Take(OneShot),
    /// `poll`
    Poll,
    /// `perform`
    Perform(MenuAction),
}

/// The flags after operation `op`.
pub open spec fn apply_op(c: ControlsView, op: ControlOp) -> ControlsView {
    match op {
        ControlOp::TogglePause => toggled(c),
        ControlOp::Request(k) => with_request(c, k, true),
        ControlOp::RequestQuit => with_quit(c),
        ControlOp::SetLocked(locked) => with_locked(c, locked),
        ControlOp::Take(k) => with_request(c, k, false),
        ControlOp::Poll => after_poll(c),
        ControlOp::Perform(action) => performed(c, action),
    }
}

/// The flags after the operations `ops`, in order, starting from `c`.
pub open spec fn run_ops(c: ControlsView, ops: Seq<ControlOp>) -> ControlsView
    decreases ops.len(),
{
    if ops.len() == 0 {
        c
    } else {
        apply_op(run_ops(c, ops.drop_last()), ops.last())
    }
}

/// Whether `op` flips the pause.
pub open spec fn is_toggle(op: ControlOp) -> bool {
    op == ControlOp::TogglePause || op == ControlOp::Perform(MenuAction::TogglePause)
}

/// How many of `ops` flip the pause.
pub open spec fn toggle_count(ops: Seq<ControlOp>) -> nat
    decreases ops.len(),
{
    if ops.len() == 0 {
        0
    } else {
        toggle_count(ops.drop_last()) + if is_toggle(ops.last()) {
            1nat
        } else {
            0nat
        }
    }
}

impl Default for Controls {
    fn default() -> (r: Controls)
        ensures
            r@ == all_clear(),
    {
        Controls {
            paused: false,
            quit: false,
            skip: false,
            restart: false,
            snooze: false,
            reload: false,
            locked: false,
        }
    }
}

impl Controls {
    /// Fresh controls: running, unlocked, nothing requested.
    pub fn new() -> (r: Controls)
        ensures
            r@ == all_clear(),
    {
        Controls::default()
    }

    pub fn is_paused(&self) -> (r: bool)
        ensures
            r == self@.paused,
    {
        self.paused
    }

    /// Flip the paused flag, returning the new state.
    pub fn toggle_paused(&mut self) -> (r: bool)
        ensures
            final(self)@ == apply_op(old(self)@, ControlOp::TogglePause),
            final(self)@ == toggled(old(self)@),
            r == final(self)@.paused,
    {
        self.paused = !self.paused;
        self.paused
    }

    /// Ask for a switch to the other phase now.
    pub fn request_skip(&mut self)
        ensures
            final(self)@ == apply_op(old(self)@, ControlOp::Request(OneShot::Skip)),
            final(self)@ == with_request(old(self)@, OneShot::Skip, true),
    {
        self.skip = true;
    }

    /// Restart the current phase's countdown from the full duration.
    pub fn request_restart(&mut self)
        ensures
            final(self)@ == apply_op(old(self)@, ControlOp::Request(OneShot::Restart)),
            final(self)@ == with_request(old(self)@, OneShot::Restart, true),
    {
        self.restart = true;
    }

    /// Postpone: go back to the previous phase for the snooze duration.
    pub fn request_snooze(&mut self)
        ensures
            final(self)@ == apply_op(old(self)@, ControlOp::Request(OneShot::Snooze)),
            final(self)@ == with_request(old(self)@, OneShot::Snooze, true),
    {
        self.snooze = true;
    }

    /// Re-read the config file from disk.
    pub fn request_reload(&mut self)
        ensures
            final(self)@ == apply_op(old(self)@, ControlOp::Request(OneShot::Reload)),
            final(self)@ == with_request(old(self)@, OneShot::Reload, true),
    {
        self.reload = true;
    }

    /// Ask the reminder loop to stop.
    pub fn request_quit(&mut self)
        ensures
            final(self)@ == apply_op(old(self)@, ControlOp::RequestQuit),
            final(self)@ == with_quit(old(self)@),
    {
        self.quit = true;
    }

    /// Set by the screen-lock watcher; freezes the countdown while `true`.
    pub fn set_locked(&mut self, locked: bool)
        ensures
            final(self)@ == apply_op(old(self)@, ControlOp::SetLocked(locked)),
            final(self)@ == with_locked(old(self)@, locked),
    {
        self.locked = locked;
    }

    pub fn is_locked(&self) -> (r: bool)
        ensures
            r == self@.locked,
    {
        self.locked
    }

    pub fn quit_requested(&self) -> (r: bool)
        ensures
            r == self@.quit,
    {
        self.quit
    }

    /// Whether a skip was requested, clearing the request.
    pub fn take_skip(&mut self) -> (r: bool)
        ensures
            final(self)@ == apply_op(old(self)@, ControlOp::Take(OneShot::Skip)),
            r == pending(old(self)@, OneShot::Skip),
            final(self)@ == with_request(old(self)@, OneShot::Skip, false),
    {
        let r = self.skip;
        self.skip = false;
        r
    }

    /// Whether a restart was requested, clearing the request.
    pub fn take_restart(&mut self) -> (r: bool)
        ensures
            final(self)@ == apply_op(old(self)@, ControlOp::Take(OneShot::Restart)),
            r == pending(old(self)@, OneShot::Restart),
            final(self)@ == with_request(old(self)@, OneShot::Restart, false),
    {
        let r = self.restart;
        self.restart = false;
        r
    }

    /// Whether a snooze was requested, clearing the request.
    pub fn take_snooze(&mut self) -> (r: bool)
        ensures
            final(self)@ == apply_op(old(self)@, ControlOp::Take(OneShot::Snooze)),
            r == pending(old(self)@, OneShot::Snooze),
            final(self)@ == with_request(old(self)@, OneShot::Snooze, false),
    {
        let r = self.snooze;
        self.snooze = false;
        r
    }

    /// Whether a reload was requested, clearing the request.
    pub fn take_reload(&mut self) -> (r: bool)
        ensures
            final(self)@ == apply_op(old(self)@, ControlOp::Take(OneShot::Reload)),
            r == pending(old(self)@, OneShot::Reload),
            final(self)@ == with_request(old(self)@, OneShot::Reload, false),
    {
        let r = self.reload;
        self.reload = false;
        r
    }

    /// Decide what the reminder loop does next. A quit request wins and is
    /// left standing; otherwise the first pending one-shot request (reload,
    /// skip, restart, snooze, in that order) is consumed and answered, even
    /// while paused; otherwise the countdown is frozen while paused or locked.
    pub fn poll(&mut self) -> (r: Request)
        ensures
            final(self)@ == apply_op(old(self)@, ControlOp::Poll),
            r == polled(old(self)@),
            final(self)@ == after_poll(old(self)@),
    {
        if self.quit_requested() {
            Request::Quit
        } else if self.take_reload() {
            Request::Reload
        } else if self.take_skip() {
            Request::Skip
        } else if self.take_restart() {
            Request::Restart
        } else if self.take_snooze() {
            Request::Snooze
        } else if self.is_paused() || self.is_locked() {
            Request::Frozen
        } else {
            Request::Tick
        }
    }

    /// Carry out a tray menu entry. Returns whether the configuration file
    /// should be opened in an editor, which is the caller's job.
    pub fn perform(&mut self, action: MenuAction) -> (open_editor: bool)
        ensures
            open_editor == (action == MenuAction::EditConfig),
            final(self)@ == performed(old(self)@, action),
            final(self)@ == apply_op(old(self)@, ControlOp::Perform(action)),
    {
        match action {
            MenuAction::TogglePause => {
                self.toggle_paused();
                false
            },
            MenuAction::SwitchNow => {
                self.request_skip();
                false
            },
            MenuAction::EditConfig => true,
            MenuAction::Quit => {
                self.request_quit();
                false
            },
        }
    }
}

/// A raised one-shot request is answered exactly once: taking it right after
/// raising it reports it, and leaves it cleared so a second take reports
/// nothing. Raising and taking one request leaves every other flag as it was.
pub proof fn lemma_request_taken_once(c: ControlsView, k: OneShot, other: OneShot)
    ensures
        pending(with_request(c, k, true), k),
        !pending(with_request(with_request(c, k, true), k, false), k),
        with_request(with_request(c, k, true), k, false) == with_request(c, k, false),
        other != k ==> pending(with_request(c, k, true), other) == pending(c, other),
        with_request(c, k, true).paused == c.paused,
        with_request(c, k, true).quit == c.quit,
        with_request(c, k, true).locked == c.locked,
{
}

/// Toggling the pause twice restores the flags as they were, and each toggle
/// reports the opposite of the state before it.
pub proof fn lemma_toggle_twice(c: ControlsView)
    ensures
        toggled(toggled(c)) == c,
        toggled(c).paused == !c.paused,
{
}

/// The lock state reads back as last set, the latest setting replaces any
/// earlier one, and setting it touches no other flag.
pub proof fn lemma_lock_round_trip(c: ControlsView, first: bool, second: bool)
    ensures
        with_locked(c, first).locked == first,
        with_locked(with_locked(c, first), second) == with_locked(c, second),
        with_locked(c, c.locked) == c,
        with_locked(c, first).paused == c.paused,
        with_locked(c, first).quit == c.quit,
{
}

/// Polling never loses a quit request, never clears the pause or lock state,
/// and consumes at most the one request it answers.
pub proof fn lemma_poll_keeps_state(c: ControlsView)
    ensures
        after_poll(c).quit == c.quit,
        after_poll(c).paused == c.paused,
        after_poll(c).locked == c.locked,
        polled(c) == Request::Quit <==> c.quit,
        polled(c) == Request::Frozen || polled(c) == Request::Tick || polled(c)
            == Request::Quit ==> after_poll(c) == c,
{
}

/// While paused or locked, with nothing requested, the countdown is frozen
/// and no flag changes; once neither holds, the countdown runs.
pub proof fn lemma_frozen_while_paused_or_locked(c: ControlsView)
    requires
        !c.quit,
        !c.reload,
        !c.skip,
        !c.restart,
        !c.snooze,
    ensures
        (c.paused || c.locked) <==> polled(c) == Request::Frozen,
        !(c.paused || c.locked) <==> polled(c) == Request::Tick,
        after_poll(c) == c,
{
}

/// After any sequence of operations, the reminders are paused exactly when
/// they started paused and the pause was flipped an even number of times, or
/// started running and it was flipped an odd number of times. Reading the
/// flags (`is_paused`, `is_locked`, `quit_requested`) changes none of them.
pub proof fn lemma_pause_parity(c: ControlsView, ops: Seq<ControlOp>)
    ensures
        run_ops(c, ops).paused == (c.paused != (toggle_count(ops) % 2 == 1)),
    decreases ops.len(),
{
    if ops.len() > 0 {
        lemma_pause_parity(c, ops.drop_last());
        let before = run_ops(c, ops.drop_last());
        let op = ops.last();
        assert(apply_op(before, op).paused == (before.paused != is_toggle(op))) by {
            if let ControlOp::Perform(action) = op {
                assert(performed(before, action).paused == (before.paused != (action
                    == MenuAction::TogglePause)));
            }
            if op == ControlOp::Poll {
                assert(after_poll(before).paused == before.paused);
            }
        }
    }
}

/// Every operation keeps a requested quit: nothing clears it.
pub proof fn lemma_op_keeps_quit(c: ControlsView, op: ControlOp)
    requires
        c.quit,
    ensures
        apply_op(c, op).quit,
{
}

/// Once a quit is requested it stays requested after any further operations.
pub proof fn lemma_quit_sticky(c: ControlsView, ops: Seq<ControlOp>)
    requires
        c.quit,
    ensures
        run_ops(c, ops).quit,
    decreases ops.len(),
{
    if ops.len() > 0 {
        lemma_quit_sticky(c, ops.drop_last());
        lemma_op_keeps_quit(run_ops(c, ops.drop_last()), ops.last());
    }
}

/// Running `a` then `b` is running `a + b`.
pub proof fn lemma_run_ops_concat(c: ControlsView, a: Seq<ControlOp>, b: Seq<ControlOp>)
    ensures
        run_ops(run_ops(c, a), b) == run_ops(c, a + b),
    decreases b.len(),
{
    if b.len() == 0 {
        assert(a + b =~= a);
    } else {
        lemma_run_ops_concat(c, a, b.drop_last());
        assert((a + b).drop_last() =~= a + b.drop_last());
        assert((a + b).last() == b.last());
    }
}

/// A quit requested at any point (by `request_quit` or the menu's Quit) is
/// still requested after every later operation.
pub proof fn lemma_quit_requested_stays(c: ControlsView, ops: Seq<ControlOp>, i: int)
    requires
        0 <= i < ops.len(),
        ops[i] == ControlOp::RequestQuit || ops[i] == ControlOp::Perform(MenuAction::Quit),
    ensures
        run_ops(c, ops).quit,
{
    let head = ops.subrange(0, i + 1);
    let tail = ops.subrange(i + 1, ops.len() as int);
    assert(head.drop_last() =~= ops.subrange(0, i));
    assert(head.last() == ops[i]);
    assert(run_ops(c, head).quit);
    lemma_quit_sticky(run_ops(c, head), tail);
    lemma_run_ops_concat(c, head, tail);
    assert(head + tail =~= ops);
}

/// Raising the same request `n` times is the same as raising it once.
pub proof fn lemma_repeated_request(c: ControlsView, k: OneShot, n: nat)
    requires
        n >= 1,
    ensures
        run_ops(c, Seq::new(n, |j: int| ControlOp::Request(k))) == with_request(c, k, true),
    decreases n,
{
    let ops = Seq::new(n, |j: int| ControlOp::Request(k));
    assert(ops.last() == ControlOp::Request(k));
    if n > 1 {
        lemma_repeated_request(c, k, (n - 1) as nat);
        assert(ops.drop_last() =~= Seq::new((n - 1) as nat, |j: int| ControlOp::Request(k)));
        assert(run_ops(c, ops.drop_last()) == with_request(c, k, true));
        assert(with_request(with_request(c, k, true), k, true) == with_request(c, k, true));
    } else {
        assert(ops.drop_last() =~= Seq::<ControlOp>::empty());
        assert(run_ops(c, ops.drop_last()) == c);
    }
}

/// Requests do not accumulate: after the same request is raised any number
/// of times (at least once), the next take reports it and the one after
/// reports nothing; the pause, lock, quit and the other requests are as they
/// were before.
pub proof fn lemma_requests_do_not_accumulate(c: ControlsView, k: OneShot, n: nat, other: OneShot)
    requires
        n >= 1,
    ensures
        ({
            let raised = run_ops(c, Seq::new(n, |j: int| ControlOp::Request(k)));
            let taken = apply_op(raised, ControlOp::Take(k));
            &&& pending(raised, k)
            &&& !pending(taken, k)
            &&& !pending(apply_op(taken, ControlOp::Take(k)), k)
            &&& taken.paused == c.paused && taken.locked == c.locked && taken.quit == c.quit
            &&& other != k ==> pending(taken, other) == pending(c, other)
        }),
{
    lemma_repeated_request(c, k, n);
}

/// A switch request is served even while paused or locked, as long as no
/// quit or reload is pending.
pub proof fn lemma_skip_wins_over_pause(c: ControlsView)
    requires
        c.skip,
        !c.quit,
        !c.reload,
    ensures
        polled(c) == Request::Skip,
        !after_poll(c).skip,
{
}

} // verus!

verus! {

// ---------------------------------------------------------------------------
// Scheduler
// ---------------------------------------------------------------------------

/// How often, in milliseconds, the loop wakes to check for pause / skip /
/// quit requests.
pub const POLL_INTERVAL_MILLIS: u64 = 250;

/// How often the loop wakes to check for pause / skip / quit requests.
pub fn poll_interval() -> (r: Span)
    ensures
        r@ == POLL_INTERVAL_MILLIS * 1_000_000,
{
    Span::from_millis(POLL_INTERVAL_MILLIS)
}

/// A snapshot pushed to the tray so it can render the live countdown and the
/// currently-configured durations.
#[derive(Clone, Copy, Debug, PartialEq, Eq, Structural)]
pub struct TrayStatus {
    pub phase: Phase,
    pub remaining: Span,
    pub sit_duration: Span,
    pub stand_duration: Span,
}

/// What happened since the scheduler last moved.
#[derive(Debug)]
pub enum Event {
    /// The configuration was re-read (and checked) successfully.
    Reloaded(Config),
    /// Re-reading the configuration failed, for the reason given.
    ReloadFailed(String),
    /// The user asked to switch to the other phase now.
    Skip,
    /// The user asked to start the current phase's countdown again.
    Restart,
    /// The user asked to go back to the other phase for a while.
    Snooze,
    /// This much time went by while counting down.
    Elapsed(Span),
}

/// What the program should do after a step.
#[derive(Debug)]
pub struct Outcome {
    /// Refresh the tray with this snapshot.
    pub status: Option<TrayStatus>,
    /// The countdown ran out: remind the user to switch into this phase.
    pub switched_to: Option<Phase>,
    /// A reload failed: tell the user why, and that the old settings stay.
    pub reload_error: Option<String>,
}

/// The reminder's countdown: the configuration in force, the phase the user
/// is in, and the time left before the next switch.
#[derive(Debug)]
pub struct Scheduler {
    config: Config,
    phase: Phase,
    remaining: Span,
}

impl Scheduler {
    /// The configuration in force.
    pub closed spec fn spec_config(self) -> Config {
        self.config
    }

    /// The phase the user is in.
    pub closed spec fn spec_phase(self) -> Phase {
        self.phase
    }

    /// The time left before the next switch.
    pub closed spec fn spec_remaining(self) -> Span {
        self.remaining
    }
}

/// The snapshot the tray shows for scheduler `s`.
pub open spec fn status_of(s: Scheduler) -> TrayStatus {
    TrayStatus {
        phase: s.spec_phase(),
        remaining: s.spec_remaining(),
        sit_duration: s.spec_config().sit_duration,
        stand_duration: s.spec_config().stand_duration,
    }
}

/// A healthy countdown: the configuration is valid, and some, but no more
/// than the phase's full length, is left.
pub open spec fn countdown_ok(s: Scheduler) -> bool {
    &&& config_valid(s.spec_config())
    &&& 0 < s.spec_remaining()@
    &&& s.spec_remaining()@ <= phase_length(s.spec_config(), s.spec_phase())
}

/// Any snapshot in `out` shows a non-empty time left, no more than its
/// phase's full length under `s`'s configuration, and that configuration's
/// durations.
pub open spec fn status_fits(out: Outcome, s: Scheduler) -> bool {
    out.status matches Some(ts) ==> {
        &&& 0 < ts.remaining@ <= phase_length(s.spec_config(), ts.phase)
        &&& ts.sit_duration == s.spec_config().sit_duration
        &&& ts.stand_duration == s.spec_config().stand_duration
    }
}

/// What the program may hand to `step`: a reloaded configuration is valid.
pub open spec fn event_allowed(event: Event) -> bool {
    event matches Event::Reloaded(config) ==> config_valid(config)
}

/// `post` starts a fresh countdown of `phase` under `config`, and the tray
/// is told about it; no reminder and no error is shown.
pub open spec fn fresh_countdown(post: Scheduler, out: Outcome, config: Config, phase: Phase) -> bool {
    &&& post.spec_config() == config
    &&& post.spec_phase() == phase
    &&& post.spec_remaining()@ == phase_length(config, phase)
    &&& out.status == Some(status_of(post))
    &&& out.switched_to is None
    &&& out.reload_error is None
}

/// One step of the reminder: from `pre`, `event` leads to `post`, and the
/// program is asked to do `out`.
pub open spec fn stepped(pre: Scheduler, event: Event, post: Scheduler, out: Outcome) -> bool {
    let config = pre.spec_config();
    let phase = pre.spec_phase();
    let remaining = pre.spec_remaining()@;
    match event {
        // Shortening the current phase takes effect immediately (clamp);
        // lengthening applies from the next switch.
        Event::Reloaded(new_config) => {
            &&& post.spec_config() == new_config
            &&& post.spec_phase() == phase
            &&& post.spec_remaining()@ == min_nat(remaining, phase_length(new_config, phase))
            &&& out.status == Some(status_of(post))
            &&& out.switched_to is None
            &&& out.reload_error is None
        },
        // Keep the current settings and say why the new ones were refused.
        Event::ReloadFailed(message) => {
            &&& post == pre
            &&& out.status is None
            &&& out.switched_to is None
            &&& out.reload_error == Some(message)
        },
        // The user switched on purpose: no reminder.
        Event::Skip => fresh_countdown(post, out, config, flipped(phase)),
        Event::Restart => fresh_countdown(post, out, config, phase),
        Event::Snooze => {
            &&& post.spec_config() == config
            &&& post.spec_phase() == flipped(phase)
            &&& post.spec_remaining() == config.snooze_duration
            &&& out.status == Some(status_of(post))
            &&& out.switched_to is None
            &&& out.reload_error is None
        },
        Event::Elapsed(tick) => {
            let left = saturating_diff(remaining, tick@);
            if left == 0 {
                // Time is up: switch, remind, and start the next countdown.
                &&& post.spec_config() == config
                &&& post.spec_phase() == flipped(phase)
                &&& post.spec_remaining()@ == phase_length(config, flipped(phase))
                &&& out.status == Some(status_of(post))
                &&& out.switched_to == Some(flipped(phase))
                &&& out.reload_error is None
            } else {
                // Still counting: refresh the tray at most once per second.
                &&& post.spec_config() == config
                &&& post.spec_phase() == phase
                &&& post.spec_remaining()@ == left
                &&& out.status == (if whole_secs(left) != whole_secs(remaining) {
                    Some(status_of(post))
                } else {
                    None
                })
                &&& out.switched_to is None
                &&& out.reload_error is None
            }
        },
    }
}

impl Scheduler {
    /// Start in the configured phase with its full countdown ahead.
    pub fn new(config: Config) -> (r: Scheduler)
        ensures
            r.spec_config() == config,
            r.spec_phase() == config.start_phase,
            r.spec_remaining()@ == phase_length(config, config.start_phase),
            config_valid(config) ==> countdown_ok(r),
    {
        let phase = config.start_phase;
        let remaining = config.duration(phase);
        Scheduler { config, phase, remaining }
    }

    /// The configuration in force.
    pub fn config(&self) -> (r: &Config)
        ensures
            *r == self.spec_config(),
    {
        &self.config
    }

    /// The phase the user is in.
    pub fn phase(&self) -> (r: Phase)
        ensures
            r == self.spec_phase(),
    {
        self.phase
    }

    /// The time left before the next switch.
    pub fn remaining(&self) -> (r: Span)
        ensures
            r == self.spec_remaining(),
    {
        self.remaining
    }

    /// The snapshot the tray should show now.
    pub fn status(&self) -> (r: TrayStatus)
        ensures
            r == status_of(*self),
    {
        TrayStatus {
            phase: self.phase,
            remaining: self.remaining,
            sit_duration: self.config.sit_duration,
            stand_duration: self.config.stand_duration,
        }
    }

    /// How long to sleep before the next countdown step: one poll interval,
    /// or less if the phase ends sooner.
    pub fn next_tick(&self) -> (r: Span)
        ensures
            r@ == min_nat((POLL_INTERVAL_MILLIS * 1_000_000) as nat, self.spec_remaining()@),
    {
        poll_interval().min(self.remaining)
    }

    fn fresh(&mut self, phase: Phase) -> (out: Outcome)
        ensures
            fresh_countdown(*final(self), out, old(self).spec_config(), phase),
    {
        self.phase = phase;
        self.remaining = self.config.duration(phase);
        Outcome { status: Some(self.status()), switched_to: None, reload_error: None }
    }

    /// Move the reminder along by one event. A reloaded configuration must
    /// be valid (as `reload` guarantees), so the countdown never spins.
    pub fn step(&mut self, event: Event) -> (out: Outcome)
        requires
            event matches Event::Reloaded(config) ==> config_valid(config),
        ensures
            stepped(*old(self), event, *final(self), out),
    {
        match event {
            Event::Reloaded(new_config) => {
                let full = new_config.duration(self.phase);
                self.config = new_config;
                self.remaining = self.remaining.min(full);
                Outcome { status: Some(self.status()), switched_to: None, reload_error: None }
            },
            Event::ReloadFailed(message) => {
                Outcome { status: None, switched_to: None, reload_error: Some(message) }
            },
            Event::Skip => {
                let next = self.phase.other();
                self.fresh(next)
            },
            Event::Restart => {
                let same = self.phase;
                self.fresh(same)
            },
            Event::Snooze => {
                self.phase = self.phase.other();
                self.remaining = self.config.snooze_duration;
                Outcome { status: Some(self.status()), switched_to: None, reload_error: None }
            },
            Event::Elapsed(tick) => {
                let shown = self.remaining.as_secs();
                let left = self.remaining.saturating_sub(tick);
                if left.is_zero() {
                    let next = self.phase.other();
                    self.phase = next;
                    self.remaining = self.config.duration(next);
                    Outcome { status: Some(self.status()), switched_to: Some(next), reload_error: None }
                } else {
                    self.remaining = left;
                    if left.as_secs() != shown {
                        Outcome { status: Some(self.status()), switched_to: None, reload_error: None }
                    } else {
                        Outcome { status: None, switched_to: None, reload_error: None }
                    }
                }
            },
        }
    }
}

} // verus!

verus! {

// ---------------------------------------------------------------------------
// Laws of the scheduler
// ---------------------------------------------------------------------------

/// Switching twice by hand returns to the phase one started in, with its
/// full countdown ahead and the configuration untouched.
pub proof fn lemma_skip_twice(
    s0: Scheduler,
    s1: Scheduler,
    s2: Scheduler,
    o1: Outcome,
    o2: Outcome,
)
    requires
        stepped(s0, Event::Skip, s1, o1),
        stepped(s1, Event::Skip, s2, o2),
    ensures
        s2.spec_phase() == s0.spec_phase(),
        s2.spec_config() == s0.spec_config(),
        s2.spec_remaining()@ == phase_length(s0.spec_config(), s0.spec_phase()),
        o1.switched_to is None && o2.switched_to is None,
{
}

/// Re-reading the configuration never lengthens the running countdown: the
/// time left is clamped to the new phase length, and the phase stays.
pub proof fn lemma_reload_never_lengthens(
    s0: Scheduler,
    config: Config,
    s1: Scheduler,
    out: Outcome,
)
    requires
        stepped(s0, Event::Reloaded(config), s1, out),
    ensures
        s1.spec_remaining()@ <= s0.spec_remaining()@,
        s1.spec_remaining()@ <= phase_length(config, s0.spec_phase()),
        s1.spec_phase() == s0.spec_phase(),
        s0.spec_remaining()@ <= phase_length(config, s0.spec_phase()) ==> s1.spec_remaining()@
            == s0.spec_remaining()@,
{
}

/// Lengthening a phase by a reload applies from the next switch into it:
/// the countdown that starts at that switch runs for the reloaded length.
pub proof fn lemma_reload_applies_from_next_switch(
    s0: Scheduler,
    config: Config,
    s1: Scheduler,
    tick: Span,
    s2: Scheduler,
    o1: Outcome,
    o2: Outcome,
)
    requires
        stepped(s0, Event::Reloaded(config), s1, o1),
        stepped(s1, Event::Elapsed(tick), s2, o2),
        o2.switched_to is Some,
    ensures
        s2.spec_config() == config,
        s2.spec_remaining()@ == phase_length(config, s2.spec_phase()),
{
}

/// A failed reload keeps every setting and the countdown exactly as they were,
/// and reports the failure.
pub proof fn lemma_failed_reload_keeps_settings(
    s0: Scheduler,
    message: String,
    s1: Scheduler,
    out: Outcome,
)
    requires
        stepped(s0, Event::ReloadFailed(message), s1, out),
    ensures
        s1 == s0,
        out.reload_error == Some(message),
        out.status is None,
        out.switched_to is None,
{
}

/// Time that passes short of the end of the phase is taken off the countdown,
/// exactly, and nothing is switched.
pub proof fn lemma_tick_counts_down(s0: Scheduler, tick: Span, s1: Scheduler, out: Outcome)
    requires
        stepped(s0, Event::Elapsed(tick), s1, out),
        tick@ < s0.spec_remaining()@,
    ensures
        s1.spec_phase() == s0.spec_phase(),
        s1.spec_config() == s0.spec_config(),
        s1.spec_remaining()@ + tick@ == s0.spec_remaining()@,
        out.switched_to is None,
{
}

/// The phase switches (with a reminder) exactly when the time that passed
/// reaches the time that was left, and then into the other phase, whose full
/// countdown starts.
pub proof fn lemma_switch_exactly_when_time_is_up(
    s0: Scheduler,
    tick: Span,
    s1: Scheduler,
    out: Outcome,
)
    requires
        stepped(s0, Event::Elapsed(tick), s1, out),
    ensures
        out.switched_to is Some <==> tick@ >= s0.spec_remaining()@,
        out.switched_to is Some ==> {
            &&& out.switched_to == Some(flipped(s0.spec_phase()))
            &&& s1.spec_phase() == flipped(s0.spec_phase())
            &&& s1.spec_remaining()@ == phase_length(s0.spec_config(), s1.spec_phase())
            &&& out.status == Some(status_of(s1))
        },
        out.switched_to is None ==> s1.spec_phase() == s0.spec_phase(),
{
}

/// While counting down, the tray is refreshed only when the whole seconds
/// left change, so at most once per second.
pub proof fn lemma_status_once_per_second(s0: Scheduler, tick: Span, s1: Scheduler, out: Outcome)
    requires
        stepped(s0, Event::Elapsed(tick), s1, out),
        out.switched_to is None,
    ensures
        out.status is Some <==> whole_secs(s1.spec_remaining()@) != whole_secs(
            s0.spec_remaining()@,
        ),
{
}

/// Under a valid configuration, every switch, manual switch and restart puts
/// a non-empty countdown ahead, so the loop never spins without waiting.
pub proof fn lemma_valid_config_countdown_not_empty(
    s0: Scheduler,
    event: Event,
    s1: Scheduler,
    out: Outcome,
)
    requires
        config_valid(s0.spec_config()),
        stepped(s0, event, s1, out),
        event is Skip || event is Restart || out.switched_to is Some,
    ensures
        s1.spec_remaining()@ > 0,
        config_valid(s1.spec_config()),
{
}

/// The sit/stand cycle: from the start of a phase, letting each of the two
/// phases run out in turn brings the user back to the same phase with a full
/// countdown, after exactly two reminders, one for each phase.
pub proof fn lemma_full_cycle(
    s0: Scheduler,
    first: Span,
    second: Span,
    s1: Scheduler,
    s2: Scheduler,
    o1: Outcome,
    o2: Outcome,
)
    requires
        s0.spec_remaining()@ == phase_length(s0.spec_config(), s0.spec_phase()),
        first@ == phase_length(s0.spec_config(), s0.spec_phase()),
        second@ == phase_length(s0.spec_config(), flipped(s0.spec_phase())),
        stepped(s0, Event::Elapsed(first), s1, o1),
        stepped(s1, Event::Elapsed(second), s2, o2),
    ensures
        o1.switched_to == Some(flipped(s0.spec_phase())),
        o2.switched_to == Some(s0.spec_phase()),
        s2.spec_phase() == s0.spec_phase(),
        s2.spec_remaining()@ == s0.spec_remaining()@,
        s2.spec_config() == s0.spec_config(),
{
}

/// A snooze goes back to the other phase for the snooze length, and a second
/// snooze returns to the phase one started in.
pub proof fn lemma_snooze_twice(
    s0: Scheduler,
    s1: Scheduler,
    s2: Scheduler,
    o1: Outcome,
    o2: Outcome,
)
    requires
        stepped(s0, Event::Snooze, s1, o1),
        stepped(s1, Event::Snooze, s2, o2),
    ensures
        s1.spec_phase() == flipped(s0.spec_phase()),
        s1.spec_remaining() == s0.spec_config().snooze_duration,
        s2.spec_phase() == s0.spec_phase(),
        s2.spec_remaining() == s0.spec_config().snooze_duration,
{
}

/// Steps keep the configuration valid: a valid one is only ever replaced by
/// a valid reloaded one.
pub proof fn lemma_config_stays_valid(pre: Scheduler, event: Event, post: Scheduler, out: Outcome)
    requires
        config_valid(pre.spec_config()),
        event_allowed(event),
        stepped(pre, event, post, out),
    ensures
        config_valid(post.spec_config()),
{
}

/// Every step but a snooze keeps the countdown healthy, and every snapshot
/// it hands the tray shows a non-empty time left, no more than the phase's
/// full length, and the durations of the configuration then in force.
pub proof fn lemma_countdown_invariant(pre: Scheduler, event: Event, post: Scheduler, out: Outcome)
    requires
        countdown_ok(pre),
        event_allowed(event),
        !(event is Snooze),
        stepped(pre, event, post, out),
    ensures
        countdown_ok(post),
        status_fits(out, post),
        out.status matches Some(ts) ==> ts == status_of(post),
{
}

/// Along a whole run that starts from a valid configuration and is never
/// snoozed, every state keeps a healthy countdown and every snapshot handed
/// to the tray shows a non-empty time left, no more than its phase's full
/// length, and the durations of the configuration then in force.
pub proof fn lemma_run_keeps_countdown(
    config: Config,
    states: Seq<Scheduler>,
    events: Seq<Event>,
    outs: Seq<Outcome>,
)
    requires
        config_valid(config),
        states.len() == events.len() + 1,
        outs.len() == events.len(),
        states[0].spec_config() == config,
        states[0].spec_phase() == config.start_phase,
        states[0].spec_remaining()@ == phase_length(config, config.start_phase),
        forall|i: int|
            0 <= i < events.len() ==> event_allowed(#[trigger] events[i]) && !(events[i] is Snooze),
        forall|i: int|
            0 <= i < events.len() ==> stepped(states[i], #[trigger] events[i], states[i + 1], outs[i]),
    ensures
        forall|i: int| 0 <= i < states.len() ==> countdown_ok(#[trigger] states[i]),
        forall|i: int| 0 <= i < outs.len() ==> status_fits(#[trigger] outs[i], states[i + 1]),
{
    assert forall|i: int| 0 <= i < states.len() implies countdown_ok(#[trigger] states[i]) by {
        lemma_run_prefix_ok(config, states, events, outs, i);
    }
    assert forall|i: int| 0 <= i < outs.len() implies status_fits(#[trigger] outs[i], states[i + 1]) by {
        lemma_run_prefix_ok(config, states, events, outs, i);
        assert(event_allowed(events[i]) && !(events[i] is Snooze));
        assert(stepped(states[i], events[i], states[i + 1], outs[i]));
        lemma_countdown_invariant(states[i], events[i], states[i + 1], outs[i]);
    }
}

proof fn lemma_run_prefix_ok(
    config: Config,
    states: Seq<Scheduler>,
    events: Seq<Event>,
    outs: Seq<Outcome>,
    i: int,
)
    requires
        config_valid(config),
        states.len() == events.len() + 1,
        outs.len() == events.len(),
        states[0].spec_config() == config,
        states[0].spec_phase() == config.start_phase,
        states[0].spec_remaining()@ == phase_length(config, config.start_phase),
        forall|j: int|
            0 <= j < events.len() ==> event_allowed(#[trigger] events[j]) && !(events[j] is Snooze),
        forall|j: int|
            0 <= j < events.len() ==> stepped(states[j], #[trigger] events[j], states[j + 1], outs[j]),
        0 <= i < states.len(),
    ensures
        countdown_ok(states[i]),
    decreases i,
{
    if i > 0 {
        lemma_run_prefix_ok(config, states, events, outs, i - 1);
        assert(event_allowed(events[i - 1]) && !(events[i - 1] is Snooze));
        assert(stepped(states[i - 1], events[i - 1], states[i], outs[i - 1]));
        lemma_countdown_invariant(states[i - 1], events[i - 1], states[i], outs[i - 1]);
    }
}

} // verus!
