//! The session lifecycle state machine: the application state, the
//! transitions driven by key presses, and the countdown-driven transition
//! at session expiry.

use crate::structs::{Session, SessionType, State, UserConfig};
use crate::utils::{
    chosen_duration, countdown_secs, i32_str, i32_to_string, input_chars, is_digit, parse_duration,
    parse_i32, render_timer, time_str,
};
use vstd::prelude::*;

verus! {

/// One key press delivered to the state machine. Releases and repeats are
/// filtered out before reaching it; printable keys arrive as `Char`.
#[derive(Copy, Clone, PartialEq, Eq, Structural, Debug)]
pub enum Key {
    Char(char),
    Enter,
    Backspace,
}

/// Ghost snapshot of the whole machine: the discriminator, the exit flag,
/// the running session if any, the typed input, and the two configured
/// default durations in minutes.
#[verifier::ext_equal]
pub ghost struct AppV {
    pub state: State,
    pub exit: bool,
    pub session: Option<Session>,
    pub input: Seq<char>,
    pub work_default: int,
    pub break_default: int,
}

/// The machine's invariant: a session is alive exactly in the two running
/// states, the input buffer holds only sign and digit characters, and the
/// configured defaults fit an `i32`.
pub open spec fn wf(a: AppV) -> bool {
    &&& (a.session is Some <==> (a.state == State::WorkSession || a.state == State::BreakSession))
    &&& input_chars(a.input)
    &&& i32::MIN <= a.work_default <= i32::MAX
    &&& i32::MIN <= a.break_default <= i32::MAX
}

/// The freshly started machine: idle, not exiting, nothing typed.
pub open spec fn init_app(work_default: int, break_default: int) -> AppV {
    AppV {
        state: State::Idle,
        exit: false,
        session: None,
        input: Seq::empty(),
        work_default: work_default,
        break_default: break_default,
    }
}

/// The machine after a session of kind `st` and length `duration` minutes
/// starts at instant `now`.
pub open spec fn spec_begin_session(a: AppV, st: SessionType, duration: int, now: int) -> AppV {
    AppV {
        state: if st == SessionType::Work {
            State::WorkSession
        } else {
            State::BreakSession
        },
        session: Some(
            Session { start: now as u64, duration: duration as i32, session_type: st },
        ),
        ..a
    }
}

/// Starting a work session from the input buffer: the typed duration, or
/// the default work duration when the text does not parse.
pub open spec fn spec_start_work_session(a: AppV, now: int) -> AppV {
    spec_begin_session(a, SessionType::Work, chosen_duration(a.input, a.work_default), now)
}

/// Starting a break session from the input buffer: the typed duration, or
/// the default break duration when the text does not parse.
pub open spec fn spec_start_break_session(a: AppV, now: int) -> AppV {
    spec_begin_session(a, SessionType::Break, chosen_duration(a.input, a.break_default), now)
}

/// Entering custom work-duration entry: the buffer is seeded with the
/// default work duration as text.
pub open spec fn spec_start_work_input(a: AppV) -> AppV {
    AppV { state: State::WorkInput, input: i32_str(a.work_default), ..a }
}

/// Entering custom break-duration entry: the buffer is seeded with the
/// default break duration as text.
pub open spec fn spec_start_break_input(a: AppV) -> AppV {
    AppV { state: State::BreakInput, input: i32_str(a.break_default), ..a }
}

/// The toggle action (the space key, or an expired countdown): with no
/// session alive it starts a work session; a running work session is
/// dropped for the break-confirmation prompt, firing the notification
/// (the boolean); a running break session is dropped for the
/// work-confirmation prompt.
pub open spec fn spec_toggle(a: AppV, now: int) -> (AppV, bool) {
    if a.session is None {
        (spec_start_work_session(a, now), false)
    } else {
        match a.state {
            State::WorkSession => (
                AppV { state: State::ConfirmBreak, session: None, ..a },
                true,
            ),
            State::BreakSession => (
                AppV { state: State::ConfirmWork, session: None, ..a },
                false,
            ),
            _ => ((AppV { session: None, ..a }), false),
        }
    }
}

/// A key press handled outside the two text-entry states: quit, toggle,
/// or one of the confirmation answers `y`, `n`, `t`. Any other key is
/// ignored. The boolean is the "break time" notification.
pub open spec fn spec_key_event(a: AppV, k: Key, now: int) -> (AppV, bool) {
    match k {
        Key::Char(c) => if c == 'q' {
            ((AppV { exit: true, ..a }), false)
        } else if c == ' ' {
            spec_toggle(a, now)
        } else if c == 'y' {
            match a.state {
                State::ConfirmBreak => (
                    spec_begin_session(a, SessionType::Break, a.break_default, now),
                    false,
                ),
                State::ConfirmWork => (
                    spec_begin_session(a, SessionType::Work, a.work_default, now),
                    false,
                ),
                _ => (a, false),
            }
        } else if c == 'n' {
            match a.state {
                State::ConfirmBreak => (
                    spec_begin_session(a, SessionType::Work, a.work_default, now),
                    false,
                ),
                State::ConfirmWork => (
                    spec_begin_session(a, SessionType::Break, a.break_default, now),
                    false,
                ),
                _ => (a, false),
            }
        } else if c == 't' {
            match a.state {
                State::ConfirmBreak => (spec_start_break_input(a), false),
                State::ConfirmWork => (spec_start_work_input(a), false),
                _ => (a, false),
            }
        } else {
            (a, false)
        },
        _ => (a, false),
    }
}

/// A key press handled in the two text-entry states: quit, a digit
/// appended to the buffer, backspace dropping its last character, or
/// enter confirming it. Any other key — any non-digit character — is
/// rejected and leaves the buffer unchanged.
pub open spec fn spec_input_event(a: AppV, k: Key, now: int) -> AppV {
    match k {
        Key::Char(c) => if c == 'q' {
            AppV { exit: true, ..a }
        } else if is_digit(c) {
            AppV { input: a.input.push(c), ..a }
        } else {
            a
        },
        Key::Backspace => AppV {
            input: if a.input.len() > 0 {
                a.input.drop_last()
            } else {
                a.input
            },
            ..a
        },
        Key::Enter => match a.state {
            State::WorkInput => spec_start_work_session(a, now),
            State::BreakInput => spec_start_break_session(a, now),
            _ => a,
        },
    }
}

/// One step of the machine on a delivered key press: nothing once the
/// exit flag is set; otherwise the press is routed to text entry in the
/// two input states and to the ordinary key handler everywhere else.
pub open spec fn spec_step(a: AppV, k: Key, now: int) -> (AppV, bool) {
    if a.exit {
        (a, false)
    } else {
        match a.state {
            State::WorkInput | State::BreakInput => (spec_input_event(a, k, now), false),
            _ => spec_key_event(a, k, now),
        }
    }
}

/// One render pass at instant `now`: with a live, unexpired session the
/// machine is untouched and the formatted remaining time is shown; once
/// the countdown drops under one second the session is toggled away
/// automatically (work to break confirmation — with the notification —
/// break to work confirmation). With no session, or after quitting,
/// nothing happens.
pub open spec fn spec_evaluate(a: AppV, now: int) -> (AppV, Option<Seq<char>>, bool) {
    if a.exit {
        (a, None, false)
    } else {
        match a.session {
            Some(s) => {
                let cd = countdown_secs(s.start as int, s.duration as int, now);
                if cd >= 1 {
                    (a, Some(time_str(cd as nat)), false)
                } else {
                    (spec_toggle(a, now).0, None, spec_toggle(a, now).1)
                }
            },
            None => (a, None, false),
        }
    }
}

/// The running application: current state, exit flag, the live session if
/// any, the free-text duration buffer, and the configured defaults.
pub struct App {
    pub state: State,
    pub exit: bool,
    pub current_session: Option<Session>,
    pub input: String,
    pub default_work_duration: i32,
    pub default_break_duration: i32,
}

impl View for App {
    type V = AppV;

    open spec fn view(&self) -> AppV {
        AppV {
            state: self.state,
            exit: self.exit,
            session: self.current_session,
            input: self.input@,
            work_default: self.default_work_duration as int,
            break_default: self.default_break_duration as int,
        }
    }
}

impl App {
    /// Builds the machine in its initial idle state from the configuration
    /// read at startup.
    pub fn new(config: &UserConfig) -> (a: App)
        ensures
            a@ == init_app(
                config.default_work_duration as int,
                config.default_break_duration as int,
            ),
            wf(a@),
    {
        let a = App {
            state: State::Idle,
            exit: false,
            current_session: None,
            input: String::new(),
            default_work_duration: config.default_work_duration,
            default_break_duration: config.default_break_duration,
        };
        proof {
            assert(a@ =~= init_app(
                config.default_work_duration as int,
                config.default_break_duration as int,
            ));
        }
        a
    }

    /// Sets the exit flag; the control loop stops before its next
    /// iteration and delivers no further events.
    pub fn exit(&mut self)
        ensures
            final(self)@ == (AppV { exit: true, ..old(self)@ }),
    {
        self.exit = true;
    }

    /// Starts a session of the given kind and length at instant `now`.
    fn begin_session(&mut self, st: SessionType, duration: i32, now: u64)
        ensures
            final(self)@ == spec_begin_session(old(self)@, st, duration as int, now as int),
    {
        self.state = match st {
            SessionType::Work => State::WorkSession,
            SessionType::Break => State::BreakSession,
        };
        self.current_session = Some(Session::new(st, duration, now));
    }

    /// Starts a work session whose length is read from the input buffer,
    /// falling back to the default work duration when the text does not
    /// parse as an integer.
    pub fn start_work_session(&mut self, now: u64)
        requires
            wf(old(self)@),
        ensures
            wf(final(self)@),
            final(self)@ == spec_start_work_session(old(self)@, now as int),
    {
        let time: i32 = match parse_i32(self.input.as_str()) {
            Some(v) => v,
            None => self.default_work_duration,
        };
        self.begin_session(SessionType::Work, time, now);
    }

    /// Starts a break session whose length is read from the input buffer,
    /// falling back to the default break duration when the text does not
    /// parse as an integer.
    pub fn start_break_session(&mut self, now: u64)
        requires
            wf(old(self)@),
        ensures
            wf(final(self)@),
            final(self)@ == spec_start_break_session(old(self)@, now as int),
    {
        let time: i32 = match parse_i32(self.input.as_str()) {
            Some(v) => v,
            None => self.default_break_duration,
        };
        self.begin_session(SessionType::Break, time, now);
    }

    /// Enters custom work-duration entry, seeding the buffer with the
    /// default work duration as text.
    pub fn start_work_input(&mut self)
        requires
            wf(old(self)@),
            old(self)@.session is None,
        ensures
            wf(final(self)@),
            final(self)@ == spec_start_work_input(old(self)@),
    {
        self.input = i32_to_string(self.default_work_duration);
        self.state = State::WorkInput;
        proof {
            crate::utils::lemma_i32_str_input_chars(old(self)@.work_default);
        }
    }

    /// Enters custom break-duration entry, seeding the buffer with the
    /// default break duration as text.
    pub fn start_break_input(&mut self)
        requires
            wf(old(self)@),
            old(self)@.session is None,
        ensures
            wf(final(self)@),
            final(self)@ == spec_start_break_input(old(self)@),
    {
        self.input = i32_to_string(self.default_break_duration);
        self.state = State::BreakInput;
        proof {
            crate::utils::lemma_i32_str_input_chars(old(self)@.break_default);
        }
    }

    /// Toggles the running session: starts work from idle, or drops the
    /// live session for the next confirmation prompt. Returns whether the
    /// "break time" notification should fire.
    pub fn toggle_session(&mut self, now: u64) -> (notify: bool)
        requires
            wf(old(self)@),
        ensures
            wf(final(self)@),
            final(self)@ == spec_toggle(old(self)@, now as int).0,
            notify == spec_toggle(old(self)@, now as int).1,
    {
        if self.current_session.is_none() {
            self.start_work_session(now);
            return false;
        }
        self.current_session = None;
        match self.state {
            State::WorkSession => {
                self.state = State::ConfirmBreak;
                true
            },
            State::BreakSession => {
                self.state = State::ConfirmWork;
                false
            },
            _ => false,
        }
    }

    /// Handles a key press outside the text-entry states. Returns whether
    /// the "break time" notification should fire.
    pub fn handle_key_event(&mut self, key: Key, now: u64) -> (notify: bool)
        requires
            wf(old(self)@),
        ensures
            wf(final(self)@),
            final(self)@ == spec_key_event(old(self)@, key, now as int).0,
            notify == spec_key_event(old(self)@, key, now as int).1,
    {
        match key {
            Key::Char(c) => {
                if c == 'q' {
                    self.exit();
                    false
                } else if c == ' ' {
                    self.toggle_session(now)
                } else if c == 'y' {
                    match self.state {
                        State::ConfirmBreak => {
                            let d = self.default_break_duration;
                            self.begin_session(SessionType::Break, d, now);
                        },
                        State::ConfirmWork => {
                            let d = self.default_work_duration;
                            self.begin_session(SessionType::Work, d, now);
                        },
                        _ => {},
                    }
                    false
                } else if c == 'n' {
                    match self.state {
                        State::ConfirmBreak => {
                            let d = self.default_work_duration;
                            self.begin_session(SessionType::Work, d, now);
                        },
                        State::ConfirmWork => {
                            let d = self.default_break_duration;
                            self.begin_session(SessionType::Break, d, now);
                        },
                        _ => {},
                    }
                    false
                } else if c == 't' {
                    match self.state {
                        State::ConfirmBreak => self.start_break_input(),
                        State::ConfirmWork => self.start_work_input(),
                        _ => {},
                    }
                    false
                } else {
                    false
                }
            },
            _ => false,
        }
    }

    /// Handles a key press while typing a custom duration: digits grow the
    /// buffer, backspace shrinks it, enter confirms it, quit still quits;
    /// every other key is ignored.
    pub fn handle_input(&mut self, key: Key, now: u64)
        requires
            wf(old(self)@),
        ensures
            wf(final(self)@),
            final(self)@ == spec_input_event(old(self)@, key, now as int),
    {
        match key {
            Key::Char(c) => {
                if c == 'q' {
                    self.exit();
                } else {
                    let code = c as u32;
                    if code >= 48 && code <= 57 {
                        let d = (code - 48) as u64;
                        self.input.append(crate::utils::digit_str(d));
                        proof {
                            assert(crate::utils::digit_char(d as int) == c);
                            assert(self@.input =~= old(self)@.input.push(c));
                            assert(self@ =~= spec_input_event(old(self)@, key, now as int));
                        }
                    }
                }
            },
            Key::Backspace => {
                let len = self.input.as_str().unicode_len();
                if len > 0 {
                    proof {
                        crate::utils::lemma_input_chars_ascii(self.input@);
                    }
                    let shorter = self.input.as_str().substring_ascii(0, len - 1).to_owned();
                    self.input = shorter;
                    proof {
                        assert(self@.input =~= old(self)@.input.drop_last());
                        assert(self@ =~= spec_input_event(old(self)@, key, now as int));
                    }
                }
            },
            Key::Enter => {
                match self.state {
                    State::WorkInput => self.start_work_session(now),
                    State::BreakInput => self.start_break_session(now),
                    _ => {},
                }
            },
        }
    }

    /// One render pass at instant `now`: returns the text a running timer
    /// should show (`None` when no timer is on screen) and whether the
    /// "break time" notification should fire. An expired countdown toggles
    /// the session away to the next confirmation prompt; otherwise the
    /// machine is left untouched, so repeating the pass with the same
    /// instant shows the same text.
    pub fn evaluate(&mut self, now: u64) -> (r: (Option<String>, bool))
        requires
            wf(old(self)@),
            old(self)@.session matches Some(s) ==> now >= s.start,
        ensures
            wf(final(self)@),
            final(self)@ == spec_evaluate(old(self)@, now as int).0,
            r.0 is Some <==> spec_evaluate(old(self)@, now as int).1 is Some,
            r.0 matches Some(t) ==> spec_evaluate(old(self)@, now as int).1 == Some(t@),
            r.1 == spec_evaluate(old(self)@, now as int).2,
    {
        if self.exit {
            return (None, false);
        }
        let sess = self.current_session;
        match sess {
            Some(s) => {
                match render_timer(s.start, s.duration, now) {
                    Some(t) => (Some(t), false),
                    None => {
                        let notify = self.toggle_session(now);
                        (None, notify)
                    },
                }
            },
            None => (None, false),
        }
    }

    /// Routes a delivered key press: nothing once the exit flag is set;
    /// text entry in the two input states; the ordinary key handler
    /// everywhere else. Returns whether the "break time" notification
    /// should fire.
    pub fn handle_event(&mut self, key: Key, now: u64) -> (notify: bool)
        requires
            wf(old(self)@),
        ensures
            wf(final(self)@),
            final(self)@ == spec_step(old(self)@, key, now as int).0,
            notify == spec_step(old(self)@, key, now as int).1,
    {
        if self.exit {
            return false;
        }
        match self.state {
            State::WorkInput | State::BreakInput => {
                self.handle_input(key, now);
                false
            },
            _ => self.handle_key_event(key, now),
        }
    }
}

/// From the idle state with nothing typed, the toggle starts a work
/// session of the configured default work duration, without any
/// notification.
pub proof fn lemma_toggle_from_idle(a: AppV, now: int)
    requires
        wf(a),
        a.state == State::Idle,
        a.input.len() == 0,
    ensures
        spec_toggle(a, now).0.state == State::WorkSession,
        spec_toggle(a, now).0.session matches Some(s) && s.session_type == SessionType::Work
            && s.duration as int == a.work_default,
        !spec_toggle(a, now).1,
{
}

/// From a running work session, the toggle drops the session and asks
/// whether to take a break, firing the notification; from a running break
/// session it drops the session and asks whether to get back to work,
/// silently.
pub proof fn lemma_toggle_from_session(a: AppV, now: int)
    requires
        wf(a),
        a.state == State::WorkSession || a.state == State::BreakSession,
    ensures
        spec_toggle(a, now).0.session is None,
        a.state == State::WorkSession ==> spec_toggle(a, now).0.state == State::ConfirmBreak
            && spec_toggle(a, now).1,
        a.state == State::BreakSession ==> spec_toggle(a, now).0.state == State::ConfirmWork
            && !spec_toggle(a, now).1,
{
}

/// At the break-confirmation prompt, `y` starts a break session of the
/// default break duration and `n` starts a work session of the default
/// work duration; the mirrored prompt answers mirror the sessions.
pub proof fn lemma_confirm_answers(a: AppV, now: int)
    requires
        wf(a),
        a.state == State::ConfirmBreak || a.state == State::ConfirmWork,
        !a.exit,
    ensures
        a.state == State::ConfirmBreak ==> spec_step(a, Key::Char('y'), now).0
            == spec_begin_session(a, SessionType::Break, a.break_default, now),
        a.state == State::ConfirmBreak ==> spec_step(a, Key::Char('n'), now).0
            == spec_begin_session(a, SessionType::Work, a.work_default, now),
        a.state == State::ConfirmWork ==> spec_step(a, Key::Char('y'), now).0
            == spec_begin_session(a, SessionType::Work, a.work_default, now),
        a.state == State::ConfirmWork ==> spec_step(a, Key::Char('n'), now).0
            == spec_begin_session(a, SessionType::Break, a.break_default, now),
{
}

/// While typing a custom work duration, a buffer that does not parse as an
/// integer — empty, or holding any non-digit — is no error: enter still
/// starts the work session, at the configured default work duration. And a
/// non-digit character never reaches the buffer in the first place.
pub proof fn lemma_input_falls_back(a: AppV, c: char, now: int)
    requires
        wf(a),
        a.state == State::WorkInput,
        !a.exit,
        parse_duration(a.input) is None,
        !is_digit(c),
        c != 'q',
    ensures
        spec_step(a, Key::Char(c), now).0 == a,
        spec_step(a, Key::Enter, now).0.state == State::WorkSession,
        spec_step(a, Key::Enter, now).0.session matches Some(s) && s.session_type
            == SessionType::Work && s.duration as int == a.work_default,
{
}

/// At a confirmation prompt, choosing to type a custom time and then
/// confirming the seeded text unchanged starts the session at the default
/// it was seeded with: the seed parses back to itself.
pub proof fn lemma_type_then_enter_keeps_default(a: AppV, now: int)
    requires
        wf(a),
        !a.exit,
        a.state == State::ConfirmBreak || a.state == State::ConfirmWork,
    ensures
        a.state == State::ConfirmBreak ==> ({
            let b = spec_step(spec_step(a, Key::Char('t'), now).0, Key::Enter, now).0;
            b.state == State::BreakSession && (b.session matches Some(s) && s.duration as int
                == a.break_default)
        }),
        a.state == State::ConfirmWork ==> ({
            let b = spec_step(spec_step(a, Key::Char('t'), now).0, Key::Enter, now).0;
            b.state == State::WorkSession && (b.session matches Some(s) && s.duration as int
                == a.work_default)
        }),
{
    if a.state == State::ConfirmBreak {
        crate::utils::lemma_parse_roundtrip(a.break_default);
    } else {
        crate::utils::lemma_parse_roundtrip(a.work_default);
    }
}

/// The quit key sets the exit flag from any state and changes nothing
/// else; and once the flag is set, no further event changes the machine
/// at all — neither a key press nor a render pass.
pub proof fn lemma_quit_is_final(a: AppV, k: Key, now: int)
    ensures
        !a.exit ==> spec_step(a, Key::Char('q'), now).0 == (AppV { exit: true, ..a }),
        spec_step(a, Key::Char('q'), now).0.exit,
        a.exit ==> spec_step(a, k, now).0 == a && !spec_step(a, k, now).1,
        a.exit ==> spec_evaluate(a, now).0 == a && spec_evaluate(a, now).1 is None,
{
}

/// Render passes are idempotent: with no new input and no elapsed time, a
/// second evaluation leaves the machine exactly where the first left it
/// and shows the same text.
pub proof fn lemma_evaluate_idempotent(a: AppV, now: int)
    requires
        wf(a),
    ensures
        spec_evaluate(spec_evaluate(a, now).0, now).0 == spec_evaluate(a, now).0,
        spec_evaluate(spec_evaluate(a, now).0, now).1 == spec_evaluate(a, now).1,
{
}

} // verus!
