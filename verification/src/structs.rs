//! Core data types: the user configuration, session tags, the state
//! machine's discriminator, and a running timer session.

use vstd::prelude::*;

verus! {

/// Default work session length in minutes, used when no configuration exists.
pub const WORK_DEFAULT: i32 = 25;

/// Default break session length in minutes, used when no configuration exists.
pub const BREAK_DEFAULT: i32 = 5;

/// The two default durations, in minutes, read once at startup.
pub struct UserConfig {
    pub default_work_duration: i32,
    pub default_break_duration: i32,
}

impl Default for UserConfig {
    /// The built-in fallback configuration: 25 minute work sessions,
    /// 5 minute breaks.
    fn default() -> (c: UserConfig)
        ensures
            c.default_work_duration == WORK_DEFAULT,
            c.default_break_duration == BREAK_DEFAULT,
    {
        UserConfig { default_work_duration: WORK_DEFAULT, default_break_duration: BREAK_DEFAULT }
    }
}

/// Which kind of session a timer counts down: work or break.
#[derive(Copy, Clone, PartialEq, Eq, Structural, Debug)]
pub enum SessionType {
    Work,
    Break,
}

/// The state machine's discriminator. `Idle` is the state the
/// application starts in, with no timer running; the two `Confirm`
/// states await a yes/no/type decision at a session boundary; the two
/// `Input` states collect a custom duration as text.
#[derive(Copy, Clone, PartialEq, Eq, Structural, Debug)]
pub enum State {
    Idle,
    WorkSession,
    BreakSession,
    ConfirmBreak,
    ConfirmWork,
    WorkInput,
    BreakInput,
}

impl Default for State {
    /// The machine starts idle.
    fn default() -> (s: State)
        ensures
            s == State::Idle,
    {
        State::Idle
    }
}

/// One running timer: when it started (seconds on a monotone clock),
/// how long it should run (minutes), and what kind of session it is.
#[derive(Copy, Clone, PartialEq, Eq, Structural, Debug)]
pub struct Session {
    pub start: u64,
    pub duration: i32,
    pub session_type: SessionType,
}

impl Session {
    /// Begins a session of the given kind and length at instant `start`.
    pub fn new(session_type: SessionType, duration: i32, start: u64) -> (s: Session)
        ensures
            s.session_type == session_type,
            s.duration == duration,
            s.start == start,
    {
        Session { start, duration, session_type }
    }
}

} // verus!
