//! What the presentation layer is asked to draw: plain display data for
//! the three screens — custom-duration entry, the running countdown, and
//! a session-boundary confirmation prompt. Layout, colors and screen
//! coordinates stay outside the core.

use crate::structs::{SessionType, State};
use vstd::prelude::*;

verus! {

/// The custom-duration entry screen: the text typed so far and which kind
/// of session it will start.
pub struct InputWidget {
    pub input: String,
    pub session_type: SessionType,
}

/// The running countdown screen: the formatted remaining time and the kind
/// of session it counts down.
pub struct CounterWidget {
    pub time: String,
    pub session_type: SessionType,
}

/// A session-boundary prompt awaiting a yes/no answer.
pub struct ConfirmWidget {
    pub question: String,
}

impl ConfirmWidget {
    /// The prompt shown in a confirmation state: whether to take a break
    /// after work, or to get back to work after a break. No other state
    /// shows a prompt.
    pub fn for_state(state: &State) -> (w: Option<ConfirmWidget>)
        ensures
            state == State::ConfirmBreak ==> (w matches Some(cw) && cw.question@
                == " Do you need a break? "@),
            state == State::ConfirmWork ==> (w matches Some(cw) && cw.question@
                == " Back to work? "@),
            !(state == State::ConfirmBreak || state == State::ConfirmWork) ==> w is None,
    {
        match state {
            State::ConfirmBreak => Some(
                ConfirmWidget { question: String::from_str(" Do you need a break? ") },
            ),
            State::ConfirmWork => Some(
                ConfirmWidget { question: String::from_str(" Back to work? ") },
            ),
            _ => None,
        }
    }
}

} // verus!
