use vstd::prelude::*;

use crate::chat::{is_valid_backlog, valid_backlog, ChatAction};
use crate::control::ControlAction;

verus! {

/// What one step of either session means for the whole program.
#[derive(PartialEq, Eq, Structural, Debug, Clone, Copy)]
pub enum Outcome {
    /// Keep running.
    Continue,
    /// End the program with this exit code.
    Finished { code: i32 },
}

/// Exit code of a run that ended normally.
pub const EXIT_SUCCESS: i32 = 0;

/// Exit code of a run that could not start or lost a connection.
pub const EXIT_FAILURE: i32 = 1;

/// A disconnect ends the program successfully; every other control action lets it run.
pub fn control_outcome(a: &ControlAction) -> (r: Outcome)
    ensures
        r == (if a is Exit {
            Outcome::Finished { code: EXIT_SUCCESS }
        } else {
            Outcome::Continue
        }),
{
    match a {
        ControlAction::Exit(_) => Outcome::Finished { code: EXIT_SUCCESS },
        _ => Outcome::Continue,
    }
}

/// The end of the backlog without follow mode ends the program successfully; every other
/// chat action lets it run.
pub fn chat_outcome(a: &ChatAction) -> (r: Outcome)
    ensures
        r == (if a is Finish {
            Outcome::Finished { code: EXIT_SUCCESS }
        } else {
            Outcome::Continue
        }),
{
    match a {
        ChatAction::Finish => Outcome::Finished { code: EXIT_SUCCESS },
        _ => Outcome::Continue,
    }
}

/// A run configuration with a backlog size out of range ends the program with a failure
/// before any connection is made.
pub fn setup_outcome(backlog_size: i32) -> (r: Outcome)
    ensures
        r == (if valid_backlog(backlog_size as int) {
            Outcome::Continue
        } else {
            Outcome::Finished { code: EXIT_FAILURE }
        }),
{
    if is_valid_backlog(backlog_size) {
        Outcome::Continue
    } else {
        Outcome::Finished { code: EXIT_FAILURE }
    }
}

/// A connection or handshake failure ends the program with a failure.
pub fn connection_failed() -> (r: Outcome)
    ensures
        r == (Outcome::Finished { code: EXIT_FAILURE }),
{
    Outcome::Finished { code: EXIT_FAILURE }
}

} // verus!
