//! What the command-line companion shows.

use crate::pomodoro::{Pomodoro, PomodoroView};
use crate::session::SessionStatus;
use crate::text::{two_digits, two_digits_text};
use vstd::prelude::*;
use vstd::string::StringExecFns;

verus! {

/// A number of seconds as minutes and seconds, each with at least two
/// digits, parted by a colon.
pub open spec fn format_time_spec(seconds: nat) -> Seq<char> {
    two_digits(seconds / 60) + seq![':'] + two_digits(seconds % 60)
}

/// A number of seconds as minutes and seconds: 125 seconds read `02:05`.
pub fn format_time(seconds: u64) -> (text: String)
    ensures
        text@ == format_time_spec(seconds as nat),
{
    let minutes = seconds / 60;
    let remaining_seconds = seconds % 60;
    proof {
        reveal_strlit(":");
    }
    assert(":"@ =~= seq![':']);
    two_digits_text(minutes).concat(":").concat(two_digits_text(remaining_seconds).as_str())
}

/// What a change of state is worth a word about.
#[derive(Clone, Copy, Debug, PartialEq, Eq, Structural)]
pub enum Notice {
    /// Nothing to say.
    Nothing,
    /// A session file has appeared and backs the session from now on.
    Created,
    /// A running session has ended while its file was still there: its time
    /// was up.
    Ended,
    /// A running session has ended because its file is gone: somebody else
    /// stopped it.
    Stopped,
}

impl PomodoroView {
    /// Seconds that are left of the current session; none once its time is
    /// up.
    pub open spec fn remaining(self) -> nat {
        if self.current_session.current_time >= self.duration() {
            0
        } else {
            (self.duration() - self.current_session.current_time) as nat
        }
    }

    /// What the step from this state to `next` is worth a word about, given
    /// whether the session file was found.
    pub open spec fn notice(self, next: PomodoroView, file_found: bool) -> Notice {
        let appeared = self.current_session.session_file is None
            && next.current_session.session_file is Some;
        let over = self.current_session.status == SessionStatus::Running
            && next.current_session.status == SessionStatus::NotStarted;
        if appeared {
            Notice::Created
        } else if over && file_found {
            Notice::Ended
        } else if over {
            Notice::Stopped
        } else {
            Notice::Nothing
        }
    }
}

/// Seconds that are left of the current session.
pub fn remaining_time(pomodoro: &Pomodoro) -> (left: u16)
    ensures
        left == pomodoro@.remaining(),
{
    let duration = pomodoro.duration_of_session(&pomodoro.current_session);
    if pomodoro.current_session.current_time >= duration {
        0
    } else {
        duration - pomodoro.current_session.current_time
    }
}

/// What the step from `previous` to `next` is worth a word about.
pub fn notice(previous: &Pomodoro, next: &Pomodoro, file_found: bool) -> (notice: Notice)
    ensures
        notice == previous@.notice(next@, file_found),
{
    if previous.current_session.session_file.is_none()
        && next.current_session.session_file.is_some() {
        Notice::Created
    } else {
        match (previous.current_session.status, next.current_session.status) {
            (SessionStatus::Running, SessionStatus::NotStarted) => if file_found {
                Notice::Ended
            } else {
                Notice::Stopped
            },
            _ => Notice::Nothing,
        }
    }
}

} // verus!
