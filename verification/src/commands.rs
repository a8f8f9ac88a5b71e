//! Commands that a user gives by name between two ticks.

use crate::pomodoro::{
    next, pause, play, reset_round, FileCommand, FileCommandView, Pomodoro, PomodoroView,
    Transition, TransitionView,
};
use crate::session::SessionType;
use crate::text::same_text;
use vstd::prelude::*;

verus! {

/// What a user can ask of the timer.
#[derive(Clone, Copy, Debug, PartialEq, Eq, Structural)]
pub enum Command {
    /// Pause the session.
    Pause,
    /// Let the session run.
    Play,
    /// Abandon the round.
    Reset,
    /// Move on to the next session.
    Skip,
}

/// The command called `name`: `pause`, `play`, `reset` or `skip`. Any other
/// name is no command.
pub open spec fn command_of(name: Seq<char>) -> Option<Command> {
    if name == "pause"@ {
        Some(Command::Pause)
    } else if name == "play"@ {
        Some(Command::Play)
    } else if name == "reset"@ {
        Some(Command::Reset)
    } else if name == "skip"@ {
        Some(Command::Skip)
    } else {
        None
    }
}

impl PomodoroView {
    /// The outcome of a command. Only abandoning the round asks something of
    /// the session file.
    pub open spec fn carry_out(self, command: Command) -> TransitionView {
        match command {
            Command::Pause => TransitionView {
                pomodoro: self.pause(),
                command: FileCommandView::Nothing,
            },
            Command::Play => TransitionView {
                pomodoro: self.play(),
                command: FileCommandView::Nothing,
            },
            Command::Reset => TransitionView {
                pomodoro: self.reset_round(),
                command: self.remove_command(),
            },
            Command::Skip => TransitionView {
                pomodoro: self.next(),
                command: FileCommandView::Nothing,
            },
        }
    }

    /// The outcome of the command called `name`, if that is a command.
    pub open spec fn handle(self, name: Seq<char>) -> Option<TransitionView> {
        match command_of(name) {
            Some(command) => Some(self.carry_out(command)),
            None => None,
        }
    }
}

/// The view of an outcome that may be missing.
pub open spec fn command_view(outcome: Option<Transition>) -> Option<TransitionView> {
    match outcome {
        Some(transition) => Some(transition@),
        None => None,
    }
}

/// Whether `command` can be carried out on `pomodoro`: skipping a short
/// break counts a round, and the count has to fit.
pub open spec fn can_carry_out(pomodoro: Pomodoro, command: Command) -> bool {
    command == Command::Skip && pomodoro.current_session.session_type == SessionType::ShortBreak
        ==> pomodoro.current_work_round_number < u16::MAX
}

/// The command called `name`.
pub fn read_command(name: &str) -> (command: Option<Command>)
    ensures
        command == command_of(name@),
{
    if same_text(name, "pause") {
        Some(Command::Pause)
    } else if same_text(name, "play") {
        Some(Command::Play)
    } else if same_text(name, "reset") {
        Some(Command::Reset)
    } else if same_text(name, "skip") {
        Some(Command::Skip)
    } else {
        None
    }
}

/// Carries out a command.
pub fn carry_out(pomodoro: &Pomodoro, command: Command) -> (outcome: Transition)
    requires
        can_carry_out(*pomodoro, command),
    ensures
        outcome@ == pomodoro@.carry_out(command),
        pomodoro@.current_session.consistent() ==> outcome@.pomodoro.current_session.consistent(),
{
    match command {
        Command::Pause => Transition { pomodoro: pause(pomodoro), command: FileCommand::Nothing },
        Command::Play => Transition { pomodoro: play(pomodoro), command: FileCommand::Nothing },
        Command::Reset => reset_round(pomodoro),
        Command::Skip => Transition { pomodoro: next(pomodoro), command: FileCommand::Nothing },
    }
}

/// Carries out the command called `name`, and gives nothing for a name that
/// is no command.
pub fn handle_external_message(pomodoro: &Pomodoro, name: &str) -> (outcome: Option<Transition>)
    requires
        command_of(name@) matches Some(command) ==> can_carry_out(*pomodoro, command),
    ensures
        command_view(outcome) == pomodoro@.handle(name@),
{
    match read_command(name) {
        Some(command) => Some(carry_out(pomodoro, command)),
        None => None,
    }
}

} // verus!
