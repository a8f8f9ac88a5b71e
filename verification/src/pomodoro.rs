//! The timer: its configuration, its state, and the transitions between
//! states.
//!
//! Every transition takes the state by reference and gives a new state.
//! Those that ask for a change of the session file give a [`Transition`]:
//! the new state and the command that the driver has to carry out.

pub use crate::codec::{parse_line, ParseError, ParseSessionTypeError, SessionLineContent};
pub use crate::path::default_session_file;
pub use crate::reconcile::{
    ensure_session_file, get_next_pomodoro_from_session_file, get_session_info,
    get_session_info_with_default, play_with_session_file, tick_with_file_session_info,
    tick_with_session_file,
};
pub use crate::session::{Session, SessionFile, SessionInfo, SessionStatus, SessionType};
pub use crate::time::{get_remaining_time, ClockError, Timestamp};

use crate::codec::{session_line, session_line_spec};
use crate::path::session_file_in;
use crate::session::{clone_text, Seconds, SessionView};
use vstd::prelude::*;
use vstd::string::StringExecFns;

verus! {

/// What the timer is set up with. A transition never changes it.
#[derive(PartialEq, Debug)]
pub struct Config {
    pub auto_start_long_break_timer: bool,
    pub auto_start_short_break_timer: bool,
    pub auto_start_focus_timer: bool,
    pub default_focus_label: String,
    pub default_long_break_label: String,
    pub default_short_break_label: String,
    pub focus_duration: Seconds,
    pub long_break_duration: Seconds,
    /// Work rounds before a long break.
    pub max_focus_rounds: u16,
    /// The path of the session file.
    pub session_file: String,
    pub short_break_duration: Seconds,
}

/// The mathematical value of a [`Config`].
pub struct ConfigView {
    pub auto_start_long_break_timer: bool,
    pub auto_start_short_break_timer: bool,
    pub auto_start_focus_timer: bool,
    pub default_focus_label: Seq<char>,
    pub default_long_break_label: Seq<char>,
    pub default_short_break_label: Seq<char>,
    pub focus_duration: nat,
    pub long_break_duration: nat,
    pub max_focus_rounds: nat,
    pub session_file: Seq<char>,
    pub short_break_duration: nat,
}

impl View for Config {
    type V = ConfigView;

    open spec fn view(&self) -> ConfigView {
        ConfigView {
            auto_start_long_break_timer: self.auto_start_long_break_timer,
            auto_start_short_break_timer: self.auto_start_short_break_timer,
            auto_start_focus_timer: self.auto_start_focus_timer,
            default_focus_label: self.default_focus_label@,
            default_long_break_label: self.default_long_break_label@,
            default_short_break_label: self.default_short_break_label@,
            focus_duration: self.focus_duration as nat,
            long_break_duration: self.long_break_duration as nat,
            max_focus_rounds: self.max_focus_rounds as nat,
            session_file: self.session_file@,
            short_break_duration: self.short_break_duration as nat,
        }
    }
}

impl ConfigView {
    /// The configuration of a timer that nobody has set up: 25 minutes of
    /// focus, breaks of 5 and 20 minutes, a long break after 4 rounds, and
    /// nothing started automatically.
    pub open spec fn defaults(session_file: Seq<char>) -> ConfigView {
        ConfigView {
            auto_start_long_break_timer: false,
            auto_start_short_break_timer: false,
            auto_start_focus_timer: false,
            default_focus_label: "Focus"@,
            default_long_break_label: "Long Break"@,
            default_short_break_label: "Short Break"@,
            focus_duration: 1500,
            long_break_duration: 1200,
            max_focus_rounds: 4,
            session_file,
            short_break_duration: 300,
        }
    }

    /// Every session lasts at least a second.
    pub open spec fn valid(self) -> bool {
        self.focus_duration > 0 && self.short_break_duration > 0 && self.long_break_duration > 0
    }

    /// How long a session of kind `session_type` lasts.
    pub open spec fn duration_of(self, session_type: SessionType) -> nat {
        match session_type {
            SessionType::Focus => self.focus_duration,
            SessionType::LongBreak => self.long_break_duration,
            SessionType::ShortBreak => self.short_break_duration,
        }
    }

    /// Whether a session of kind `session_type` starts by itself.
    pub open spec fn auto_starts(self, session_type: SessionType) -> bool {
        match session_type {
            SessionType::Focus => self.auto_start_focus_timer,
            SessionType::LongBreak => self.auto_start_long_break_timer,
            SessionType::ShortBreak => self.auto_start_short_break_timer,
        }
    }
}

impl Clone for Config {
    fn clone(&self) -> (copy: Self)
        ensures
            copy@ == self@,
    {
        Config {
            auto_start_long_break_timer: self.auto_start_long_break_timer,
            auto_start_short_break_timer: self.auto_start_short_break_timer,
            auto_start_focus_timer: self.auto_start_focus_timer,
            default_focus_label: self.default_focus_label.clone(),
            default_long_break_label: self.default_long_break_label.clone(),
            default_short_break_label: self.default_short_break_label.clone(),
            focus_duration: self.focus_duration,
            long_break_duration: self.long_break_duration,
            max_focus_rounds: self.max_focus_rounds,
            session_file: self.session_file.clone(),
            short_break_duration: self.short_break_duration,
        }
    }
}

impl Config {
    /// The default configuration for a given session file.
    pub fn with_session_file(session_file: String) -> (config: Self)
        ensures
            config@ == ConfigView::defaults(session_file@),
    {
        Config {
            auto_start_long_break_timer: false,
            auto_start_short_break_timer: false,
            auto_start_focus_timer: false,
            default_focus_label: String::from_str("Focus"),
            default_long_break_label: String::from_str("Long Break"),
            default_short_break_label: String::from_str("Short Break"),
            focus_duration: 25 * 60,
            long_break_duration: 20 * 60,
            max_focus_rounds: 4,
            session_file,
            short_break_duration: 5 * 60,
        }
    }
}

impl Default for Config {
    /// The default configuration, with the session file in the user's cache
    /// directory.
    fn default() -> (config: Self)
        ensures
            exists|cache_dir: Option<Seq<char>>|
                config@ == ConfigView::defaults(session_file_in(cache_dir)),
    {
        let config = Config::with_session_file(default_session_file());
        proof {
            let cache_dir = choose|cache_dir: Option<Seq<char>>|
                config.session_file@ == session_file_in(cache_dir);
            assert(config@ == ConfigView::defaults(session_file_in(cache_dir)));
        }
        config
    }
}

/// The timer's whole state.
#[derive(PartialEq, Debug)]
pub struct Pomodoro {
    pub config: Config,
    pub current_session: Session,
    /// The work round in progress, counted from 1. A work round is a focus
    /// session and the break that follows it.
    pub current_work_round_number: u16,
}

/// The mathematical value of a [`Pomodoro`].
pub struct PomodoroView {
    pub config: ConfigView,
    pub current_session: SessionView,
    pub current_work_round_number: nat,
}

impl View for Pomodoro {
    type V = PomodoroView;

    open spec fn view(&self) -> PomodoroView {
        PomodoroView {
            config: self.config@,
            current_session: self.current_session@,
            current_work_round_number: self.current_work_round_number as nat,
        }
    }
}

/// A change that a transition asks of the session file.
#[derive(PartialEq, Debug)]
pub enum FileCommand {
    /// Leave the file as it is.
    Nothing,
    /// Create the file, and the directories above it, with exactly this
    /// content.
    Write { path: String, content: String },
    /// Delete the file if it exists.
    Remove { path: String },
}

/// The mathematical value of a [`FileCommand`].
pub enum FileCommandView {
    Nothing,
    Write { path: Seq<char>, content: Seq<char> },
    Remove { path: Seq<char> },
}

impl View for FileCommand {
    type V = FileCommandView;

    open spec fn view(&self) -> FileCommandView {
        match self {
            FileCommand::Nothing => FileCommandView::Nothing,
            FileCommand::Write { path, content } => FileCommandView::Write {
                path: path@,
                content: content@,
            },
            FileCommand::Remove { path } => FileCommandView::Remove { path: path@ },
        }
    }
}

/// The outcome of a transition that may touch the session file.
#[derive(PartialEq, Debug)]
pub struct Transition {
    pub pomodoro: Pomodoro,
    pub command: FileCommand,
}

/// The mathematical value of a [`Transition`].
pub struct TransitionView {
    pub pomodoro: PomodoroView,
    pub command: FileCommandView,
}

impl View for Transition {
    type V = TransitionView;

    open spec fn view(&self) -> TransitionView {
        TransitionView { pomodoro: self.pomodoro@, command: self.command@ }
    }
}

impl PomodoroView {
    /// The state of a timer that has just been set up.
    pub open spec fn initial(config: ConfigView) -> PomodoroView {
        PomodoroView {
            config,
            current_session: SessionView::initial(),
            current_work_round_number: 1,
        }
    }

    /// This state with another session.
    pub open spec fn with_session(self, session: SessionView) -> PomodoroView {
        PomodoroView { current_session: session, ..self }
    }

    /// How long the current session lasts.
    pub open spec fn duration(self) -> nat {
        self.config.duration_of(self.current_session.session_type)
    }

    /// The label written to the session file: the session's own, or
    /// `working` where it has none.
    pub open spec fn written_label(self) -> Seq<char> {
        match self.current_session.label {
            Some(label) => label,
            None => "working"@,
        }
    }

    /// The command that creates the session file for the current session.
    pub open spec fn create_command(self) -> FileCommandView {
        FileCommandView::Write {
            path: self.config.session_file,
            content: session_line_spec(self.current_session.session_type, self.written_label()),
        }
    }

    /// The command that deletes the file backing the current session, if
    /// one does.
    pub open spec fn remove_command(self) -> FileCommandView {
        match self.current_session.session_file {
            Some(path) => FileCommandView::Remove { path },
            None => FileCommandView::Nothing,
        }
    }

    /// The state after `pause`.
    pub open spec fn pause(self) -> PomodoroView {
        self.with_session(SessionView { status: SessionStatus::Paused, ..self.current_session })
    }

    /// The state after `play`.
    pub open spec fn play(self) -> PomodoroView {
        self.with_session(
            SessionView {
                status: SessionStatus::Running,
                session_file: Some(self.config.session_file),
                ..self.current_session
            },
        )
    }

    /// The state after `reset_round`.
    pub open spec fn reset_round(self) -> PomodoroView {
        self.with_session(
            SessionView {
                status: SessionStatus::NotStarted,
                current_time: 0,
                session_file: None,
                start_time: None,
                ..self.current_session
            },
        )
    }

    /// The state after `reset_session`.
    pub open spec fn reset_session(self) -> PomodoroView {
        PomodoroView {
            current_session: SessionView {
                session_type: SessionType::Focus,
                ..self.reset_round().current_session
            },
            current_work_round_number: 1,
            ..self
        }
    }

    /// The kind of the session that follows the current one: after focus a
    /// break, long when the round is the last one, and after a break focus.
    pub open spec fn next_session_type(self) -> SessionType {
        match self.current_session.session_type {
            SessionType::Focus => if self.current_work_round_number
                == self.config.max_focus_rounds {
                SessionType::LongBreak
            } else {
                SessionType::ShortBreak
            },
            _ => SessionType::Focus,
        }
    }

    /// The round in which the session that follows the current one falls:
    /// the next round after a short break, the first after a long one.
    pub open spec fn next_round_number(self) -> nat {
        match self.current_session.session_type {
            SessionType::ShortBreak => self.current_work_round_number + 1,
            SessionType::LongBreak => 1,
            SessionType::Focus => self.current_work_round_number,
        }
    }

    /// The session that follows the current one. It runs if its kind starts
    /// by itself, and has else not started.
    pub open spec fn next_session(self) -> SessionView {
        let session_type = self.next_session_type();
        SessionView {
            session_type,
            status: if self.config.auto_starts(session_type) {
                SessionStatus::Running
            } else {
                SessionStatus::NotStarted
            },
            ..SessionView::initial()
        }
    }

    /// The state after `next`.
    pub open spec fn next(self) -> PomodoroView {
        PomodoroView {
            current_session: self.next_session(),
            current_work_round_number: self.next_round_number(),
            ..self
        }
    }

    /// Whether the next tick ends the current session.
    pub open spec fn at_last_second(self) -> bool {
        self.current_session.current_time + 1 == self.duration()
    }

    /// The state after one more second of the current session.
    pub open spec fn advance(self) -> PomodoroView {
        self.with_session(
            SessionView {
                current_time: self.current_session.current_time + 1,
                ..self.current_session
            },
        )
    }

    /// The outcome of `tick`.
    ///
    /// A session that does not run is left alone. One that runs either gains
    /// a second, or, at its last second, gives way to the next session; if
    /// that one has not started, the configured session file is deleted, so
    /// that no stale file stays behind.
    pub open spec fn tick(self) -> TransitionView {
        if self.current_session.status != SessionStatus::Running {
            TransitionView { pomodoro: self, command: FileCommandView::Nothing }
        } else if self.at_last_second() {
            TransitionView {
                pomodoro: self.next(),
                command: if self.next().current_session.status == SessionStatus::NotStarted {
                    FileCommandView::Remove { path: self.config.session_file }
                } else {
                    FileCommandView::Nothing
                },
            }
        } else {
            TransitionView { pomodoro: self.advance(), command: FileCommandView::Nothing }
        }
    }
}

impl Clone for Pomodoro {
    fn clone(&self) -> (copy: Self)
        ensures
            copy@ == self@,
    {
        Pomodoro {
            config: self.config.clone(),
            current_session: self.current_session.clone(),
            current_work_round_number: self.current_work_round_number,
        }
    }
}

impl Pomodoro {
    /// A timer that has just been set up with `config`: in its first round,
    /// with a focus session that has not started.
    pub fn new(config: Config) -> (pomodoro: Self)
        ensures
            pomodoro@ == PomodoroView::initial(config@),
    {
        Pomodoro { config, current_session: Session::default(), current_work_round_number: 1 }
    }
}

impl Default for Pomodoro {
    /// A timer with the default configuration, in its first round, with a
    /// focus session that has not started.
    fn default() -> (pomodoro: Self)
        ensures
            exists|cache_dir: Option<Seq<char>>|
                pomodoro@ == PomodoroView::initial(
                    ConfigView::defaults(session_file_in(cache_dir)),
                ),
    {
        let pomodoro = Pomodoro::new(Config::default());
        proof {
            let cache_dir = choose|cache_dir: Option<Seq<char>>|
                pomodoro.config@ == ConfigView::defaults(session_file_in(cache_dir));
            assert(pomodoro@ == PomodoroView::initial(
                ConfigView::defaults(session_file_in(cache_dir)),
            ));
        }
        pomodoro
    }
}

/// The timer's state as it is shown: without the session file and the start
/// time.
#[derive(Debug)]
pub struct PomodoroUnborrowed {
    pub config: Config,
    pub current_session: SessionUnburrowed,
    pub current_work_round_number: u16,
}

/// A session as it is shown.
#[derive(Debug)]
pub struct SessionUnburrowed {
    pub current_time: Seconds,
    pub label: Option<String>,
    pub session_type: SessionType,
    pub status: SessionStatus,
}

/// The mathematical value of a [`SessionUnburrowed`].
pub struct SessionUnburrowedView {
    pub current_time: nat,
    pub label: Option<Seq<char>>,
    pub session_type: SessionType,
    pub status: SessionStatus,
}

/// The mathematical value of a [`PomodoroUnborrowed`].
pub struct PomodoroUnborrowedView {
    pub config: ConfigView,
    pub current_session: SessionUnburrowedView,
    pub current_work_round_number: nat,
}

impl View for SessionUnburrowed {
    type V = SessionUnburrowedView;

    open spec fn view(&self) -> SessionUnburrowedView {
        SessionUnburrowedView {
            current_time: self.current_time as nat,
            label: crate::session::text_view(self.label),
            session_type: self.session_type,
            status: self.status,
        }
    }
}

impl View for PomodoroUnborrowed {
    type V = PomodoroUnborrowedView;

    open spec fn view(&self) -> PomodoroUnborrowedView {
        PomodoroUnborrowedView {
            config: self.config@,
            current_session: self.current_session@,
            current_work_round_number: self.current_work_round_number as nat,
        }
    }
}

impl PomodoroView {
    /// This state as it is shown: the configuration, the round, and of the
    /// session its time, label, kind and status.
    pub open spec fn shown(self) -> PomodoroUnborrowedView {
        PomodoroUnborrowedView {
            config: self.config,
            current_session: SessionUnburrowedView {
                current_time: self.current_session.current_time,
                label: self.current_session.label,
                session_type: self.current_session.session_type,
                status: self.current_session.status,
            },
            current_work_round_number: self.current_work_round_number,
        }
    }
}

impl Pomodoro {
    /// How long `session` lasts under this timer's configuration.
    pub fn duration_of_session(&self, session: &Session) -> (duration: Seconds)
        ensures
            duration == self@.config.duration_of(session.session_type),
    {
        match session.session_type {
            SessionType::Focus => self.config.focus_duration,
            SessionType::LongBreak => self.config.long_break_duration,
            SessionType::ShortBreak => self.config.short_break_duration,
        }
    }

    /// The state as it is shown: the configuration, the round, and of the
    /// session its time, label, kind and status.
    pub fn to_unborrowed(&self) -> (shown: PomodoroUnborrowed)
        ensures
            shown@ == self@.shown(),
    {
        PomodoroUnborrowed {
            config: self.config.clone(),
            current_work_round_number: self.current_work_round_number,
            current_session: SessionUnburrowed {
                current_time: self.current_session.current_time,
                session_type: self.current_session.session_type,
                status: self.current_session.status,
                label: clone_text(&self.current_session.label),
            },
        }
    }
}

/// Pauses the current session. Nothing else changes, and the session file
/// is left alone.
pub fn pause(pomodoro: &Pomodoro) -> (paused: Pomodoro)
    ensures
        paused@ == pomodoro@.pause(),
        paused@.current_session.consistent(),
{
    Pomodoro {
        current_session: Session {
            status: SessionStatus::Paused,
            label: clone_text(&pomodoro.current_session.label),
            session_file: clone_text(&pomodoro.current_session.session_file),
            current_time: pomodoro.current_session.current_time,
            session_type: pomodoro.current_session.session_type,
            start_time: pomodoro.current_session.start_time,
        },
        config: pomodoro.config.clone(),
        current_work_round_number: pomodoro.current_work_round_number,
    }
}

/// Lets the current session run, backed by the configured session file.
/// The time, the label, the kind and the start time stay as they are.
pub fn play(pomodoro: &Pomodoro) -> (running: Pomodoro)
    ensures
        running@ == pomodoro@.play(),
        running@.current_session.consistent(),
{
    Pomodoro {
        current_session: Session {
            status: SessionStatus::Running,
            label: clone_text(&pomodoro.current_session.label),
            session_file: Some(pomodoro.config.session_file.clone()),
            current_time: pomodoro.current_session.current_time,
            session_type: pomodoro.current_session.session_type,
            start_time: pomodoro.current_session.start_time,
        },
        config: pomodoro.config.clone(),
        current_work_round_number: pomodoro.current_work_round_number,
    }
}

/// The command that deletes the file backing the current session; nothing
/// where no file backs it.
pub fn remove_session_file(pomodoro: &Pomodoro) -> (command: FileCommand)
    ensures
        command@ == pomodoro@.remove_command(),
{
    match &pomodoro.current_session.session_file {
        Some(path) => FileCommand::Remove { path: path.clone() },
        None => FileCommand::Nothing,
    }
}

/// The command that creates the configured session file for the current
/// session: its kind, the separator, and its label or `working`.
pub fn create_session_file(pomodoro: &Pomodoro) -> (command: FileCommand)
    ensures
        command@ == pomodoro@.create_command(),
{
    let content = match &pomodoro.current_session.label {
        Some(label) => session_line(pomodoro.current_session.session_type, label.as_str()),
        None => session_line(pomodoro.current_session.session_type, "working"),
    };
    FileCommand::Write { path: pomodoro.config.session_file.clone(), content }
}

/// Abandons the current round: the session has not started, no time has
/// elapsed, and no file backs it. The label, the kind and the round stay.
/// The file that backed the session is to be deleted.
pub fn reset_round(pomodoro: &Pomodoro) -> (reset: Transition)
    ensures
        reset@.pomodoro == pomodoro@.reset_round(),
        reset@.command == pomodoro@.remove_command(),
        reset@.pomodoro.current_session.consistent(),
{
    Transition {
        pomodoro: Pomodoro {
            current_session: Session {
                status: SessionStatus::NotStarted,
                current_time: 0,
                label: clone_text(&pomodoro.current_session.label),
                session_file: None,
                start_time: None,
                session_type: pomodoro.current_session.session_type,
            },
            config: pomodoro.config.clone(),
            current_work_round_number: pomodoro.current_work_round_number,
        },
        command: remove_session_file(pomodoro),
    }
}

/// Starts the whole cycle afresh: as `reset_round`, and the session is a
/// focus session of the first round.
pub fn reset_session(pomodoro: &Pomodoro) -> (reset: Transition)
    ensures
        reset@.pomodoro == pomodoro@.reset_session(),
        reset@.command == pomodoro@.remove_command(),
        reset@.pomodoro.current_session.consistent(),
{
    Transition {
        pomodoro: Pomodoro {
            current_session: Session {
                status: SessionStatus::NotStarted,
                current_time: 0,
                label: clone_text(&pomodoro.current_session.label),
                session_file: None,
                session_type: SessionType::Focus,
                start_time: None,
            },
            config: pomodoro.config.clone(),
            current_work_round_number: 1,
        },
        command: remove_session_file(pomodoro),
    }
}

/// The session that follows the current one.
pub fn get_next_session(pomodoro: &Pomodoro) -> (session: Session)
    ensures
        session@ == pomodoro@.next_session(),
        session@.consistent(),
{
    let session_type = match pomodoro.current_session.session_type {
        SessionType::Focus => {
            if pomodoro.current_work_round_number == pomodoro.config.max_focus_rounds {
                SessionType::LongBreak
            } else {
                SessionType::ShortBreak
            }
        },
        _ => SessionType::Focus,
    };
    let auto_start = match session_type {
        SessionType::Focus => pomodoro.config.auto_start_focus_timer,
        SessionType::LongBreak => pomodoro.config.auto_start_long_break_timer,
        SessionType::ShortBreak => pomodoro.config.auto_start_short_break_timer,
    };
    Session {
        current_time: 0,
        label: None,
        session_file: None,
        session_type,
        start_time: None,
        status: if auto_start {
            SessionStatus::Running
        } else {
            SessionStatus::NotStarted
        },
    }
}

/// Moves on to the next session, counting the round.
pub fn next(pomodoro: &Pomodoro) -> (following: Pomodoro)
    requires
        pomodoro.current_session.session_type == SessionType::ShortBreak
            ==> pomodoro.current_work_round_number < u16::MAX,
    ensures
        following@ == pomodoro@.next(),
        following@.current_session.consistent(),
{
    Pomodoro {
        current_session: get_next_session(pomodoro),
        current_work_round_number: match pomodoro.current_session.session_type {
            SessionType::ShortBreak => pomodoro.current_work_round_number + 1,
            SessionType::LongBreak => 1,
            SessionType::Focus => pomodoro.current_work_round_number,
        },
        config: pomodoro.config.clone(),
    }
}

/// Lets one second pass.
///
/// A session that does not run is returned as it is. A running session
/// gains one second, unless this was its last: then the next session takes
/// its place, and if that one has not started, the configured session file
/// is to be deleted.
pub fn tick(pomodoro: &Pomodoro) -> (ticked: Transition)
    requires
        pomodoro.current_session.status == SessionStatus::Running ==> {
            &&& pomodoro.current_session.current_time < u16::MAX
            &&& pomodoro@.at_last_second() && pomodoro.current_session.session_type
                == SessionType::ShortBreak ==> pomodoro.current_work_round_number < u16::MAX
        },
    ensures
        ticked@ == pomodoro@.tick(),
        pomodoro@.current_session.consistent() ==> ticked@.pomodoro.current_session.consistent(),
{
    match pomodoro.current_session.status {
        SessionStatus::Running => {
            let duration = pomodoro.duration_of_session(&pomodoro.current_session);
            if pomodoro.current_session.current_time + 1 == duration {
                let following = next(pomodoro);
                let command = match following.current_session.status {
                    SessionStatus::NotStarted => FileCommand::Remove {
                        path: pomodoro.config.session_file.clone(),
                    },
                    _ => FileCommand::Nothing,
                };
                Transition { pomodoro: following, command }
            } else {
                Transition {
                    pomodoro: Pomodoro {
                        current_session: Session {
                            current_time: pomodoro.current_session.current_time + 1,
                            label: clone_text(&pomodoro.current_session.label),
                            session_file: clone_text(&pomodoro.current_session.session_file),
                            session_type: pomodoro.current_session.session_type,
                            start_time: pomodoro.current_session.start_time,
                            status: pomodoro.current_session.status,
                        },
                        config: pomodoro.config.clone(),
                        current_work_round_number: pomodoro.current_work_round_number,
                    },
                    command: FileCommand::Nothing,
                }
            }
        },
        _ => Transition { pomodoro: pomodoro.clone(), command: FileCommand::Nothing },
    }
}

/// A tick leaves a session that does not run exactly as it is, and asks
/// nothing of the session file.
pub proof fn lemma_tick_leaves_idle_session(pomodoro: PomodoroView)
    requires
        pomodoro.current_session.status != SessionStatus::Running,
    ensures
        pomodoro.tick().pomodoro == pomodoro,
        pomodoro.tick().command == FileCommandView::Nothing,
{
}

/// A tick on a running session does exactly one of two things. Either the
/// session gains one second and nothing else changes, or, at its last
/// second, the next session of the round table takes its place with no time
/// elapsed.
pub proof fn lemma_tick_gains_a_second_or_moves_on(pomodoro: PomodoroView)
    requires
        pomodoro.current_session.status == SessionStatus::Running,
    ensures
        (pomodoro.tick().pomodoro == pomodoro.advance()) != (pomodoro.tick().pomodoro
            == pomodoro.next()),
        pomodoro.tick().pomodoro == pomodoro.next() <==> pomodoro.at_last_second(),
        pomodoro.advance().current_session.current_time
            == pomodoro.current_session.current_time + 1,
        pomodoro.advance().current_session.session_type == pomodoro.current_session.session_type,
        pomodoro.advance().current_work_round_number == pomodoro.current_work_round_number,
        pomodoro.next().current_session.session_type == pomodoro.next_session_type(),
        pomodoro.next().current_session.session_type != pomodoro.current_session.session_type,
        pomodoro.next().current_session.current_time == 0,
        pomodoro.next().current_work_round_number == pomodoro.next_round_number(),
{
}

/// Resetting the round twice gives what resetting it once gives: a session
/// that has not started, with no time elapsed and no file behind it; the
/// second reset asks nothing of the session file.
pub proof fn lemma_reset_round_is_idempotent(pomodoro: PomodoroView)
    ensures
        pomodoro.reset_round().reset_round() == pomodoro.reset_round(),
        pomodoro.reset_round().remove_command() == FileCommandView::Nothing,
        pomodoro.reset_round().current_session.status == SessionStatus::NotStarted,
        pomodoro.reset_round().current_session.current_time == 0,
        pomodoro.reset_round().current_session.session_file is None,
{
}

/// Under a valid configuration a tick keeps the elapsed time below the
/// session's duration.
pub proof fn lemma_tick_stays_within_duration(pomodoro: PomodoroView)
    requires
        pomodoro.config.valid(),
        pomodoro.current_session.current_time < pomodoro.duration(),
    ensures
        pomodoro.tick().pomodoro.current_session.current_time < pomodoro.tick().pomodoro.duration(),
{
}

/// No transition of the timer changes its configuration.
pub proof fn lemma_transitions_keep_the_configuration(pomodoro: PomodoroView)
    ensures
        pomodoro.pause().config == pomodoro.config,
        pomodoro.play().config == pomodoro.config,
        pomodoro.reset_round().config == pomodoro.config,
        pomodoro.reset_session().config == pomodoro.config,
        pomodoro.next().config == pomodoro.config,
        pomodoro.tick().pomodoro.config == pomodoro.config,
{
}

/// No transition of the timer leaves a session that has not started with a
/// session file behind it.
pub proof fn lemma_transitions_keep_sessions_consistent(pomodoro: PomodoroView)
    ensures
        pomodoro.pause().current_session.consistent(),
        pomodoro.play().current_session.consistent(),
        pomodoro.reset_round().current_session.consistent(),
        pomodoro.reset_session().current_session.consistent(),
        pomodoro.next().current_session.consistent(),
        pomodoro.current_session.consistent()
            ==> pomodoro.tick().pomodoro.current_session.consistent(),
{
}

} // verus!
