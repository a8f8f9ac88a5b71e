//! Reconciliation: what the timer's state becomes once a driver has looked
//! at the session file.
//!
//! The file is the only channel between the timer and other processes.
//! Creating it starts a session, its last-modified time is the session's
//! start, rewriting it restarts the session, and deleting it stops the
//! session. Elapsed time is always derived from the clock and the file's
//! time, never counted up.

use crate::codec::{
    lemma_parse_session_line, parse_line, parse_line_spec, session_line_spec, ParseError,
    ParseErrorView, SEPARATOR,
};
use crate::pomodoro::{
    create_session_file, play, reset_round, tick, FileCommand, FileCommandView, Pomodoro,
    PomodoroView, Transition, TransitionView,
};
use crate::session::{
    clone_text, info_view, Session, SessionFile, SessionFileView, SessionInfo, SessionInfoView,
    SessionStatus, SessionType, SessionView,
};
use crate::text::{is_whitespace, trim, trimmed};
use crate::time::{get_remaining_time, remaining_seconds, ClockError, Timestamp};
use vstd::prelude::*;

verus! {

/// What a session file says, where it can be read: the fields of its
/// content, white space at both ends set aside, and its last-modified time
/// as the start.
pub open spec fn session_info_of(file: SessionFileView) -> Result<SessionInfoView, ParseErrorView> {
    match parse_line_spec(trimmed(file.content)) {
        Ok(content) => Ok(
            SessionInfoView {
                label: content.label,
                session_type: content.session_type,
                start_time: file.modified,
            },
        ),
        Err(error) => Err(error),
    }
}

/// What is taken for the session file's message where the file gives no
/// label and no kind: a focus session with the default label, begun at
/// `start`.
pub open spec fn default_session_info(
    pomodoro: PomodoroView,
    start: Timestamp,
) -> SessionInfoView {
    SessionInfoView {
        label: pomodoro.config.default_focus_label,
        session_type: SessionType::Focus,
        start_time: start,
    }
}

/// What a session file says, with the default label and kind where it says
/// nothing that can be read. The start is the file's last-modified time,
/// whatever the file holds; only where there is no file at all is it `now`.
pub open spec fn session_info_or_default(
    file: Option<SessionFileView>,
    pomodoro: PomodoroView,
    now: Timestamp,
) -> SessionInfoView {
    match file {
        Some(f) => match session_info_of(f) {
            Ok(info) => info,
            Err(_) => default_session_info(pomodoro, f.modified),
        },
        None => default_session_info(pomodoro, now),
    }
}

/// Whole seconds of a session of `duration` seconds that have begun by
/// `now`, for a session started at `since`: what is not left of it.
pub open spec fn elapsed_seconds(since: Timestamp, now: Timestamp, duration: nat) -> nat {
    (duration - remaining_seconds(since, now, duration)) as nat
}

impl PomodoroView {
    /// This state started at `start`.
    pub open spec fn started_at(self, start: Timestamp) -> PomodoroView {
        self.with_session(SessionView { start_time: Some(start), ..self.current_session })
    }

    /// The command that makes sure a file backs the session: the file is
    /// created where none backs it, and else left alone.
    pub open spec fn ensure_command(self) -> FileCommandView {
        if self.current_session.session_file is None {
            self.create_command()
        } else {
            FileCommandView::Nothing
        }
    }

    /// The outcome of `play_with_session_file`: the session runs, backed by
    /// the configured file, from the start that the file gives. Where no
    /// file backed the session, one is to be created.
    pub open spec fn play_with_session_file(self, info: SessionInfoView) -> TransitionView {
        TransitionView {
            pomodoro: self.play().started_at(info.start_time),
            command: self.ensure_command(),
        }
    }

    /// Whether a file with this message starts the session anew: no file
    /// backs the session, or none of its starts is on record, or the file
    /// is newer than the start on record.
    pub open spec fn superseded_by(self, info: SessionInfoView) -> bool {
        ||| self.current_session.session_file is None
        ||| match self.current_session.start_time {
            Some(start) => info.start_time.spec_is_after(start),
            None => true,
        }
    }

    /// Whether a file with this message is newer than the start on record.
    pub open spec fn rewound_by(self, info: SessionInfoView) -> bool {
        match self.current_session.start_time {
            Some(start) => info.start_time.spec_is_after(start),
            None => false,
        }
    }

    /// This state with the label and the kind that the file gives, backed by
    /// the configured session file, and with no time elapsed if the file is
    /// newer than the start on record.
    pub open spec fn adopt(self, info: SessionInfoView) -> PomodoroView {
        self.with_session(
            SessionView {
                label: Some(info.label),
                session_type: info.session_type,
                session_file: Some(self.config.session_file),
                current_time: if self.rewound_by(info) {
                    0
                } else {
                    self.current_session.current_time
                },
                ..self.current_session
            },
        )
    }

    /// This state with `seconds` elapsed.
    pub open spec fn at_time(self, seconds: nat) -> PomodoroView {
        self.with_session(SessionView { current_time: seconds, ..self.current_session })
    }

    /// The outcome for a session whose file is no newer than its start on
    /// record: the elapsed time is derived from the file's time and `now`.
    /// A session whose time is up is abandoned as by `reset_round`.
    pub open spec fn catch_up(self, info: SessionInfoView, now: Timestamp) -> Result<
        TransitionView,
        ClockError,
    > {
        if now.as_nanos() < info.start_time.as_nanos() {
            Err(ClockError::Backwards)
        } else {
            let elapsed = elapsed_seconds(info.start_time, now, self.duration());
            if elapsed >= self.duration() {
                Ok(TransitionView { pomodoro: self.reset_round(), command: self.remove_command() })
            } else {
                Ok(
                    TransitionView {
                        pomodoro: self.at_time(elapsed),
                        command: FileCommandView::Nothing,
                    },
                )
            }
        }
    }

    /// The outcome of `tick_with_file_session_info`, rule by rule:
    /// without a file the round is abandoned; a file that supersedes the
    /// session is taken over and the session resumed from the file's time;
    /// otherwise the session catches up with the clock.
    pub open spec fn reconcile(self, observed: Option<SessionInfoView>, now: Timestamp) -> Result<
        TransitionView,
        ClockError,
    > {
        match observed {
            None => Ok(
                TransitionView { pomodoro: self.reset_round(), command: self.remove_command() },
            ),
            Some(info) => if self.superseded_by(info) {
                Ok(self.adopt(info).play_with_session_file(info))
            } else {
                self.catch_up(info, now)
            },
        }
    }
}

impl PomodoroView {
    /// Whether the counters leave room for a tick: a running session can
    /// gain a second, and a short break at its last second can count its
    /// round.
    pub open spec fn tick_fits(self) -> bool {
        self.current_session.status == SessionStatus::Running ==> {
            &&& self.current_session.current_time < u16::MAX
            &&& self.at_last_second() && self.current_session.session_type
                == SessionType::ShortBreak ==> self.current_work_round_number < u16::MAX
        }
    }

    /// Whether a file that was found starts a session: it does where no
    /// file backs the current session.
    pub open spec fn started_by(self, file: Option<SessionFileView>) -> bool {
        file is Some && self.current_session.session_file is None
    }

    /// Whether this state, reached by a tick while a file was found, holds
    /// a session that started by itself and that no file backs yet.
    pub open spec fn left_without_file(self, file: Option<SessionFileView>) -> bool {
        &&& file is Some
        &&& self.current_session.session_file is None
        &&& self.current_session.status == SessionStatus::Running
    }

    /// The outcome of `tick_with_session_file`. A file that no session is
    /// backed by starts a session, as it does under reconciliation. In
    /// every other case one second passes, as under `tick`; and where that
    /// leaves a session that started by itself while a file is there, the
    /// session is resumed from `now`, which writes the file anew for it.
    pub open spec fn tick_with_session_file(
        self,
        file: Option<SessionFileView>,
        now: Timestamp,
    ) -> TransitionView {
        if self.started_by(file) {
            let info = session_info_or_default(file, self, now);
            self.adopt(info).play_with_session_file(info)
        } else if self.tick().pomodoro.left_without_file(file) {
            self.tick().pomodoro.play_with_session_file(
                default_session_info(self.tick().pomodoro, now),
            )
        } else {
            self.tick()
        }
    }
}

/// The view of an outcome that may be an error.
pub open spec fn outcome_view(outcome: Result<Transition, ClockError>) -> Result<
    TransitionView,
    ClockError,
> {
    match outcome {
        Ok(transition) => Ok(transition@),
        Err(error) => Err(error),
    }
}

/// Reads what a session file says. Fails exactly where its content, white
/// space at both ends set aside, is no session line.
pub fn get_session_info(file: &SessionFile) -> (res: Result<SessionInfo, ParseError>)
    ensures
        match res {
            Ok(info) => session_info_of(file@) == Ok::<SessionInfoView, ParseErrorView>(info@),
            Err(error) => session_info_of(file@) == Err::<SessionInfoView, ParseErrorView>(error@),
        },
{
    match parse_line(trim(file.content.as_str())) {
        Ok(content) => Ok(
            SessionInfo {
                label: content.label,
                session_type: content.session_type,
                start_time: file.modified,
            },
        ),
        Err(error) => Err(error),
    }
}

/// Reads what a session file says, and falls back on the default label and
/// kind where its content is no session line. The start is the file's
/// last-modified time in either case. Without a file the default begins at
/// `now`.
pub fn get_session_info_with_default(
    file: Option<&SessionFile>,
    pomodoro: &Pomodoro,
    now: Timestamp,
) -> (info: SessionInfo)
    ensures
        info@ == session_info_or_default(
            match file {
                Some(f) => Some(f@),
                None => None,
            },
            pomodoro@,
            now,
        ),
{
    match file {
        Some(f) => match get_session_info(f) {
            Ok(info) => info,
            Err(_) => SessionInfo {
                label: pomodoro.config.default_focus_label.clone(),
                session_type: SessionType::Focus,
                start_time: f.modified,
            },
        },
        None => SessionInfo {
            label: pomodoro.config.default_focus_label.clone(),
            session_type: SessionType::Focus,
            start_time: now,
        },
    }
}

/// The command that makes sure a file backs the session before it is
/// resumed: the configured file is created where no file backs the session,
/// and nothing is done where one does.
pub fn ensure_session_file(pomodoro: &Pomodoro) -> (command: FileCommand)
    ensures
        command@ == pomodoro@.ensure_command(),
{
    match &pomodoro.current_session.session_file {
        None => create_session_file(pomodoro),
        Some(_) => FileCommand::Nothing,
    }
}

/// Resumes the session with what the session file says: it runs, backed by
/// the configured file, and its start is the file's time. Where no file
/// backed the session, the file is to be created.
///
/// A driver that wants the start to be the time of the file it creates
/// carries out [`ensure_session_file`] first and reads the file after that.
pub fn play_with_session_file(pomodoro: &Pomodoro, session_info: &SessionInfo) -> (resumed:
    Transition)
    ensures
        resumed@ == pomodoro@.play_with_session_file(session_info@),
        resumed@.pomodoro.current_session.consistent(),
{
    let command = ensure_session_file(pomodoro);
    let mut running = play(pomodoro);
    running.current_session.start_time = Some(session_info.start_time);
    Transition { pomodoro: running, command }
}

/// Brings the state in line with what a driver found of the session file.
///
/// - No file: the round is abandoned, as by `reset_round`.
/// - A file that supersedes the session (none backed it, or no start is on
///   record, or the file is newer than the start on record): the session
///   takes the file's label and kind, is backed by the file and is resumed
///   from the file's time; its elapsed time is zero if the file is newer
///   than the start on record. The file itself is left as it is, so that
///   its time keeps telling when the session began.
/// - Otherwise the elapsed time is derived from the file's time and `now`;
///   a session whose time is up is abandoned.
///
/// Fails exactly in the last case when `now` lies before the file's time.
pub fn tick_with_file_session_info(
    pomodoro: &Pomodoro,
    session_info: Option<SessionInfo>,
    now: Timestamp,
) -> (res: Result<Transition, ClockError>)
    ensures
        outcome_view(res) == pomodoro@.reconcile(info_view(session_info), now),
        res matches Ok(transition) ==> (pomodoro@.current_session.consistent()
            ==> transition@.pomodoro.current_session.consistent()),
{
    match session_info {
        None => Ok(reset_round(pomodoro)),
        Some(info) => {
            let rewound = match pomodoro.current_session.start_time {
                Some(start) => info.start_time.is_after(&start),
                None => false,
            };
            let superseded = pomodoro.current_session.session_file.is_none()
                || pomodoro.current_session.start_time.is_none() || rewound;
            if superseded {
                let adopted = Pomodoro {
                    current_session: Session {
                        label: Some(info.label.clone()),
                        session_type: info.session_type,
                        current_time: if rewound {
                            0
                        } else {
                            pomodoro.current_session.current_time
                        },
                        session_file: Some(pomodoro.config.session_file.clone()),
                        start_time: pomodoro.current_session.start_time,
                        status: pomodoro.current_session.status,
                    },
                    config: pomodoro.config.clone(),
                    current_work_round_number: pomodoro.current_work_round_number,
                };
                Ok(play_with_session_file(&adopted, &info))
            } else {
                let duration = pomodoro.duration_of_session(&pomodoro.current_session);
                match get_remaining_time(&info.start_time, &now, duration as u64) {
                    Err(error) => Err(error),
                    Ok(remaining) => {
                        let elapsed: u64 = duration as u64 - remaining;
                        if elapsed >= duration as u64 {
                            Ok(reset_round(pomodoro))
                        } else {
                            Ok(
                                Transition {
                                    pomodoro: Pomodoro {
                                        current_session: Session {
                                            current_time: elapsed as u16,
                                            label: clone_text(&pomodoro.current_session.label),
                                            session_file: clone_text(
                                                &pomodoro.current_session.session_file,
                                            ),
                                            session_type: pomodoro.current_session.session_type,
                                            start_time: pomodoro.current_session.start_time,
                                            status: pomodoro.current_session.status,
                                        },
                                        config: pomodoro.config.clone(),
                                        current_work_round_number:
                                            pomodoro.current_work_round_number,
                                    },
                                    command: FileCommand::Nothing,
                                },
                            )
                        }
                    },
                }
            }
        },
    }
}

/// Brings the state in line with the session file as a driver found it:
/// reads what the file says, with the default label and kind where it
/// cannot be read, and reconciles the state with that. The start that
/// counts is the file's last-modified time, whatever the file holds.
pub fn get_next_pomodoro_from_session_file(
    file: Option<&SessionFile>,
    previous_pomodoro: &Pomodoro,
    now: Timestamp,
) -> (res: Result<Transition, ClockError>)
    ensures
        outcome_view(res) == previous_pomodoro@.reconcile(
            match file {
                Some(f) => Some(session_info_or_default(Some(f@), previous_pomodoro@, now)),
                None => None,
            },
            now,
        ),
        res matches Ok(transition) ==> (previous_pomodoro@.current_session.consistent()
            ==> transition@.pomodoro.current_session.consistent()),
{
    let observed = match file {
        Some(f) => Some(get_session_info_with_default(Some(f), previous_pomodoro, now)),
        None => None,
    };
    tick_with_file_session_info(previous_pomodoro, observed, now)
}

/// Lets one second pass in a driver that counts the seconds itself and
/// looks at the session file for a start only.
///
/// Where a file is found and no file backs the session, the file starts a
/// session exactly as [`get_next_pomodoro_from_session_file`] has it: the
/// session takes the file's label and kind, or the defaults where the file
/// cannot be read, and runs from the file's time. In every other case one
/// second passes as under `tick`. Where that tick hands over to a session
/// that starts by itself while a file is there, that session is resumed as
/// by [`play_with_session_file`]: the file is written anew for it, so that
/// the file on disk never speaks of a session that is over.
pub fn tick_with_session_file(
    file: Option<&SessionFile>,
    previous_pomodoro: &Pomodoro,
    now: Timestamp,
) -> (ticked: Transition)
    requires
        !previous_pomodoro@.started_by(
            match file {
                Some(f) => Some(f@),
                None => None,
            },
        ) ==> previous_pomodoro@.tick_fits(),
    ensures
        ticked@ == previous_pomodoro@.tick_with_session_file(
            match file {
                Some(f) => Some(f@),
                None => None,
            },
            now,
        ),
        previous_pomodoro@.current_session.consistent()
            ==> ticked@.pomodoro.current_session.consistent(),
{
    if file.is_some() && previous_pomodoro.current_session.session_file.is_none() {
        let started = get_next_pomodoro_from_session_file(file, previous_pomodoro, now);
        started.unwrap()
    } else {
        let ticked = tick(previous_pomodoro);
        let by_itself = match ticked.pomodoro.current_session.status {
            SessionStatus::Running => ticked.pomodoro.current_session.session_file.is_none(),
            _ => false,
        };
        if file.is_some() && by_itself {
            let info = get_session_info_with_default(None, &ticked.pomodoro, now);
            play_with_session_file(&ticked.pomodoro, &info)
        } else {
            ticked
        }
    }
}

/// A file that holds the line written for a kind and a label reads back as
/// that kind and that label, with the file's time as the start, provided
/// that the label holds no separator and does not end in white space.
pub proof fn lemma_written_file_reads_back(
    session_type: SessionType,
    label: Seq<char>,
    modified: Timestamp,
)
    requires
        forall|i: int| 0 <= i < label.len() ==> label[i] != SEPARATOR,
        label.len() > 0 ==> !is_whitespace(label.last()),
    ensures
        session_info_of(
            SessionFileView { content: session_line_spec(session_type, label), modified },
        ) == Ok::<SessionInfoView, ParseErrorView>(
            SessionInfoView { label, session_type, start_time: modified },
        ),
{
    reveal_strlit("focus");
    reveal_strlit("shortbreak");
    reveal_strlit("longbreak");
    let line = session_line_spec(session_type, label);
    assert(!is_whitespace(line.first()));
    assert(!is_whitespace(line.last()));
    assert(trimmed(line) == line);
    lemma_parse_session_line(session_type, label);
}

/// A file that is there gives its last-modified time as the start, whether
/// or not its content can be read; the clock plays no part in it.
pub proof fn lemma_present_file_gives_its_time(
    file: SessionFileView,
    pomodoro: PomodoroView,
    now: Timestamp,
)
    ensures
        session_info_or_default(Some(file), pomodoro, now).start_time == file.modified,
        session_info_of(file) is Err ==> session_info_or_default(Some(file), pomodoro, now)
            == default_session_info(pomodoro, file.modified),
{
}

/// While the session is backed by a file that is no newer than the start on
/// record, reconciling follows the clock from the file's time, whether or
/// not the file can be read: a session whose time is up is abandoned in its
/// round, and any other has as many seconds elapsed as have begun since the
/// file's time, whatever had been counted before.
pub proof fn lemma_unchanged_file_follows_the_clock(
    pomodoro: PomodoroView,
    file: SessionFileView,
    now: Timestamp,
)
    requires
        pomodoro.current_session.session_file is Some,
        pomodoro.current_session.start_time matches Some(start) && !file.modified.spec_is_after(
            start,
        ),
        file.modified.as_nanos() <= now.as_nanos(),
    ensures
        ({
            let info = session_info_or_default(Some(file), pomodoro, now);
            let elapsed = elapsed_seconds(file.modified, now, pomodoro.duration());
            &&& pomodoro.reconcile(Some(info), now) matches Ok(transition)
            &&& transition.pomodoro.current_work_round_number
                == pomodoro.current_work_round_number
            &&& elapsed >= pomodoro.duration() ==> {
                &&& transition.pomodoro == pomodoro.reset_round()
                &&& transition.pomodoro.current_session.status == SessionStatus::NotStarted
            }
            &&& elapsed < pomodoro.duration() ==> {
                &&& transition.pomodoro == pomodoro.at_time(elapsed)
                &&& transition.pomodoro.current_session.current_time == elapsed
                &&& transition.pomodoro.current_session.status
                    == pomodoro.current_session.status
            }
        }),
{
}

/// Under `tick_with_session_file`, a file that was found backs whatever
/// session has started: only a session that has not started is left without
/// a file behind it.
pub proof fn lemma_found_file_backs_the_session(
    pomodoro: PomodoroView,
    file: SessionFileView,
    now: Timestamp,
)
    ensures
        ({
            let after = pomodoro.tick_with_session_file(Some(file), now).pomodoro;
            after.current_session.session_file is None ==> after.current_session.status
                == SessionStatus::NotStarted
        }),
        pomodoro.tick_with_session_file(Some(file), now).pomodoro.config == pomodoro.config,
{
}

/// Without a file, and for a session that a file backs and that does not
/// end at this second, `tick_with_session_file` is `tick`.
pub proof fn lemma_tick_with_session_file_is_tick(
    pomodoro: PomodoroView,
    file: Option<SessionFileView>,
    now: Timestamp,
)
    requires
        file is None || (pomodoro.current_session.session_file is Some && !(
        pomodoro.current_session.status == SessionStatus::Running && pomodoro.at_last_second())),
    ensures
        pomodoro.tick_with_session_file(file, now) == pomodoro.tick(),
{
}

/// A file that starts a session under `tick_with_session_file` does so as
/// under reconciliation, and never asks for a write.
pub proof fn lemma_file_starts_session_as_reconciled(
    pomodoro: PomodoroView,
    file: SessionFileView,
    now: Timestamp,
)
    requires
        pomodoro.current_session.session_file is None,
    ensures
        pomodoro.reconcile(Some(session_info_or_default(Some(file), pomodoro, now)), now) == Ok::<
            TransitionView,
            ClockError,
        >(pomodoro.tick_with_session_file(Some(file), now)),
        pomodoro.tick_with_session_file(Some(file), now).command == FileCommandView::Nothing,
        pomodoro.tick_with_session_file(Some(file), now).pomodoro.current_session.status
            == SessionStatus::Running,
{
}

/// Once the session file is gone, the reconciled session has not started
/// and no file backs it, whatever it was doing.
pub proof fn lemma_reconcile_without_file(pomodoro: PomodoroView, now: Timestamp)
    ensures
        pomodoro.reconcile(None, now) == Ok::<TransitionView, ClockError>(
            TransitionView { pomodoro: pomodoro.reset_round(), command: pomodoro.remove_command() },
        ),
        pomodoro.reset_round().current_session.status == SessionStatus::NotStarted,
        pomodoro.reset_round().current_session.session_file is None,
{
}

/// A session file that is newer than the start on record restarts the
/// session: it runs from the file's time with no time elapsed, under the
/// file's label and kind.
pub proof fn lemma_reconcile_with_newer_file(
    pomodoro: PomodoroView,
    info: SessionInfoView,
    now: Timestamp,
)
    requires
        pomodoro.current_session.start_time matches Some(start) && info.start_time.spec_is_after(
            start,
        ),
    ensures
        pomodoro.reconcile(Some(info), now) matches Ok(transition) && {
            let session = transition.pomodoro.current_session;
            &&& session.status == SessionStatus::Running
            &&& session.current_time == 0
            &&& session.label == Some(info.label)
            &&& session.session_type == info.session_type
            &&& session.start_time == Some(info.start_time)
            &&& session.session_file == Some(pomodoro.config.session_file)
            &&& transition.pomodoro.config == pomodoro.config
            &&& transition.pomodoro.current_work_round_number
                == pomodoro.current_work_round_number
            &&& transition.command == FileCommandView::Nothing
        },
{
}

/// Reconciling leaves the configuration as it is.
pub proof fn lemma_reconcile_keeps_the_configuration(
    pomodoro: PomodoroView,
    observed: Option<SessionInfoView>,
    now: Timestamp,
)
    ensures
        pomodoro.reconcile(observed, now) matches Ok(transition) ==> transition.pomodoro.config
            == pomodoro.config,
{
}

/// Reconciling never writes the session file: the file's time stays the
/// record of when the session began.
pub proof fn lemma_reconcile_never_writes(
    pomodoro: PomodoroView,
    observed: Option<SessionInfoView>,
    now: Timestamp,
)
    ensures
        pomodoro.reconcile(observed, now) matches Ok(transition) ==> !(transition.command
            is Write),
{
}

/// While the file stays as it was, the elapsed time is derived from the
/// file's time and the clock alone: what had been counted before plays no
/// part.
pub proof fn lemma_catch_up_ignores_the_count(
    pomodoro: PomodoroView,
    counted: nat,
    info: SessionInfoView,
    now: Timestamp,
)
    ensures
        pomodoro.at_time(counted).catch_up(info, now) == pomodoro.catch_up(info, now),
        pomodoro.catch_up(info, now) matches Ok(transition) ==> {
            ||| transition.pomodoro == pomodoro.reset_round()
            ||| transition.pomodoro == pomodoro.at_time(
                elapsed_seconds(info.start_time, now, pomodoro.duration()),
            )
        },
{
}

/// Reconciling never leaves a session that has not started with a session
/// file behind it.
pub proof fn lemma_reconcile_keeps_sessions_consistent(
    pomodoro: PomodoroView,
    observed: Option<SessionInfoView>,
    now: Timestamp,
)
    requires
        pomodoro.current_session.consistent(),
    ensures
        pomodoro.reconcile(observed, now) matches Ok(transition)
            ==> transition.pomodoro.current_session.consistent(),
{
}

/// While the file stays as it was, the reconciled time never exceeds the
/// session's duration.
pub proof fn lemma_catch_up_stays_within_duration(
    pomodoro: PomodoroView,
    info: SessionInfoView,
    now: Timestamp,
)
    ensures
        pomodoro.catch_up(info, now) matches Ok(transition)
            ==> transition.pomodoro.current_session.current_time
            <= transition.pomodoro.duration(),
{
}

} // verus!
