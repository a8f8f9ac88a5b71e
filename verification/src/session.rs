//! One timed interval: its kind, its status, and what is known of the session
//! file that may back it.

use crate::time::Timestamp;
use vstd::prelude::*;

verus! {

/// Whether the timer of the current session runs.
#[derive(PartialEq, Eq, Structural, Copy, Debug, Clone)]
pub enum SessionStatus {
    NotStarted,
    Paused,
    Running,
}

/// The kind of a session. It selects the duration and takes part in the
/// counting of work rounds.
#[derive(PartialEq, Eq, Structural, Copy, Debug, Clone)]
pub enum SessionType {
    Focus,
    ShortBreak,
    LongBreak,
}

/// Seconds, as the timer counts them.
pub type Seconds = u16;

/// The session in progress.
#[derive(PartialEq, Debug)]
pub struct Session {
    /// Seconds elapsed in this session.
    pub current_time: Seconds,
    /// Text shown with the session, if any.
    pub label: Option<String>,
    /// The path of the session file that backs this session, while one
    /// does.
    pub session_file: Option<String>,
    pub session_type: SessionType,
    /// When the current run began, once it has.
    pub start_time: Option<Timestamp>,
    pub status: SessionStatus,
}

/// The mathematical value of a [`Session`].
pub struct SessionView {
    pub current_time: nat,
    pub label: Option<Seq<char>>,
    pub session_file: Option<Seq<char>>,
    pub session_type: SessionType,
    pub start_time: Option<Timestamp>,
    pub status: SessionStatus,
}

/// The view of an optional text.
pub open spec fn text_view(text: Option<String>) -> Option<Seq<char>> {
    match text {
        Some(t) => Some(t@),
        None => None,
    }
}

impl View for Session {
    type V = SessionView;

    open spec fn view(&self) -> SessionView {
        SessionView {
            current_time: self.current_time as nat,
            label: text_view(self.label),
            session_file: text_view(self.session_file),
            session_type: self.session_type,
            start_time: self.start_time,
            status: self.status,
        }
    }
}

impl SessionView {
    /// A fresh focus session that has not started.
    pub open spec fn initial() -> SessionView {
        SessionView {
            current_time: 0,
            label: None,
            session_file: None,
            session_type: SessionType::Focus,
            start_time: None,
            status: SessionStatus::NotStarted,
        }
    }

    /// A session that is backed by a session file has been started.
    pub open spec fn consistent(self) -> bool {
        self.session_file is Some ==> self.status != SessionStatus::NotStarted
    }
}

/// A copy of an optional text.
pub fn clone_text(text: &Option<String>) -> (copy: Option<String>)
    ensures
        text_view(copy) == text_view(*text),
{
    match text {
        Some(t) => Some(t.clone()),
        None => None,
    }
}

impl Clone for Session {
    fn clone(&self) -> (copy: Self)
        ensures
            copy@ == self@,
    {
        Session {
            current_time: self.current_time,
            label: clone_text(&self.label),
            session_file: clone_text(&self.session_file),
            session_type: self.session_type,
            start_time: self.start_time,
            status: self.status,
        }
    }
}

impl Default for Session {
    fn default() -> (session: Self)
        ensures
            session@ == SessionView::initial(),
    {
        Session {
            current_time: 0,
            label: None,
            session_file: None,
            session_type: SessionType::Focus,
            start_time: None,
            status: SessionStatus::NotStarted,
        }
    }
}

/// What the session file says: a label, a kind, and, from the file's
/// last-modified time, when the session began.
#[derive(PartialEq, Debug)]
pub struct SessionInfo {
    pub label: String,
    pub session_type: SessionType,
    pub start_time: Timestamp,
}

/// The mathematical value of a [`SessionInfo`].
pub struct SessionInfoView {
    pub label: Seq<char>,
    pub session_type: SessionType,
    pub start_time: Timestamp,
}

impl View for SessionInfo {
    type V = SessionInfoView;

    open spec fn view(&self) -> SessionInfoView {
        SessionInfoView {
            label: self.label@,
            session_type: self.session_type,
            start_time: self.start_time,
        }
    }
}

impl Clone for SessionInfo {
    fn clone(&self) -> (copy: Self)
        ensures
            copy@ == self@,
    {
        SessionInfo {
            label: self.label.clone(),
            session_type: self.session_type,
            start_time: self.start_time,
        }
    }
}

/// The session file as a driver found it: its whole content and its
/// last-modified time.
#[derive(PartialEq, Debug)]
pub struct SessionFile {
    pub content: String,
    pub modified: Timestamp,
}

/// The mathematical value of a [`SessionFile`].
pub struct SessionFileView {
    pub content: Seq<char>,
    pub modified: Timestamp,
}

impl View for SessionFile {
    type V = SessionFileView;

    open spec fn view(&self) -> SessionFileView {
        SessionFileView { content: self.content@, modified: self.modified }
    }
}

/// The view of a session info that may be absent.
pub open spec fn info_view(info: Option<SessionInfo>) -> Option<SessionInfoView> {
    match info {
        Some(i) => Some(i@),
        None => None,
    }
}

} // verus!
