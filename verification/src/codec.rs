//! The session file's one-line format: `kind;label`.
//!
//! The kind is one of `focus`, `shortbreak` and `longbreak`, in any mix of
//! upper and lower case; the label is whatever follows the only `;`.

use crate::session::SessionType;
use crate::text::{chars_of, lowercase, lowercase_matches};
use vstd::prelude::*;
use vstd::string::{StrSliceExecFns, StringExecFns};

verus! {

/// The field separator.
pub const SEPARATOR: char = ';';

impl SessionType {
    /// The word that stands for this kind in the session file.
    pub open spec fn name(self) -> Seq<char> {
        match self {
            SessionType::Focus => "focus"@,
            SessionType::ShortBreak => "shortbreak"@,
            SessionType::LongBreak => "longbreak"@,
        }
    }

    /// The word that stands for this kind in the session file.
    pub fn to_string(&self) -> (word: String)
        ensures
            word@ == self.name(),
    {
        match self {
            SessionType::Focus => String::from_str("focus"),
            SessionType::ShortBreak => String::from_str("shortbreak"),
            SessionType::LongBreak => String::from_str("longbreak"),
        }
    }

    /// Reads a kind from its word, whatever the case of its letters.
    pub fn from_str(s: &str) -> (res: Result<SessionType, ParseSessionTypeError>)
        ensures
            match session_type_of(s@) {
                Some(kind) => res == Ok::<SessionType, ParseSessionTypeError>(kind),
                None => res is Err,
            },
    {
        let chars = chars_of(s);
        assert(chars@.subrange(0, chars@.len() as int) =~= s@);
        match kind_of(&chars, 0, chars.len()) {
            Some(kind) => Ok(kind),
            None => Err(ParseSessionTypeError),
        }
    }
}

impl std::str::FromStr for SessionType {
    type Err = ParseSessionTypeError;

    /// Reads a kind from its word, as [`SessionType::from_str`] does:
    /// succeeds exactly on a word that names a kind, with that kind.
    fn from_str(s: &str) -> (res: Result<Self, Self::Err>)
        ensures
            match session_type_of(s@) {
                Some(kind) => res == Ok::<SessionType, ParseSessionTypeError>(kind),
                None => res is Err,
            },
    {
        SessionType::from_str(s)
    }
}

/// The kind that a word stands for, if it stands for one.
pub open spec fn session_type_of(word: Seq<char>) -> Option<SessionType> {
    let lower = lowercase(word);
    if lower == "focus"@ {
        Some(SessionType::Focus)
    } else if lower == "longbreak"@ {
        Some(SessionType::LongBreak)
    } else if lower == "shortbreak"@ {
        Some(SessionType::ShortBreak)
    } else {
        None
    }
}

fn kind_of(chars: &Vec<char>, from: usize, to: usize) -> (kind: Option<SessionType>)
    requires
        from <= to <= chars@.len(),
    ensures
        kind == session_type_of(chars@.subrange(from as int, to as int)),
{
    if lowercase_matches(chars, from, to, "focus") {
        Some(SessionType::Focus)
    } else if lowercase_matches(chars, from, to, "longbreak") {
        Some(SessionType::LongBreak)
    } else if lowercase_matches(chars, from, to, "shortbreak") {
        Some(SessionType::ShortBreak)
    } else {
        None
    }
}

/// A word that names no kind of session.
#[derive(Debug, PartialEq, Eq)]
pub struct ParseSessionTypeError;

impl ParseSessionTypeError {
    /// What went wrong, for people.
    pub fn to_string(&self) -> (message: String)
        ensures
            message@ == "unable to parse session type"@,
    {
        String::from_str("unable to parse session type")
    }
}

/// Why a line is no session line.
#[derive(Debug, PartialEq, Eq)]
pub enum ParseError {
    /// The line does not consist of exactly two fields.
    MalformedLine,
    /// The first field, held here, names no kind of session.
    UnknownSessionType(String),
}

/// The mathematical value of a [`ParseError`].
pub enum ParseErrorView {
    MalformedLine,
    UnknownSessionType(Seq<char>),
}

impl View for ParseError {
    type V = ParseErrorView;

    open spec fn view(&self) -> ParseErrorView {
        match self {
            ParseError::MalformedLine => ParseErrorView::MalformedLine,
            ParseError::UnknownSessionType(word) => ParseErrorView::UnknownSessionType(word@),
        }
    }
}

impl ParseErrorView {
    /// What went wrong, for people.
    pub open spec fn message(self) -> Seq<char> {
        match self {
            ParseErrorView::MalformedLine =>
                "Unable to read session line, it should have only 2 parts between a ;"@,
            ParseErrorView::UnknownSessionType(word) =>
                "Unable to read session line, unknown session type: "@ + word,
        }
    }
}

impl ParseError {
    /// What went wrong, for people.
    pub fn to_string(&self) -> (message: String)
        ensures
            message@ == self@.message(),
    {
        match self {
            ParseError::MalformedLine => String::from_str(
                "Unable to read session line, it should have only 2 parts between a ;",
            ),
            ParseError::UnknownSessionType(word) => String::from_str(
                "Unable to read session line, unknown session type: ",
            ).concat(word.as_str()),
        }
    }
}

/// The two fields of a session line.
#[derive(Debug, PartialEq)]
pub struct SessionLineContent {
    pub label: String,
    pub session_type: SessionType,
}

/// The mathematical value of a [`SessionLineContent`].
pub struct SessionLineContentView {
    pub label: Seq<char>,
    pub session_type: SessionType,
}

impl View for SessionLineContent {
    type V = SessionLineContentView;

    open spec fn view(&self) -> SessionLineContentView {
        SessionLineContentView { label: self.label@, session_type: self.session_type }
    }
}

/// Whether `line` holds a separator at `i`.
pub open spec fn is_separator(line: Seq<char>, i: int) -> bool {
    0 <= i < line.len() && line[i] == SEPARATOR
}

/// Whether the separator at `i` is the only one in `line`.
pub open spec fn sole_separator(line: Seq<char>, i: int) -> bool {
    is_separator(line, i) && forall|j: int| is_separator(line, j) ==> j == i
}

/// What the two fields of a line mean: the first names the kind, the second
/// is the label as it stands.
pub open spec fn read_fields(kind: Seq<char>, label: Seq<char>) -> Result<
    SessionLineContentView,
    ParseErrorView,
> {
    match session_type_of(kind) {
        Some(session_type) => Ok(SessionLineContentView { label, session_type }),
        None => Err(ParseErrorView::UnknownSessionType(kind)),
    }
}

/// What a line means. A line with no separator, or with more than one, is
/// malformed; otherwise the separator parts the kind from the label.
pub open spec fn parse_line_spec(line: Seq<char>) -> Result<
    SessionLineContentView,
    ParseErrorView,
> {
    if exists|i: int| sole_separator(line, i) {
        let i = choose|i: int| sole_separator(line, i);
        read_fields(line.subrange(0, i), line.subrange(i + 1, line.len() as int))
    } else {
        Err(ParseErrorView::MalformedLine)
    }
}

/// The meaning of a line whose only separator is known to stand at `i`.
pub proof fn lemma_parse_line_at(line: Seq<char>, i: int)
    requires
        sole_separator(line, i),
    ensures
        parse_line_spec(line) == read_fields(
            line.subrange(0, i),
            line.subrange(i + 1, line.len() as int),
        ),
{
    let k = choose|k: int| sole_separator(line, k);
    assert(is_separator(line, i));
    assert(k == i);
}

/// A line with two separators is malformed.
pub proof fn lemma_parse_line_two_separators(line: Seq<char>, i: int, j: int)
    requires
        is_separator(line, i),
        is_separator(line, j),
        i != j,
    ensures
        parse_line_spec(line) == Err::<SessionLineContentView, ParseErrorView>(
            ParseErrorView::MalformedLine,
        ),
{
}

/// A line without a separator is malformed.
pub proof fn lemma_parse_line_no_separator(line: Seq<char>)
    requires
        forall|i: int| !is_separator(line, i),
    ensures
        parse_line_spec(line) == Err::<SessionLineContentView, ParseErrorView>(
            ParseErrorView::MalformedLine,
        ),
{
}

/// Reads a session line.
///
/// Succeeds exactly on a line with one separator whose first field names a
/// kind of session; the label is the second field, unchanged.
pub fn parse_line(line: String) -> (res: Result<SessionLineContent, ParseError>)
    ensures
        match res {
            Ok(content) => parse_line_spec(line@) == Ok::<SessionLineContentView, ParseErrorView>(
                content@,
            ),
            Err(error) => parse_line_spec(line@) == Err::<SessionLineContentView, ParseErrorView>(
                error@,
            ),
        },
{
    let chars = chars_of(line.as_str());
    let n = chars.len();
    let mut first: usize = n;
    let mut i: usize = 0;
    while i < n
        invariant
            i <= n,
            n == chars@.len(),
            chars@ == line@,
            first <= n,
            first == n ==> forall|k: int| 0 <= k < i ==> !is_separator(line@, k),
            first < n ==> first < i && is_separator(line@, first as int) && forall|k: int|
                0 <= k < i && is_separator(line@, k) ==> k == first,
        decreases n - i,
    {
        if chars[i] == ';' {
            if first < n {
                proof {
                    lemma_parse_line_two_separators(line@, first as int, i as int);
                }
                return Err(ParseError::MalformedLine);
            }
            first = i;
        }
        i = i + 1;
    }
    if first == n {
        proof {
            lemma_parse_line_no_separator(line@);
        }
        return Err(ParseError::MalformedLine);
    }
    proof {
        lemma_parse_line_at(line@, first as int);
    }
    let text = line.as_str();
    match kind_of(&chars, 0, first) {
        Some(session_type) => Ok(
            SessionLineContent {
                label: text.substring_char(first + 1, n).to_owned(),
                session_type,
            },
        ),
        None => Err(ParseError::UnknownSessionType(text.substring_char(0, first).to_owned())),
    }
}

/// The line that stands for a kind and a label: the kind's word, the
/// separator, the label.
pub open spec fn session_line_spec(session_type: SessionType, label: Seq<char>) -> Seq<char> {
    session_type.name() + seq![SEPARATOR] + label
}

/// The line that stands for a kind and a label.
pub fn session_line(session_type: SessionType, label: &str) -> (line: String)
    ensures
        line@ == session_line_spec(session_type, label@),
{
    proof {
        reveal_strlit(";");
    }
    assert(";"@ =~= seq![SEPARATOR]);
    session_type.to_string().concat(";").concat(label)
}

/// Reading is the inverse of writing: the line written for a kind and a
/// label without separator reads back as that kind and that label.
pub proof fn lemma_parse_session_line(session_type: SessionType, label: Seq<char>)
    requires
        forall|i: int| 0 <= i < label.len() ==> label[i] != SEPARATOR,
    ensures
        parse_line_spec(session_line_spec(session_type, label)) == Ok::<
            SessionLineContentView,
            ParseErrorView,
        >(SessionLineContentView { label, session_type }),
{
    reveal_strlit("focus");
    reveal_strlit("shortbreak");
    reveal_strlit("longbreak");
    let name = session_type.name();
    let line = session_line_spec(session_type, label);
    let at = name.len() as int;
    assert(forall|j: int| 0 <= j < name.len() ==> name[j] != SEPARATOR);
    assert(sole_separator(line, at));
    lemma_parse_line_at(line, at);
    assert(line.subrange(0, at) =~= name);
    assert(line.subrange(at + 1, line.len() as int) =~= label);
    assert(lowercase(name) =~= name);
}

} // verus!
