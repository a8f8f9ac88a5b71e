//! File-system paths. The library holds a path as text, never looks into
//! it, and leaves joining to the standard library.

use std::path::Path;
use vstd::prelude::*;
use vstd::string::StringExecFns;

verus! {

/// The text of the path that `Path::join` builds from a base and a further
/// piece, both given as text.
pub uninterp spec fn path_join(base: Seq<char>, piece: Seq<char>) -> Seq<char>;

/// `Path::join` on two texts. The result is a function of the two texts
/// alone, for one and the same platform, and is named [`path_join`].
#[verifier::external_body]
pub(crate) fn join_path(base: &str, piece: &str) -> (path: String)
    ensures
        path@ == path_join(base@, piece@),
{
    Path::new(base).join(piece).to_string_lossy().into_owned()
}

/// `dirs::cache_dir`: the user's cache directory, if the environment names
/// one. Nothing is claimed of the answer.
#[verifier::external_body]
pub(crate) fn user_cache_dir() -> (dir: Option<String>) {
    dirs::cache_dir().map(|dir| dir.to_string_lossy().into_owned())
}

/// Where the session file lives for a given cache directory: a file named
/// `pomodorolm_session` inside it, or a fixed fallback when there is none.
pub open spec fn session_file_in(cache_dir: Option<Seq<char>>) -> Seq<char> {
    match cache_dir {
        Some(dir) => path_join(dir, "pomodorolm_session"@),
        None => "~/.cache/pomodorolm_session"@,
    }
}

/// The view of a cache directory that may be missing.
pub open spec fn dir_view(cache_dir: Option<String>) -> Option<Seq<char>> {
    match cache_dir {
        Some(dir) => Some(dir@),
        None => None,
    }
}

/// The session file for a cache directory that the caller has looked up.
pub fn session_file_for(cache_dir: Option<String>) -> (path: String)
    ensures
        path@ == session_file_in(dir_view(cache_dir)),
{
    match cache_dir {
        Some(dir) => join_path(dir.as_str(), "pomodorolm_session"),
        None => String::from_str("~/.cache/pomodorolm_session"),
    }
}

/// The default location of the session file for the current user: in the
/// user's cache directory, wherever the environment puts that.
pub fn default_session_file() -> (path: String)
    ensures
        exists|cache_dir: Option<Seq<char>>| path@ == session_file_in(cache_dir),
{
    let dir = user_cache_dir();
    let path = session_file_for(dir);
    assert(path@ == session_file_in(dir_view(dir)));
    path
}

} // verus!
