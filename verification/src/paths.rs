//! File-system paths, handled as text by the standard library's `Path`.
//!
//! A path's meaning follows the platform the program is built for (on Unix
//! `/` separates the components); each name below stands for what the
//! standard library computes on that platform, from its arguments alone.

use vstd::prelude::*;

verus! {

/// The path `dir` with `name` appended, as `Path::join` computes it (an
/// absolute `name` replaces `dir`).
pub uninterp spec fn path_join(dir: Seq<char>, name: Seq<char>) -> Seq<char>;

/// The last component of `path`, as `Path::file_name` computes it; `None`
/// when the path ends in `..` or has no component.
pub uninterp spec fn path_file_name(path: Seq<char>) -> Option<Seq<char>>;

/// The path `path` with its last component replaced by `name`, as
/// `PathBuf::set_file_name` computes it.
pub uninterp spec fn path_with_file_name(path: Seq<char>, name: Seq<char>) -> Seq<char>;

/// Joins two paths with `Path::join`; the result is read back as text,
/// which loses nothing since both parts are text.
#[verifier::external_body]
pub(crate) fn join_path(dir: &str, name: &str) -> (p: String)
    ensures
        p@ == path_join(dir@, name@),
{
    std::path::Path::new(dir).join(name).to_string_lossy().into_owned()
}

/// The file name of a path, from `Path::file_name`.
#[verifier::external_body]
pub(crate) fn file_name_of(path: &str) -> (n: Option<String>)
    ensures
        match n {
            Some(s) => path_file_name(path@) == Some(s@),
            None => path_file_name(path@) is None,
        },
{
    match std::path::Path::new(path).file_name() {
        Some(name) => Some(name.to_string_lossy().into_owned()),
        None => None,
    }
}

/// The path with its file name replaced, from `PathBuf::set_file_name`.
#[verifier::external_body]
pub(crate) fn with_file_name(path: &str, name: &str) -> (p: String)
    ensures
        p@ == path_with_file_name(path@, name@),
{
    let mut buf = std::path::PathBuf::from(path);
    buf.set_file_name(name);
    buf.to_string_lossy().into_owned()
}

} // verus!
