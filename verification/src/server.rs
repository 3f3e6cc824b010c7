//! What the server does when it shuts down.

use vstd::prelude::*;
use vstd::string::*;
use crate::text::{join2, same_text};

verus! {

/// Whether a file offered for download is removed at shut-down: only when
/// the offered files are archives made for the transfer, and then only a
/// regular file with the extension `zip` that exists and lies below the
/// working directory.
pub open spec fn removable_archive(
    zip: bool,
    extension: Option<Seq<char>>,
    exists: bool,
    below_cwd: bool,
    is_file: bool,
) -> bool {
    zip && extension == Some("zip"@) && exists && below_cwd && is_file
}

/// Decides whether an offered file is removed at shut-down.
pub fn should_remove_archive(
    zip: bool,
    extension: Option<&str>,
    exists: bool,
    below_cwd: bool,
    is_file: bool,
) -> (r: bool)
    ensures
        r == removable_archive(
            zip,
            match extension {
                Some(e) => Some(e@),
                None => None,
            },
            exists,
            below_cwd,
            is_file,
        ),
{
    if !zip {
        return false;
    }
    match extension {
        None => false,
        Some(ext) => exists && below_cwd && is_file && same_text(ext, "zip"),
    }
}

/// The line printed after removing a file.
pub fn removal_notice(path: &str) -> (m: String)
    ensures
        m@ == "Successfully removed "@ + path@,
{
    join2("Successfully removed ", path)
}

} // verus!
