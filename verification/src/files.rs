//! Names of files on disk: received files that would overwrite an existing
//! one, ZIP archives and their entries, and the walk through a directory
//! that is put into an archive.

use vstd::prelude::*;
use vstd::string::*;
use crate::config::texts_of;
use crate::paths::{file_name_of, join_path, path_file_name, path_join, path_with_file_name, with_file_name};
use crate::text::{is_digit, is_prefix, join2, starts_with};

verus! {

/// Whether `c` may appear in a time stamp: a digit, a year's sign, or one
/// of the separators.
pub open spec fn is_stamp_char(c: char) -> bool {
    is_digit(c) || c == '-' || c == '+' || c == ' ' || c == ':'
}

/// Whether `s` has the shape `DD-MM-YYYY HH:MM:SS`, where the year has at
/// least four digits and may carry a sign.
pub open spec fn is_time_stamp(s: Seq<char>) -> bool {
    let n = s.len() as int;
    &&& n >= 19
    &&& is_digit(s[0]) && is_digit(s[1]) && s[2] == '-'
    &&& is_digit(s[3]) && is_digit(s[4]) && s[5] == '-'
    &&& s[n - 9] == ' '
    &&& is_digit(s[n - 8]) && is_digit(s[n - 7]) && s[n - 6] == ':'
    &&& is_digit(s[n - 5]) && is_digit(s[n - 4]) && s[n - 3] == ':'
    &&& is_digit(s[n - 2]) && is_digit(s[n - 1])
    &&& forall|i: int| 0 <= i < n ==> is_stamp_char(#[trigger] s[i])
}

/// The current local time, from `chrono::Local::now()` written with the
/// format `%d-%m-%Y %H:%M:%S`. Which time it is depends on the clock and the
/// time zone; the contract claims only the shape that chrono's formatting
/// gives every time: two-digit day, month, hours, minutes and seconds, and a
/// year of at least four digits, signed outside 0 to 9999.
#[verifier::external_body]
fn local_timestamp() -> (now: String)
    ensures
        is_time_stamp(now@),
{
    chrono::Local::now().format("%d-%m-%Y %H:%M:%S").to_string()
}

/// The name a received file gets when its name is already taken: the time
/// stamp `now`, a dash, and the name it had; `uploaded file` when the
/// destination has no file name.
pub open spec fn renamed_file_name_spec(file_name: Option<Seq<char>>, now: Seq<char>) -> Seq<char> {
    match file_name {
        Some(f) => now + " - "@ + f,
        None => "uploaded file"@,
    }
}

/// A taken name is renamed to the stamp, ` - `, and the name, for every name
/// and stamp: the new name ends with the old one and is longer than it, so a
/// taken name is never kept.
pub proof fn lemma_renamed_file_name(f: Seq<char>, now: Seq<char>)
    ensures
        renamed_file_name_spec(Some(f), now) == now + " - "@ + f,
        renamed_file_name_spec(Some(f), now).len() == now.len() + 3 + f.len(),
        renamed_file_name_spec(Some(f), now) != f,
        renamed_file_name_spec(Some(f), now).skip(now.len() as int + 3) == f,
        renamed_file_name_spec(None, now) == "uploaded file"@,
{
    reveal_strlit(" - ");
    let r = now + " - "@ + f;
    assert(r.len() == f.len() + now.len() + 3);
    assert(r.skip(now.len() as int + 3) =~= f);
}

/// The new name for a destination whose name is taken, stamped with `now`.
pub fn renamed_file_name(file_name: Option<String>, now: &str) -> (r: String)
    ensures
        r@ == renamed_file_name_spec(
            match file_name {
                Some(f) => Some(f@),
                None => None,
            },
            now@,
        ),
        file_name matches Some(f) ==> r@ == now@ + " - "@ + f@,
        file_name is None ==> r@ == "uploaded file"@,
{
    match file_name {
        Some(f) => {
            let mut r = join2(now, " - ");
            r.append(f.as_str());
            r
        },
        None => String::from_str("uploaded file"),
    }
}

/// Where a received file named `file_name` goes before any renaming: the
/// destination directory, or the working directory `cwd` when none was
/// given, joined with the name. A name that is absolute, or climbs with
/// `..`, leads outside that directory, as the standard library's join does.
pub fn destination_candidate(destination_dir: &Option<String>, cwd: &str, file_name: &str) -> (p: String)
    ensures
        p@ == path_join(
            match destination_dir {
                Some(d) => d@,
                None => cwd@,
            },
            file_name@,
        ),
{
    match destination_dir {
        Some(dir) => join_path(dir.as_str(), file_name),
        None => join_path(cwd, file_name),
    }
}

/// The path a received file is written to: `candidate` when nothing is
/// there, otherwise `candidate` with its file name replaced by the name
/// stamped with `now`.
pub fn destination_path(candidate: &str, taken: bool, now: &str) -> (p: String)
    ensures
        !taken ==> p@ == candidate@,
        taken ==> p@ == path_with_file_name(
            candidate@,
            renamed_file_name_spec(path_file_name(candidate@), now@),
        ),
        path_file_name(candidate@) matches Some(f) ==> (taken ==> p@ == path_with_file_name(
            candidate@,
            now@ + " - "@ + f,
        )),
        taken && path_file_name(candidate@) is None ==> p@ == path_with_file_name(
            candidate@,
            "uploaded file"@,
        ),
{
    if !taken {
        return String::from_str(candidate);
    }
    let name = file_name_of(candidate);
    let renamed = renamed_file_name(name, now);
    with_file_name(candidate, renamed.as_str())
}

/// The path a received file is written to, stamped with the current local
/// time when `taken` says that something is already at `candidate`.
pub fn set_available_filename(candidate: &str, taken: bool) -> (p: String)
    ensures
        !taken ==> p@ == candidate@,
        taken ==> exists|now: Seq<char>|
            #![trigger renamed_file_name_spec(path_file_name(candidate@), now)]
            is_time_stamp(now) && p@ == path_with_file_name(
                candidate@,
                renamed_file_name_spec(path_file_name(candidate@), now),
            ),
{
    if !taken {
        return String::from_str(candidate);
    }
    let now = local_timestamp();
    destination_path(candidate, taken, now.as_str())
}

/// The path of the archive made for a file: its name followed by `.zip`.
pub fn archive_file_name(file_name: &str) -> (r: String)
    ensures
        r@ == file_name@ + ".zip"@,
{
    join2(file_name, ".zip")
}

/// Why a file cannot be put into an archive.
pub enum ArchiveError {
    /// The path has no file name (it ends in `..`).
    NoFileName,
    /// The path is not valid UTF-8.
    InputNotUtf8,
    /// A path found in the directory is not valid UTF-8.
    EntryNotUtf8,
    /// A path found in the directory is not below the directory.
    EntryOutsideDirectory,
}

impl ArchiveError {
    /// The message reported for the error.
    pub fn message(&self) -> (m: String)
        ensures
            m@ == match self {
                ArchiveError::NoFileName => "Input path terminates in '...'."@,
                ArchiveError::InputNotUtf8 => "Input path not valid UTF-8."@,
                ArchiveError::EntryNotUtf8 => "Directory file path not valid UTF-8."@,
                ArchiveError::EntryOutsideDirectory =>
                    "Directory file path does not start with base input directory path."@,
            },
    {
        match self {
            ArchiveError::NoFileName => String::from_str("Input path terminates in '...'."),
            ArchiveError::InputNotUtf8 => String::from_str("Input path not valid UTF-8."),
            ArchiveError::EntryNotUtf8 => String::from_str("Directory file path not valid UTF-8."),
            ArchiveError::EntryOutsideDirectory => String::from_str(
                "Directory file path does not start with base input directory path.",
            ),
        }
    }
}

/// The name under which a file found in directory `base` is stored in the
/// archive: its path with `base` and the separator after it taken off. A
/// path that does not start with `base` is refused.
pub fn archive_entry_name(entry: &str, base: &str) -> (res: Result<String, ArchiveError>)
    requires
        is_prefix(base@, entry@) ==> entry@.len() > base@.len() && (entry@[base@.len() as int] as u32)
            < 128,
    ensures
        !is_prefix(base@, entry@) ==> res matches Err(ArchiveError::EntryOutsideDirectory),
        is_prefix(base@, entry@) ==> (res matches Ok(name) && name@ == entry@.skip(base@.len() as int + 1)),
        res matches Ok(name) ==> entry@ == base@ + seq![entry@[base@.len() as int]] + name@,
{
    if !starts_with(entry, base) {
        return Err(ArchiveError::EntryOutsideDirectory);
    }
    let n = entry.unicode_len();
    let m = base.unicode_len();
    let name = entry.substring_char(m + 1, n);
    proof {
        assert(entry@ =~= base@ + seq![entry@[base@.len() as int]] + name@) by {
            assert(entry@.subrange(0, base@.len() as int) == base@);
        }
    }
    Ok(String::from_str(name))
}

/// The walk through a directory tree whose files go into an archive:
/// directories wait in a queue and are read in the order they were found,
/// and every other entry is collected as a file.
pub struct DirWalk {
    pending: Vec<String>,
    files: Vec<String>,
}

impl DirWalk {
    /// The directories found and not yet read, first found first.
    pub closed spec fn pending(&self) -> Seq<Seq<char>> {
        texts_of(self.pending@)
    }

    /// The files found so far, in the order they were found.
    pub closed spec fn files(&self) -> Seq<Seq<char>> {
        texts_of(self.files@)
    }

    /// A walk that starts at directory `root`.
    pub fn new(root: String) -> (w: DirWalk)
        ensures
            w.pending() == seq![root@],
            w.files() == Seq::<Seq<char>>::empty(),
    {
        let mut pending = Vec::new();
        pending.push(root);
        let w = DirWalk { pending, files: Vec::new() };
        assert(w.pending() =~= seq![root@]);
        assert(w.files() =~= Seq::<Seq<char>>::empty());
        w
    }

    /// The next directory to read, taken off the queue; `None` when the
    /// walk is over.
    pub fn next_dir(&mut self) -> (d: Option<String>)
        ensures
            old(self).pending().len() == 0 ==> d is None && final(self).pending() == old(self).pending(),
            old(self).pending().len() > 0 ==> (d matches Some(dir) && dir@ == old(self).pending()[0])
                && final(self).pending() == old(self).pending().drop_first(),
            final(self).files() == old(self).files(),
    {
        if self.pending.len() == 0 {
            return None;
        }
        let ghost before = self.pending@;
        let d = self.pending.remove(0);
        assert(texts_of(self.pending@) =~= texts_of(before).drop_first());
        Some(d)
    }

    /// Records an entry read from a directory: a directory joins the end of
    /// the queue, anything else is a file.
    pub fn record_entry(&mut self, path: String, is_dir: bool)
        ensures
            is_dir ==> final(self).pending() == old(self).pending().push(path@) && final(self).files()
                == old(self).files(),
            !is_dir ==> final(self).files() == old(self).files().push(path@) && final(self).pending()
                == old(self).pending(),
    {
        if is_dir {
            self.pending.push(path);
            assert(texts_of(self.pending@) =~= old(self).pending().push(path@));
        } else {
            self.files.push(path);
            assert(texts_of(self.files@) =~= old(self).files().push(path@));
        }
    }

    /// The files found, in the order they were found.
    pub fn into_files(self) -> (files: Vec<String>)
        ensures
            texts_of(files@) == self.files(),
    {
        self.files
    }
}

} // verus!
