//! The two commands of the program: offering a file for download and
//! receiving files, and what each changes in the configuration.

use vstd::prelude::*;
use vstd::string::*;
use crate::config::GlobalConfig;
use crate::files::archive_file_name;
use crate::paths::{file_name_of, path_file_name};
use crate::text::{is_prefix, join2};

verus! {

/// What the user asked the program to do.
pub enum Commands {
    /// Send a file or directory.
    Send {
        /// Path to a file (or directory if using `--zip`).
        path: String,
        /// ZIP the file or directory before transferring.
        zip: bool,
    },
    /// Receive files.
    Receive {
        /// Destination directory.
        dest_dir: Option<String>,
        /// Do not open the received file with the system's default program.
        no_open: bool,
    },
}

/// Why a command cannot run.
pub enum CliError {
    /// The path to send does not exist.
    PathMissing { path: String },
    /// A directory can only be sent as a ZIP archive.
    DirectoryWithoutZip,
    /// The destination directory does not exist.
    DestinationMissing { path: String },
    /// The path to archive has no file name to name the archive after.
    NoArchiveName { path: String },
}

impl CliError {
    /// The message printed before the program stops.
    pub fn message(&self) -> (m: String)
        ensures
            match self {
                CliError::PathMissing { path } => m@ == "Path "@ + path@ + " does not exist on disk"@,
                CliError::DirectoryWithoutZip => m@
                    == "Unable to send a directory without creating a zip. Tip: use --zip"@,
                CliError::DestinationMissing { path } => m@
                    == "Destination directory must exist but "@ + path@ + " does not exist"@,
                CliError::NoArchiveName { path } => m@ == "Input path terminates in '...'."@,
            },
    {
        match self {
            CliError::PathMissing { path } => {
                let mut m = join2("Path ", path.as_str());
                m.append(" does not exist on disk");
                m
            },
            CliError::DirectoryWithoutZip => String::from_str(
                "Unable to send a directory without creating a zip. Tip: use --zip",
            ),
            CliError::DestinationMissing { path } => {
                let mut m = join2("Destination directory must exist but ", path.as_str());
                m.append(" does not exist");
                m
            },
            CliError::NoArchiveName { .. } => String::from_str("Input path terminates in '...'."),
        }
    }
}

/// Whether `c` is a lowercase hexadecimal digit.
pub open spec fn is_lower_hex(c: char) -> bool {
    ('0' <= c && c <= '9') || ('a' <= c && c <= 'f')
}

/// Whether `s` has the shape of a random (version 4) UUID in hyphenated
/// lowercase form, such as `67e55044-10b1-426f-9247-bb680e5fe0c8`.
pub open spec fn is_upload_id(s: Seq<char>) -> bool {
    &&& s.len() == 36
    &&& forall|i: int|
        0 <= i < 36 ==> if i == 8 || i == 13 || i == 18 || i == 23 {
            #[trigger] s[i] == '-'
        } else {
            is_lower_hex(s[i])
        }
    &&& s[14] == '4'
    &&& (s[19] == '8' || s[19] == '9' || s[19] == 'a' || s[19] == 'b')
}

/// A fresh identifier for a file offered for download: `uuid::Uuid::new_v4()`
/// written with `to_string`. The identifier is random; the contract claims
/// only its shape, which the crate's source gives every such UUID: hyphenated
/// lowercase hexadecimal, version digit `4`, variant digit `8`, `9`, `a` or `b`.
#[verifier::external_body]
fn new_upload_id() -> (id: String)
    ensures
        is_upload_id(id@),
{
    uuid::Uuid::new_v4().to_string()
}

/// The route under which the file with identifier `id` is downloaded.
pub open spec fn download_route(id: Seq<char>) -> Seq<char> {
    "/download/"@ + id
}

/// The route of the upload form.
pub open spec fn receive_route() -> Seq<char> {
    "/receive"@
}

/// The identifier that a request for `route` asks for: the one path segment
/// after `/download/`, if the route has that form.
pub open spec fn route_file_id(route: Seq<char>) -> Option<Seq<char>> {
    let prefix = "/download/"@;
    if is_prefix(prefix, route) && route.len() > prefix.len() && !route.skip(
        prefix.len() as int,
    ).contains('/') {
        Some(route.skip(prefix.len() as int))
    } else {
        None
    }
}

/// A download route names back the identifier it was made from, when the
/// identifier is one non-empty path segment (as every UUID is).
pub proof fn lemma_route_names_id(id: Seq<char>)
    requires
        id.len() > 0,
        !id.contains('/'),
    ensures
        route_file_id(download_route(id)) == Some(id),
{
    reveal_strlit("/download/");
    let route = download_route(id);
    assert(route.subrange(0, 10) =~= "/download/"@);
    assert(route.skip(10) =~= id);
}

/// An upload identifier is one non-empty path segment.
pub proof fn lemma_upload_id_is_segment(id: Seq<char>)
    requires
        is_upload_id(id),
    ensures
        id.len() > 0,
        !id.contains('/'),
{
    if id.contains('/') {
        let i = choose|i: int| 0 <= i < id.len() && id[i] == '/';
        assert(id[i] == '/');
    }
}

/// The file that is served for `path`: the path itself, or, when it is sent
/// as a ZIP archive, the archive named after its file name with `.zip`
/// added, in the working directory; `None` when an archive is asked for and
/// the path has no file name.
pub open spec fn served_path(path: Seq<char>, zip: bool) -> Option<Seq<char>> {
    if !zip {
        Some(path)
    } else {
        match path_file_name(path) {
            Some(name) => Some(name + ".zip"@),
            None => None,
        }
    }
}

/// Sent as it is, a path is served under its own name; sent as a ZIP
/// archive, what is served is its file name with `.zip` added, for every
/// file name, and a path without a file name cannot be sent so.
pub proof fn lemma_served_path(path: Seq<char>)
    ensures
        served_path(path, false) == Some(path),
        path_file_name(path) matches Some(n) ==> served_path(path, true) == Some(n + ".zip"@),
        path_file_name(path) matches Some(n) ==> served_path(path, true)->0.len() == n.len() + 4,
        path_file_name(path) is None ==> served_path(path, true) is None,
{
    reveal_strlit(".zip");
}

/// The file that is served for `path`.
pub fn served_file(path: &str, zip: bool) -> (r: Option<String>)
    ensures
        match r {
            Some(p) => served_path(path@, zip) == Some(p@),
            None => served_path(path@, zip) is None,
        },
        !zip ==> (r matches Some(p) && p@ == path@),
        path_file_name(path@) matches Some(n) ==> (zip ==> (r matches Some(p) && p@ == n + ".zip"@)),
        zip && path_file_name(path@) is None ==> r is None,
{
    if !zip {
        return Some(String::from_str(path));
    }
    match file_name_of(path) {
        Some(name) => Some(archive_file_name(name.as_str())),
        None => None,
    }
}

/// A file offered with `send` is the one its link downloads: the link's
/// route names the identifier under which the file was entered in the table,
/// the table gives back that file for it, and every other identifier keeps
/// the file it had.
pub proof fn lemma_sent_file_is_served(
    before: Map<Seq<char>, Seq<char>>,
    id: Seq<char>,
    path: Seq<char>,
    other: Seq<char>,
)
    requires
        is_upload_id(id),
    ensures
        route_file_id(download_route(id)) == Some(id),
        before.insert(id, path).contains_key(id),
        before.insert(id, path)[id] == path,
        other != id ==> (before.insert(id, path).contains_key(other) == before.contains_key(other)),
        other != id && before.contains_key(other) ==> before.insert(id, path)[other] == before[other],
{
    lemma_upload_id_is_segment(id);
    lemma_route_names_id(id);
}

/// Offers the file at `path` under the identifier `id` and returns the route
/// that downloads it; with `zip`, what is offered is the ZIP archive to be
/// made of `path` (see `served_path`). `path_exists` and `path_is_dir` tell
/// what is on disk at `path`. A missing path, a directory sent without
/// `zip`, or an archive that cannot be named is refused and the
/// configuration is left as it was.
pub fn send_with_id(
    config: &mut GlobalConfig,
    path: String,
    zip: bool,
    path_exists: bool,
    path_is_dir: bool,
    id: String,
) -> (res: Result<String, CliError>)
    ensures
        !path_exists ==> (res matches Err(CliError::PathMissing { path: p }) && p@ == path@),
        path_exists && path_is_dir && !zip ==> res matches Err(CliError::DirectoryWithoutZip),
        path_exists && zip && served_path(path@, zip) is None ==> (res matches Err(
            CliError::NoArchiveName { path: p },
        ) && p@ == path@),
        res is Err ==> *final(config) == *old(config),
        path_exists && !(path_is_dir && !zip) && served_path(path@, zip) is Some ==> res is Ok,
        res matches Ok(route) ==> {
            &&& route@ == download_route(id@)
            &&& final(config).uuid_path_map@ == old(config).uuid_path_map@.insert(
                id@,
                served_path(path@, zip)->0,
            )
            &&& final(config).zip == zip
            &&& final(config).destination_dir == old(config).destination_dir
            &&& final(config).auto_open == old(config).auto_open
            &&& final(config).socket_addr == old(config).socket_addr
            &&& (id@.len() > 0 && !id@.contains('/') ==> route_file_id(route@) == Some(id@))
        },
{
    if !path_exists {
        return Err(CliError::PathMissing { path });
    }
    if path_is_dir && !zip {
        return Err(CliError::DirectoryWithoutZip);
    }
    let served = match served_file(path.as_str(), zip) {
        Some(served) => served,
        None => return Err(CliError::NoArchiveName { path }),
    };
    let route = join2("/download/", id.as_str());
    config.uuid_path_map.insert(id, served);
    config.zip = zip;
    proof {
        if id@.len() > 0 && !id@.contains('/') {
            lemma_route_names_id(id@);
        }
    }
    Ok(route)
}

/// Offers the file at `path` for download under a fresh random identifier
/// and returns the route that downloads it, as `sf send` does.
pub fn send(config: &mut GlobalConfig, path: String, zip: bool, path_exists: bool, path_is_dir: bool) -> (res:
    Result<String, CliError>)
    ensures
        !path_exists ==> (res matches Err(CliError::PathMissing { path: p }) && p@ == path@),
        path_exists && path_is_dir && !zip ==> res matches Err(CliError::DirectoryWithoutZip),
        path_exists && zip && served_path(path@, zip) is None ==> (res matches Err(
            CliError::NoArchiveName { path: p },
        ) && p@ == path@),
        res is Err ==> *final(config) == *old(config),
        path_exists && !(path_is_dir && !zip) && served_path(path@, zip) is Some ==> res is Ok,
        res matches Ok(route) ==> exists|id: Seq<char>| {
            &&& is_upload_id(id)
            &&& route@ == download_route(id)
            &&& route_file_id(route@) == Some(id)
            &&& #[trigger] final(config).uuid_path_map@ == old(config).uuid_path_map@.insert(
                id,
                served_path(path@, zip)->0,
            )
        },
        res is Ok ==> {
            &&& final(config).zip == zip
            &&& final(config).destination_dir == old(config).destination_dir
            &&& final(config).auto_open == old(config).auto_open
            &&& final(config).socket_addr == old(config).socket_addr
        },
{
    let id = new_upload_id();
    proof {
        lemma_upload_id_is_segment(id@);
    }
    send_with_id(config, path, zip, path_exists, path_is_dir, id)
}

/// Sets the configuration up for receiving files and returns the route of
/// the upload form, as `sf receive` does. `dest_is_dir` tells whether
/// `dest_dir`, when given, is an existing directory; a missing destination
/// is refused and the configuration is left as it was.
pub fn receive(config: &mut GlobalConfig, dest_dir: Option<String>, dest_is_dir: bool, no_open: bool) -> (res:
    Result<String, CliError>)
    ensures
        dest_dir is Some && !dest_is_dir ==> (res matches Err(CliError::DestinationMissing { path: p })
            && p@ == dest_dir->0@),
        res is Err ==> *final(config) == *old(config),
        (dest_dir is None || dest_is_dir) ==> res is Ok,
        res matches Ok(route) ==> {
            &&& route@ == receive_route()
            &&& final(config).auto_open == !no_open
            &&& final(config).destination_dir == if dest_dir is Some {
                dest_dir
            } else {
                old(config).destination_dir
            }
            &&& final(config).uuid_path_map == old(config).uuid_path_map
            &&& final(config).zip == old(config).zip
            &&& final(config).socket_addr == old(config).socket_addr
        },
{
    match dest_dir {
        Some(path) => {
            if !dest_is_dir {
                return Err(CliError::DestinationMissing { path });
            }
            config.destination_dir = Some(path);
        },
        None => {},
    }
    config.auto_open = !no_open;
    Ok(String::from_str("/receive"))
}

/// Carries out a command on the configuration and returns the route that
/// the QR code points to. `path_exists` and `path_is_dir` describe what is
/// on disk at the command's path: the file to send, or the destination
/// directory.
pub fn apply_command(
    config: &mut GlobalConfig,
    command: Commands,
    path_exists: bool,
    path_is_dir: bool,
) -> (res: Result<String, CliError>)
    ensures
        res is Err ==> *final(config) == *old(config),
        match command {
            Commands::Send { path, zip } => {
                &&& (path_exists && !(path_is_dir && !zip) && served_path(path@, zip) is Some <==> res is Ok)
                &&& !path_exists ==> (res matches Err(CliError::PathMissing { path: p }) && p@ == path@)
                &&& path_exists && path_is_dir && !zip ==> (res matches Err(CliError::DirectoryWithoutZip))
                &&& path_exists && zip && served_path(path@, zip) is None ==> (res matches Err(
                    CliError::NoArchiveName { path: p },
                ) && p@ == path@)
                &&& (res matches Ok(route) ==> exists|id: Seq<char>| {
                    &&& is_upload_id(id)
                    &&& route@ == download_route(id)
                    &&& route_file_id(route@) == Some(id)
                    &&& #[trigger] final(config).uuid_path_map@ == old(config).uuid_path_map@.insert(
                        id,
                        served_path(path@, zip)->0,
                    )
                })
                &&& res is Ok ==> {
                    &&& final(config).zip == zip
                    &&& final(config).destination_dir == old(config).destination_dir
                    &&& final(config).auto_open == old(config).auto_open
                    &&& final(config).socket_addr == old(config).socket_addr
                }
            },
            Commands::Receive { dest_dir, no_open } => {
                &&& ((dest_dir is None || path_is_dir) <==> res is Ok)
                &&& dest_dir is Some && !path_is_dir ==> (res matches Err(
                    CliError::DestinationMissing { path: p },
                ) && p@ == dest_dir->0@)
                &&& (res matches Ok(route) ==> {
                    &&& route@ == receive_route()
                    &&& final(config).auto_open == !no_open
                    &&& final(config).destination_dir == if dest_dir is Some {
                        dest_dir
                    } else {
                        old(config).destination_dir
                    }
                    &&& final(config).uuid_path_map == old(config).uuid_path_map
                    &&& final(config).zip == old(config).zip
                    &&& final(config).socket_addr == old(config).socket_addr
                })
            },
        },
{
    match command {
        Commands::Send { path, zip } => send(config, path, zip, path_exists, path_is_dir),
        Commands::Receive { dest_dir, no_open } => receive(config, dest_dir, path_is_dir, no_open),
    }
}

} // verus!
