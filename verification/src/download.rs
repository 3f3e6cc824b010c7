//! Answering a download request: which file a link names, and the headers
//! that go with it.

use vstd::prelude::*;
use vstd::string::*;
use crate::config::FileRegistry;
use crate::http::{HttpError, HttpStatus};
use crate::text::{decimal_digits, decimal_text, join2};

verus! {

/// The MIME type that `new_mime_guess` gives first for a file extension,
/// `application/octet-stream` when it knows none.
pub uninterp spec fn mime_for_extension(ext: Seq<char>) -> Seq<char>;

/// Guesses the MIME type of a file from its extension with
/// `new_mime_guess::from_ext(ext).first_or_octet_stream()`. The crate maps an
/// empty extension to no guess, hence to `application/octet-stream`.
#[verifier::external_body]
fn guess_mime(ext: &str) -> (m: String)
    ensures
        m@ == mime_for_extension(ext@),
        ext@.len() == 0 ==> m@ == "application/octet-stream"@,
{
    new_mime_guess::from_ext(ext).first_or_octet_stream().to_string()
}

/// The file offered under `file_uuid`; an unknown identifier is answered
/// with 404 `Wrong file UUID`.
pub fn find_download(registry: &FileRegistry, file_uuid: &str) -> (res: Result<String, HttpError>)
    ensures
        match res {
            Ok(path) => registry@.contains_key(file_uuid@) && path@ == registry@[file_uuid@],
            Err(e) => !registry@.contains_key(file_uuid@) && e.status == HttpStatus::NotFound
                && e.message@ == "Wrong file UUID"@,
        },
{
    match registry.get(file_uuid) {
        Some(path) => Ok(path),
        None => Err(HttpError { status: HttpStatus::NotFound, message: String::from_str("Wrong file UUID") }),
    }
}

/// The answer when the table of files cannot be read: 500, with the reason.
pub fn registry_unavailable(reason: &str) -> (e: HttpError)
    ensures
        e.status == HttpStatus::InternalServerError,
        e.message@ == "Something went wrong with getting the file path: "@ + reason@,
{
    HttpError {
        status: HttpStatus::InternalServerError,
        message: join2("Something went wrong with getting the file path: ", reason),
    }
}

/// The answer when the offered file cannot be opened: 404, with the reason.
pub fn file_not_found(reason: &str) -> (e: HttpError)
    ensures
        e.status == HttpStatus::NotFound,
        e.message@ == "File not found: "@ + reason@,
{
    HttpError { status: HttpStatus::NotFound, message: join2("File not found: ", reason) }
}

/// What is known of the file name of the offered path.
pub enum FileNameFact {
    /// The path has no file name.
    Missing,
    /// The file name is not valid UTF-8.
    NotUtf8,
    /// The file name.
    Name(String),
}

/// The headers of a download.
pub struct DownloadHeaders {
    pub content_type: String,
    pub content_disposition: String,
    pub content_length: String,
}

/// The MIME type sent with a file: `application/zip` for an archive made for
/// the transfer, otherwise the guess from the file's extension (none when
/// the extension is missing or not UTF-8).
pub open spec fn download_content_type(zip: bool, extension: Option<Seq<char>>) -> Seq<char> {
    if zip {
        "application/zip"@
    } else {
        match extension {
            Some(ext) => mime_for_extension(ext),
            None => mime_for_extension(Seq::<char>::empty()),
        }
    }
}

/// A file sent as an archive made for the transfer is labelled
/// `application/zip`; any other file gets the guess for its own extension,
/// whatever that extension is, and the guess for no extension when it has
/// none.
pub proof fn lemma_download_content_type(zip: bool, extension: Option<Seq<char>>)
    ensures
        zip ==> download_content_type(zip, extension) == "application/zip"@,
        extension matches Some(e) ==> (!zip ==> download_content_type(zip, extension)
            == mime_for_extension(e)),
        !zip && extension is None ==> download_content_type(zip, extension) == mime_for_extension(
            Seq::<char>::empty(),
        ),
{
}

/// The MIME type sent with a file.
pub fn content_type_for(zip: bool, extension: Option<String>) -> (m: String)
    ensures
        !zip && (extension is None || extension->0@.len() == 0) ==> m@ == "application/octet-stream"@,
        zip ==> m@ == "application/zip"@,
        extension matches Some(e) ==> (!zip ==> m@ == mime_for_extension(e@)),
        !zip && extension is None ==> m@ == mime_for_extension(Seq::<char>::empty()),
        m@ == download_content_type(
            zip,
            match extension {
                Some(e) => Some(e@),
                None => None,
            },
        ),
{
    if zip {
        String::from_str("application/zip")
    } else {
        match extension {
            Some(ext) => guess_mime(ext.as_str()),
            None => {
                proof {
                    reveal_strlit("");
                    assert(""@ =~= Seq::<char>::empty());
                }
                guess_mime("")
            },
        }
    }
}

/// The headers of a download, given the file's name, its MIME type and its
/// length. The name shown to the browser is the file name, `file` when the
/// name is not UTF-8; a path without a file name is answered with 500
/// `Unable to determine filename`.
pub fn download_headers_with(name: FileNameFact, content_type: String, length: u64) -> (res: Result<
    DownloadHeaders,
    HttpError,
>)
    ensures
        name is Missing ==> (res matches Err(e) && e.status == HttpStatus::InternalServerError
            && e.message@ == "Unable to determine filename"@),
        name !is Missing ==> (res matches Ok(h) && {
            &&& h.content_type@ == content_type@
            &&& h.content_length@ == decimal_digits(length as nat)
            &&& h.content_disposition@ == "attachment; filename=\""@ + match name {
                FileNameFact::Name(n) => n@,
                _ => "file"@,
            } + "\""@
        }),
{
    let shown = match name {
        FileNameFact::Missing => {
            return Err(
                HttpError {
                    status: HttpStatus::InternalServerError,
                    message: String::from_str("Unable to determine filename"),
                },
            );
        },
        FileNameFact::NotUtf8 => String::from_str("file"),
        FileNameFact::Name(n) => n,
    };
    let mut disposition = join2("attachment; filename=\"", shown.as_str());
    disposition.append("\"");
    Ok(
        DownloadHeaders {
            content_type,
            content_disposition: disposition,
            content_length: decimal_text(length),
        },
    )
}

/// The headers of a download of a file named `name`, of `length` bytes,
/// with extension `extension`; `zip` says that the file is an archive made
/// for the transfer.
pub fn download_headers(name: FileNameFact, zip: bool, extension: Option<String>, length: u64) -> (res:
    Result<DownloadHeaders, HttpError>)
    ensures
        name !is Missing && !zip && (extension is None || extension->0@.len() == 0) ==> (res matches Ok(h)
            && h.content_type@ == "application/octet-stream"@),
        extension matches Some(e) ==> (name !is Missing && !zip ==> (res matches Ok(h)
            && h.content_type@ == mime_for_extension(e@))),
        name !is Missing && zip ==> (res matches Ok(h) && h.content_type@ == "application/zip"@),
        name is Missing ==> (res matches Err(e) && e.status == HttpStatus::InternalServerError
            && e.message@ == "Unable to determine filename"@),
        name !is Missing ==> (res matches Ok(h) && {
            &&& h.content_type@ == download_content_type(
                zip,
                match extension {
                    Some(e) => Some(e@),
                    None => None,
                },
            )
            &&& h.content_length@ == decimal_digits(length as nat)
            &&& h.content_disposition@ == "attachment; filename=\""@ + match name {
                FileNameFact::Name(n) => n@,
                _ => "file"@,
            } + "\""@
        }),
{
    if let FileNameFact::Missing = name {
        return download_headers_with(name, String::new(), length);
    }
    let content_type = content_type_for(zip, extension);
    download_headers_with(name, content_type, length)
}

/// The line printed when a client asks for the file.
pub fn download_request_notice(client_ip: &str, path: &str) -> (m: String)
    ensures
        m@ == "Client (IP "@ + client_ip@ + ") requested to download "@ + path@,
{
    let mut m = join2("Client (IP ", client_ip);
    m.append(") requested to download ");
    m.append(path);
    m
}

/// The line printed when a download has been answered.
pub fn download_done_notice(client_ip: &str) -> (m: String)
    ensures
        m@ == "Client (IP "@ + client_ip@ + ") successfully downloaded the file."@,
{
    let mut m = join2("Client (IP ", client_ip);
    m.append(") successfully downloaded the file.");
    m
}

} // verus!
