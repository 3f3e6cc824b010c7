//! Receiving uploaded files: which uploads are accepted, the names they are
//! given, and the lines printed about them.

use vstd::prelude::*;
use vstd::string::*;
use crate::http::{HttpError, HttpStatus};
use crate::text::join2;

verus! {

/// The size of `size` bytes written with decimal units by `humansize`
/// (for instance `1.50 kB`).
pub uninterp spec fn decimal_size_text(size: usize) -> Seq<char>;

/// Writes a size with `humansize::format_size(size, humansize::DECIMAL)`.
#[verifier::external_body]
fn human_size(size: usize) -> (s: String)
    ensures
        s@ == decimal_size_text(size),
{
    humansize::format_size(size, humansize::DECIMAL)
}

/// What the server knows of an accepted upload.
pub struct UploadPlan {
    /// The name the client gave, `uploaded file` when it gave none.
    pub file_name: String,
    /// The type the client gave, `application/octet-stream` when none.
    pub content_type: String,
    /// The size in readable form.
    pub human_size: String,
}

/// The text `s`, or `default` when there is none.
pub open spec fn or_default(s: Option<Seq<char>>, default: Seq<char>) -> Seq<char> {
    match s {
        Some(t) => t,
        None => default,
    }
}

/// The view of an optional string.
pub open spec fn opt_text(s: Option<String>) -> Option<Seq<char>> {
    match s {
        Some(t) => Some(t@),
        None => None,
    }
}

/// Decides on an uploaded field of `size` bytes whose size was written as
/// `human`: an empty upload is answered with 400 `Please upload at least
/// one file`; otherwise the missing name and type get their defaults.
pub fn plan_upload_with(file_name: Option<String>, content_type: Option<String>, size: usize, human: String) -> (res:
    Result<UploadPlan, HttpError>)
    ensures
        size == 0 ==> (res matches Err(e) && e.status == HttpStatus::BadRequest && e.message@
            == "Please upload at least one file"@),
        size > 0 ==> (res matches Ok(plan) && {
            &&& plan.file_name@ == or_default(opt_text(file_name), "uploaded file"@)
            &&& plan.content_type@ == or_default(opt_text(content_type), "application/octet-stream"@)
            &&& plan.human_size@ == human@
        }),
{
    if size == 0 {
        return Err(
            HttpError {
                status: HttpStatus::BadRequest,
                message: String::from_str("Please upload at least one file"),
            },
        );
    }
    let file_name = match file_name {
        Some(n) => n,
        None => String::from_str("uploaded file"),
    };
    let content_type = match content_type {
        Some(t) => t,
        None => String::from_str("application/octet-stream"),
    };
    Ok(UploadPlan { file_name, content_type, human_size: human })
}

/// Decides on an uploaded field of `size` bytes, as the upload form does.
pub fn plan_upload(file_name: Option<String>, content_type: Option<String>, size: usize) -> (res: Result<
    UploadPlan,
    HttpError,
>)
    ensures
        size == 0 ==> (res matches Err(e) && e.status == HttpStatus::BadRequest && e.message@
            == "Please upload at least one file"@),
        size > 0 ==> (res matches Ok(plan) && {
            &&& plan.file_name@ == or_default(opt_text(file_name), "uploaded file"@)
            &&& plan.content_type@ == or_default(opt_text(content_type), "application/octet-stream"@)
            &&& plan.human_size@ == decimal_size_text(size)
        }),
{
    if size == 0 {
        return plan_upload_with(file_name, content_type, size, String::new());
    }
    let human = human_size(size);
    plan_upload_with(file_name, content_type, size, human)
}

/// The description of a transfer: "file `{file_name}` with content type
/// `{content_type}` and size `{human_size}` to `{destination_path}`".
pub fn construct_file_info(file_name: &str, content_type: &str, human_size: &str, destination_path: &str) -> (info:
    String)
    ensures
        info@ == "file `"@ + file_name@ + "` with content type `"@ + content_type@ + "` and size `"@
            + human_size@ + "` to `"@ + destination_path@ + "`"@,
{
    let mut info = join2("file `", file_name);
    info.append("` with content type `");
    info.append(content_type);
    info.append("` and size `");
    info.append(human_size);
    info.append("` to `");
    info.append(destination_path);
    info.append("`");
    info
}

/// What follows the writing of an upload: the line to print, and whether to
/// open the file with the system's default program.
pub struct UploadReport {
    pub notice: String,
    pub open_file: bool,
}

/// The report on writing an upload described by `file_info` from
/// `client_ip`; `write_error` is the reason the write failed, if it did.
/// A written file is opened when `auto_open` is set.
pub fn finish_upload(client_ip: &str, file_info: &str, write_error: Option<String>, auto_open: bool) -> (r:
    UploadReport)
    ensures
        r.open_file == (write_error is None && auto_open),
        write_error is None ==> r.notice@ == "Client "@ + client_ip@ + " successfully transferred "@
            + file_info@,
        write_error matches Some(err) ==> r.notice@ == "Client "@ + client_ip@ + " attempted to transfer "@
            + file_info@ + " but it failed due to `"@ + err@ + "`"@,
{
    let mut notice = join2("Client ", client_ip);
    match write_error {
        None => {
            notice.append(" successfully transferred ");
            notice.append(file_info);
            UploadReport { notice, open_file: auto_open }
        },
        Some(err) => {
            notice.append(" attempted to transfer ");
            notice.append(file_info);
            notice.append(" but it failed due to `");
            notice.append(err.as_str());
            notice.append("`");
            UploadReport { notice, open_file: false }
        },
    }
}

/// The line printed after trying to open a received file; `open_error` is
/// the reason it could not be opened, if it could not.
pub fn open_notice(open_error: Option<String>) -> (m: String)
    ensures
        open_error is None ==> m@ == "File opened using a system default program."@,
        open_error matches Some(err) ==> m@
            == "Unable to open a file using the system default program due to "@ + err@,
{
    match open_error {
        None => String::from_str("File opened using a system default program."),
        Some(err) => join2("Unable to open a file using the system default program due to ", err.as_str()),
    }
}

} // verus!
