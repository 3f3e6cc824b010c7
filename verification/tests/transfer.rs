use swift_file::cli::{apply_command, receive, send, send_with_id, served_file, CliError, Commands};
use swift_file::config::{FileRegistry, GlobalConfig};
use swift_file::download::{
    content_type_for, download_done_notice, download_headers, download_request_notice,
    file_not_found, find_download, registry_unavailable, FileNameFact,
};
use swift_file::http::HttpStatus;
use swift_file::network::{IpAddress, ServerAddress};
use swift_file::upload::{construct_file_info, finish_upload, open_notice, plan_upload};

fn config() -> GlobalConfig {
    GlobalConfig::new(ServerAddress { ip: IpAddress::V4(0x7f00_0001), port: 8080 })
}

fn is_uuid_shape(id: &str) -> bool {
    id.len() == 36
        && id.chars().enumerate().all(|(i, c)| {
            if [8, 13, 18, 23].contains(&i) {
                c == '-'
            } else {
                c.is_ascii_hexdigit() && !c.is_ascii_uppercase()
            }
        })
}

#[test]
fn new_config_defaults() {
    let c = config();
    assert!(c.destination_dir.is_none());
    assert!(c.auto_open);
    assert!(!c.zip);
    assert_eq!(c.socket_addr.port, 8080);
    assert!(c.uuid_path_map.paths().is_empty());
}

#[test]
fn registry_read_after_write() {
    let mut reg = FileRegistry::new();
    assert_eq!(reg.get("a"), None);
    reg.insert("a".to_string(), "/tmp/one".to_string());
    reg.insert("b".to_string(), "/tmp/two".to_string());
    assert_eq!(reg.get("a"), Some("/tmp/one".to_string()));
    assert_eq!(reg.get("b"), Some("/tmp/two".to_string()));
    reg.insert("a".to_string(), "/tmp/three".to_string());
    assert_eq!(reg.get("a"), Some("/tmp/three".to_string()));
    assert_eq!(reg.get("b"), Some("/tmp/two".to_string()));
    let mut paths = reg.paths();
    paths.sort();
    assert_eq!(paths, vec!["/tmp/three".to_string(), "/tmp/two".to_string()]);
}

#[test]
fn send_registers_file_under_route() {
    let mut c = config();
    let route = send(&mut c, "notes.txt".to_string(), false, true, false).ok().unwrap();
    assert!(route.starts_with("/download/"));
    let id = &route["/download/".len()..];
    assert!(is_uuid_shape(id), "{id}");
    assert_eq!(&id[14..15], "4");
    assert_eq!(c.uuid_path_map.get(id), Some("notes.txt".to_string()));
    assert_eq!(find_download(&c.uuid_path_map, id).ok(), Some("notes.txt".to_string()));
    assert!(!c.zip);
}

#[test]
fn send_twice_gives_distinct_links() {
    let mut c = config();
    let first = send(&mut c, "a".to_string(), false, true, false).ok().unwrap();
    let second = send(&mut c, "b".to_string(), false, true, false).ok().unwrap();
    assert_ne!(first, second);
    assert_eq!(c.uuid_path_map.get(&first[10..]), Some("a".to_string()));
    assert_eq!(c.uuid_path_map.get(&second[10..]), Some("b".to_string()));
}

#[test]
fn send_with_id_route() {
    let mut c = config();
    let route = send_with_id(&mut c, "dir".to_string(), true, true, true, "abc".to_string());
    assert_eq!(route.ok(), Some("/download/abc".to_string()));
    assert!(c.zip);
    assert_eq!(c.uuid_path_map.get("abc"), Some("dir.zip".to_string()));
}

#[test]
fn zip_send_serves_the_archive() {
    let mut c = config();
    let route = send(&mut c, "/home/u/photos".to_string(), true, true, true).ok().unwrap();
    assert_eq!(c.uuid_path_map.get(&route[10..]), Some("photos.zip".to_string()));
    assert_eq!(served_file("/home/u/notes.txt", false), Some("/home/u/notes.txt".to_string()));
    assert_eq!(served_file("/home/u/notes.txt", true), Some("notes.txt.zip".to_string()));
    assert_eq!(served_file("/home/u/..", true), None);
}

#[test]
fn zip_send_refuses_path_without_name() {
    let mut c = config();
    match send(&mut c, "/home/u/..".to_string(), true, true, true) {
        Err(err @ CliError::NoArchiveName { .. }) => {
            assert_eq!(err.message(), "Input path terminates in '...'.")
        }
        _ => panic!("expected a refusal"),
    }
    assert!(c.uuid_path_map.paths().is_empty());
    assert!(!c.zip);
}

#[test]
fn send_refuses_missing_path() {
    let mut c = config();
    match send(&mut c, "gone.txt".to_string(), false, false, false) {
        Err(err @ CliError::PathMissing { .. }) => {
            assert_eq!(err.message(), "Path gone.txt does not exist on disk")
        }
        _ => panic!("expected a refusal"),
    }
    assert!(c.uuid_path_map.paths().is_empty());
}

#[test]
fn send_refuses_directory_without_zip() {
    let mut c = config();
    match send(&mut c, "photos".to_string(), false, true, true) {
        Err(err @ CliError::DirectoryWithoutZip) => assert_eq!(
            err.message(),
            "Unable to send a directory without creating a zip. Tip: use --zip"
        ),
        _ => panic!("expected a refusal"),
    }
    assert!(send(&mut c, "photos".to_string(), true, true, true).is_ok());
    assert!(c.zip);
}

#[test]
fn receive_sets_destination_and_opening() {
    let mut c = config();
    let route = receive(&mut c, Some("/srv/in".to_string()), true, true).ok().unwrap();
    assert_eq!(route, "/receive");
    assert_eq!(c.destination_dir, Some("/srv/in".to_string()));
    assert!(!c.auto_open);
    let mut d = config();
    assert_eq!(receive(&mut d, None, false, false).ok(), Some("/receive".to_string()));
    assert!(d.auto_open);
    assert!(d.destination_dir.is_none());
}

#[test]
fn receive_refuses_missing_destination() {
    let mut c = config();
    match receive(&mut c, Some("/nowhere".to_string()), false, true) {
        Err(err @ CliError::DestinationMissing { .. }) => assert_eq!(
            err.message(),
            "Destination directory must exist but /nowhere does not exist"
        ),
        _ => panic!("expected a refusal"),
    }
    assert!(c.auto_open);
    assert!(c.destination_dir.is_none());
}

#[test]
fn apply_command_dispatches() {
    let mut c = config();
    let cmd = Commands::Receive { dest_dir: None, no_open: true };
    assert_eq!(apply_command(&mut c, cmd, false, false).ok(), Some("/receive".to_string()));
    assert!(!c.auto_open);
    let cmd = Commands::Send { path: "x.bin".to_string(), zip: false };
    let route = apply_command(&mut c, cmd, true, false).ok().unwrap();
    assert_eq!(c.uuid_path_map.get(&route[10..]), Some("x.bin".to_string()));
}

#[test]
fn unknown_link_is_not_found() {
    let c = config();
    let err = find_download(&c.uuid_path_map, "nope").err().unwrap();
    assert_eq!(err.status, HttpStatus::NotFound);
    assert_eq!(err.status.code(), 404);
    assert_eq!(err.message, "Wrong file UUID");
}

#[test]
fn download_error_answers() {
    let e = registry_unavailable("poisoned");
    assert_eq!(e.status.code(), 500);
    assert_eq!(e.message, "Something went wrong with getting the file path: poisoned");
    let e = file_not_found("No such file or directory (os error 2)");
    assert_eq!(e.status, HttpStatus::NotFound);
    assert_eq!(e.message, "File not found: No such file or directory (os error 2)");
}

#[test]
fn download_headers_for_plain_file() {
    let h = download_headers(FileNameFact::Name("notes.txt".to_string()), false, Some("txt".to_string()), 1234)
        .ok()
        .unwrap();
    assert_eq!(h.content_type, "text/plain");
    assert_eq!(h.content_disposition, "attachment; filename=\"notes.txt\"");
    assert_eq!(h.content_length, "1234");
}

#[test]
fn download_headers_for_archive_and_odd_names() {
    let h = download_headers(FileNameFact::NotUtf8, true, Some("zip".to_string()), 0).ok().unwrap();
    assert_eq!(h.content_type, "application/zip");
    assert_eq!(h.content_disposition, "attachment; filename=\"file\"");
    assert_eq!(h.content_length, "0");
    let e = download_headers(FileNameFact::Missing, false, None, 5).err().unwrap();
    assert_eq!(e.status.code(), 500);
    assert_eq!(e.message, "Unable to determine filename");
}

#[test]
fn content_types() {
    assert_eq!(content_type_for(false, None), "application/octet-stream");
    assert_eq!(content_type_for(false, Some("png".to_string())), "image/png");
    assert_eq!(content_type_for(false, Some("nosuchext".to_string())), "application/octet-stream");
    assert_eq!(content_type_for(true, Some("png".to_string())), "application/zip");
}

#[test]
fn download_notices() {
    assert_eq!(
        download_request_notice("10.0.0.2", "/home/u/notes.txt"),
        "Client (IP 10.0.0.2) requested to download /home/u/notes.txt"
    );
    assert_eq!(download_done_notice("10.0.0.2"), "Client (IP 10.0.0.2) successfully downloaded the file.");
}

#[test]
fn empty_upload_is_refused() {
    let e = plan_upload(Some("a.txt".to_string()), None, 0).err().unwrap();
    assert_eq!(e.status, HttpStatus::BadRequest);
    assert_eq!(e.status.code(), 400);
    assert_eq!(e.message, "Please upload at least one file");
}

#[test]
fn upload_defaults_and_size() {
    let plan = plan_upload(None, None, 1500).ok().unwrap();
    assert_eq!(plan.file_name, "uploaded file");
    assert_eq!(plan.content_type, "application/octet-stream");
    assert_eq!(plan.human_size, "1.50 kB");
    let plan = plan_upload(Some("a.png".to_string()), Some("image/png".to_string()), 1000).ok().unwrap();
    assert_eq!(plan.file_name, "a.png");
    assert_eq!(plan.content_type, "image/png");
    assert_eq!(plan.human_size, "1 kB");
    assert_eq!(plan_upload(None, None, 10).ok().unwrap().human_size, "10 B");
}

#[test]
fn file_info_text() {
    assert_eq!(
        construct_file_info("a.png", "image/png", "1 kB", "/srv/a.png"),
        "file `a.png` with content type `image/png` and size `1 kB` to `/srv/a.png`"
    );
}

#[test]
fn upload_reports() {
    let r = finish_upload("10.0.0.3", "file `a`", None, true);
    assert!(r.open_file);
    assert_eq!(r.notice, "Client 10.0.0.3 successfully transferred file `a`");
    let r = finish_upload("10.0.0.3", "file `a`", None, false);
    assert!(!r.open_file);
    let r = finish_upload("10.0.0.3", "file `a`", Some("disk full".to_string()), true);
    assert!(!r.open_file);
    assert_eq!(r.notice, "Client 10.0.0.3 attempted to transfer file `a` but it failed due to `disk full`");
    assert_eq!(open_notice(None), "File opened using a system default program.");
    assert_eq!(
        open_notice(Some("no handler".to_string())),
        "Unable to open a file using the system default program due to no handler"
    );
}

#[test]
fn download_headers_without_extension() {
    let h = download_headers(FileNameFact::Name("README".to_string()), false, None, 7).ok().unwrap();
    assert_eq!(h.content_type, "application/octet-stream");
    assert_eq!(content_type_for(false, Some(String::new())), "application/octet-stream");
}

#[test]
fn apply_command_keeps_unrelated_settings() {
    let mut c = config();
    c.destination_dir = Some("/srv/in".to_string());
    let cmd = Commands::Send { path: "x.bin".to_string(), zip: true };
    assert!(apply_command(&mut c, cmd, true, false).is_ok());
    assert_eq!(c.destination_dir, Some("/srv/in".to_string()));
    assert_eq!(c.socket_addr.port, 8080);
    let cmd = Commands::Receive { dest_dir: None, no_open: false };
    assert!(apply_command(&mut c, cmd, false, false).is_ok());
    assert!(c.zip);
    assert_eq!(c.destination_dir, Some("/srv/in".to_string()));
}
