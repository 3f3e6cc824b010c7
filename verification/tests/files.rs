use swift_file::files::{
    archive_entry_name, archive_file_name, destination_candidate, destination_path,
    renamed_file_name, set_available_filename, ArchiveError, DirWalk,
};
use swift_file::http::HttpStatus;
use swift_file::qr::{generate_qr_code, server_url};
use swift_file::server::{removal_notice, should_remove_archive};

#[test]
fn renamed_names() {
    assert_eq!(
        renamed_file_name(Some("a.txt".to_string()), "01-02-2024 10:00:00"),
        "01-02-2024 10:00:00 - a.txt"
    );
    assert_eq!(renamed_file_name(None, "01-02-2024 10:00:00"), "uploaded file");
}

#[test]
fn destination_candidates() {
    assert_eq!(destination_candidate(&Some("/srv/in".to_string()), "/home/u", "a.txt"), "/srv/in/a.txt");
    assert_eq!(destination_candidate(&None, "/home/u", "a.txt"), "/home/u/a.txt");
    assert_eq!(destination_candidate(&None, "/home/u", "/etc/x"), "/etc/x");
    assert_eq!(destination_candidate(&None, "/home/u", "../x"), "/home/u/../x");
}

#[test]
fn destination_paths() {
    assert_eq!(destination_path("/srv/in/a.txt", false, "01-02-2024 10:00:00"), "/srv/in/a.txt");
    assert_eq!(
        destination_path("/srv/in/a.txt", true, "01-02-2024 10:00:00"),
        "/srv/in/01-02-2024 10:00:00 - a.txt"
    );
    assert_eq!(destination_path("/srv/in/..", true, "01-02-2024 10:00:00"), "/srv/in/../uploaded file");
}

#[test]
fn available_filename_is_stamped_when_taken() {
    assert_eq!(set_available_filename("/srv/in/a.txt", false), "/srv/in/a.txt");
    let name = set_available_filename("/srv/in/report.pdf", true);
    assert!(name.starts_with("/srv/in/"), "{name}");
    assert!(name.ends_with(" - report.pdf"), "{name}");
    let stamp = &name["/srv/in/".len()..name.len() - " - report.pdf".len()];
    assert_eq!(stamp.len(), "DD-MM-YYYY HH:MM:SS".len());
    assert_eq!(&stamp[2..3], "-");
    assert_eq!(&stamp[10..11], " ");
}

#[test]
fn archive_names() {
    assert_eq!(archive_file_name("photos"), "photos.zip");
    assert_eq!(archive_entry_name("/home/u/photos/a/b.jpg", "/home/u/photos").ok(), Some("a/b.jpg".to_string()));
    match archive_entry_name("/tmp/x", "/home/u/photos") {
        Err(err @ ArchiveError::EntryOutsideDirectory) => assert_eq!(
            err.message(),
            "Directory file path does not start with base input directory path."
        ),
        _ => panic!("expected a refusal"),
    }
    assert_eq!(ArchiveError::NoFileName.message(), "Input path terminates in '...'.");
    assert_eq!(ArchiveError::InputNotUtf8.message(), "Input path not valid UTF-8.");
    assert_eq!(ArchiveError::EntryNotUtf8.message(), "Directory file path not valid UTF-8.");
}

#[test]
fn directory_walk_is_breadth_first() {
    let mut walk = DirWalk::new("root".to_string());
    assert_eq!(walk.next_dir(), Some("root".to_string()));
    walk.record_entry("root/a".to_string(), true);
    walk.record_entry("root/f1".to_string(), false);
    walk.record_entry("root/b".to_string(), true);
    assert_eq!(walk.next_dir(), Some("root/a".to_string()));
    walk.record_entry("root/a/f2".to_string(), false);
    walk.record_entry("root/a/c".to_string(), true);
    assert_eq!(walk.next_dir(), Some("root/b".to_string()));
    assert_eq!(walk.next_dir(), Some("root/a/c".to_string()));
    assert_eq!(walk.next_dir(), None);
    assert_eq!(walk.into_files(), vec!["root/f1".to_string(), "root/a/f2".to_string()]);
}

#[test]
fn qr_link_and_lines() {
    assert_eq!(server_url("192.168.1.5:8080", "/receive"), "http://192.168.1.5:8080/receive");
    let lines = generate_qr_code("192.168.1.5:8080", "/receive").unwrap();
    assert_eq!(lines.len(), 4);
    assert_eq!(lines[0], "Swift File server is warming up...");
    assert_eq!(
        lines[1],
        "Scan the QR code to get started. Shut down the server by pressing \"Ctrl + c\""
    );
    assert_eq!(lines[2], "http://192.168.1.5:8080/receive\n");
    assert!(lines[3].contains('\u{2588}') || lines[3].contains('\u{2580}'));
    assert_ne!(lines[3], lines[2]);
    assert!(lines[3].lines().count() > 10);
}

#[test]
fn qr_link_too_long() {
    let long_route = "x".repeat(8000);
    assert!(generate_qr_code("10.0.0.1:1024", &long_route).is_none());
}

#[test]
fn archive_removal_rules() {
    assert!(should_remove_archive(true, Some("zip"), true, true, true));
    assert!(!should_remove_archive(false, Some("zip"), true, true, true));
    assert!(!should_remove_archive(true, Some("ZIP"), true, true, true));
    assert!(!should_remove_archive(true, Some("txt"), true, true, true));
    assert!(!should_remove_archive(true, None, true, true, true));
    assert!(!should_remove_archive(true, Some("zip"), false, true, true));
    assert!(!should_remove_archive(true, Some("zip"), true, false, true));
    assert!(!should_remove_archive(true, Some("zip"), true, true, false));
    assert_eq!(removal_notice("/w/a.zip"), "Successfully removed /w/a.zip");
}

#[test]
fn status_codes() {
    assert_eq!(HttpStatus::BadRequest.code(), 400);
    assert_eq!(HttpStatus::NotFound.code(), 404);
    assert_eq!(HttpStatus::InternalServerError.code(), 500);
}
