use monolith::inventory::{DirectoryEntry, EntryKind, ScanSession, ROOT_UNREACHABLE};
use monolith::models::{RomAvailability, ScanReport, ScanRoot, ScanRootError};

#[test]
fn rom_availability_reads_back_from_its_name() {
    assert_eq!(RomAvailability::Available.as_str(), "available");
    assert_eq!(RomAvailability::parse("available"), Some(RomAvailability::Available));
    assert_eq!(RomAvailability::parse(RomAvailability::Missing.as_str()), Some(RomAvailability::Missing));
    assert_eq!(RomAvailability::parse("gone"), None);
}

#[test]
fn scan_root_requires_an_absolute_path_and_extensions() {
    assert!(ScanRoot {
        system_id: 42,
        path: "/library/ps2".into(),
        extensions: vec!["iso".into(), "chd".into()],
    }
    .validate()
    .is_ok());

    assert!(ScanRoot {
        system_id: 42,
        path: "roms/ps2".into(),
        extensions: vec!["iso".into()],
    }
    .validate()
    .is_err());

    assert!(ScanRoot {
        system_id: 42,
        path: "/library/ps2".into(),
        extensions: vec![],
    }
    .validate()
    .is_err());
}

#[test]
fn scan_root_errors_come_in_order() {
    let root = ScanRoot { system_id: -1, path: "rel".into(), extensions: vec![] };
    assert_eq!(root.validate(), Err(ScanRootError::NonPositiveSystemId));
    assert_eq!(root.check(true), Err(ScanRootError::NonPositiveSystemId));
    let root = ScanRoot { system_id: 1, path: "".into(), extensions: vec![] };
    assert_eq!(root.validate(), Err(ScanRootError::RelativePath));
    assert_eq!(root.check(true), Err(ScanRootError::NoExtension));
}

fn file(dir: &str, name: &str, extension: Option<&str>) -> DirectoryEntry {
    let path = format!("{}/{}", dir, name);
    DirectoryEntry {
        canonical_path: path.clone(),
        path,
        extension: extension.map(|e| e.to_string()),
        kind: EntryKind::File { size_bytes: 9, modified_at: Some(1) },
    }
}

fn directory(dir: &str, name: &str) -> DirectoryEntry {
    let path = format!("{}/{}", dir, name);
    DirectoryEntry { canonical_path: path.clone(), path, extension: None, kind: EntryKind::Directory }
}

fn walk(session: &mut ScanSession, listing: impl Fn(&str) -> Vec<DirectoryEntry>) {
    while let Some(dir) = session.next_directory() {
        for entry in ScanSession::order_entries(listing(&dir)) {
            session.record_entry(entry);
        }
    }
}

#[test]
fn scanner_accepts_configured_extensions_without_touching_other_files() {
    let root = ScanRoot {
        system_id: 42,
        path: "/tmp/library".into(),
        extensions: vec!["iso".into(), "chd".into()],
    };
    let mut session = ScanSession::begin(&root).unwrap();
    session.enqueue(root.path.clone());
    walk(&mut session, |dir| match dir {
        "/tmp/library" => vec![
            file(dir, "Tekken 5.ISO", Some("ISO")),
            file(dir, "notes.txt", Some("txt")),
            directory(dir, "bonus"),
        ],
        "/tmp/library/bonus" => vec![file(dir, "Ridge Racer.chd", Some("chd"))],
        _ => vec![],
    });
    let report = session.finish();

    assert_eq!(report.visited, 3);
    assert_eq!(report.ignored, 1);
    assert_eq!(report.accepted, 2);
    assert_eq!(report.issues.len(), 0);
    assert_eq!(report.observations.len(), 2);
    let paths = report
        .observations
        .iter()
        .map(|observation| observation.path.as_str())
        .collect::<Vec<_>>();
    assert!(paths.windows(2).all(|pair| pair[0] <= pair[1]));
    assert_eq!(report.observations[0].extension, "iso");
    assert_eq!(report.observations[0].system_id, 42);
}

#[test]
fn scanner_skips_links_and_records_unreadable_entries() {
    let root = ScanRoot { system_id: 7, path: "/r".into(), extensions: vec![".ZIP".into()] };
    let mut session = ScanSession::begin(&root).unwrap();
    session.record_entry(DirectoryEntry {
        path: "/r/link.zip".into(),
        canonical_path: "/elsewhere/x.zip".into(),
        extension: Some("zip".into()),
        kind: EntryKind::Symlink,
    });
    session.record_entry(DirectoryEntry {
        path: "/r/bad".into(),
        canonical_path: "/r/bad".into(),
        extension: None,
        kind: EntryKind::Unreadable { message: "permission refusée".into() },
    });
    session.record_entry(file("/r", "noext", None));
    session.record_entry(file("/r", "game.Zip", Some("Zip")));
    session.record_unreadable("/r/sub".into(), "illisible".into());
    let report = session.finish();
    assert_eq!(report.visited, 2);
    assert_eq!(report.accepted, 1);
    assert_eq!(report.ignored, 1);
    assert_eq!(report.issues.len(), 2);
    assert_eq!(report.issues[0].path, "/r/bad");
    assert_eq!(report.issues[1].message, "illisible");
    assert_eq!(report.observations[0].extension, "zip");
}

#[test]
fn scanner_refuses_an_invalid_root() {
    let root = ScanRoot { system_id: 1, path: "/r".into(), extensions: vec![] };
    assert!(matches!(ScanSession::begin(&root), Err(ScanRootError::NoExtension)));
    let root = ScanRoot { system_id: 1, path: "r".into(), extensions: vec!["iso".into()] };
    assert!(matches!(ScanSession::begin(&root), Err(ScanRootError::RelativePath)));
}

#[test]
fn extensions_that_normalize_to_nothing_accept_no_file() {
    let root = ScanRoot { system_id: 1, path: "/r".into(), extensions: vec![" .".into()] };
    let mut session = ScanSession::begin(&root).unwrap();
    session.record_entry(file("/r", "a.iso", Some("iso")));
    let report = session.finish();
    assert_eq!(report.visited, 1);
    assert_eq!(report.ignored, 1);
    assert_eq!(report.accepted, 0);
}

#[test]
fn directory_entries_are_recorded_by_path() {
    let ordered = ScanSession::order_entries(vec![
        file("/r", "b.iso", Some("iso")),
        file("/r", "a.iso", Some("iso")),
        file("/r", "c.iso", Some("iso")),
    ]);
    let paths: Vec<&str> = ordered.iter().map(|e| e.path.as_str()).collect();
    assert_eq!(paths, vec!["/r/a.iso", "/r/b.iso", "/r/c.iso"]);
}

#[test]
fn scanner_reports_an_inaccessible_root_without_panicking() {
    let missing_root = "/tmp/does-not-exist/missing";
    let report: ScanReport = ScanSession::unreachable_root(missing_root, "No such file or directory");

    assert_eq!(report.visited, 0);
    assert_eq!(report.accepted, 0);
    assert_eq!(report.ignored, 0);
    assert_eq!(report.observations.len(), 0);
    assert_eq!(report.issues.len(), 1);
    assert_eq!(report.issues[0].path, missing_root);
    assert_eq!(
        report.issues[0].message,
        format!("{}No such file or directory", ROOT_UNREACHABLE)
    );
}
