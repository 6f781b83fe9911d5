use monolith::db::{count_missing_in_scope, mark_missing_before_rescan};
use monolith::models::ScanRoot;
use monolith::admin::{scan_summary, status_line, user_line, STATUS_HEADER};
use monolith::client_inventory::InventoryRefreshReport;
use monolith::db::{judge_link, judge_unlink, library_status, CatalogError, SystemStatus, UserRecord};
use monolith::models::{RomAvailability, RomLocation};

fn location(system_id: i64, path: &str, availability: RomAvailability) -> RomLocation {
    RomLocation {
        id: None,
        game_id: None,
        system_id,
        path: path.into(),
        extension: "iso".into(),
        size_bytes: 10,
        modified_at: None,
        sha256: None,
        availability,
        last_seen_at: String::new(),
    }
}

#[test]
fn library_scan_persists_observations_and_status_reports_them() {
    let summary = scan_summary(&InventoryRefreshReport { visited: 2, accepted: 1, ignored: 1, missing: 0, issues: 0 });
    assert!(summary.contains("visités=2"));
    assert!(summary.contains("acceptés=1"));
    assert!(summary.contains("ignorés=1"));
    assert!(summary.contains("absents=0"));

    let statuses = library_status(&vec![location(42, "/roms/Tekken 5.ISO", RomAvailability::Available)], None);
    assert_eq!(STATUS_HEADER, "SYSTEM_ID\tDISPONIBLES\tABSENTS");
    assert_eq!(statuses.len(), 1);
    assert_eq!(status_line(&statuses[0]), "42\t1\t0");
}

#[test]
fn library_status_can_filter_a_single_system() {
    let locations = vec![
        location(7, "/roms/other.iso", RomAvailability::Missing),
        location(42, "/roms/Tekken 5.iso", RomAvailability::Available),
        location(7, "/roms/other2.iso", RomAvailability::Available),
    ];
    let statuses = library_status(&locations, Some(42));
    assert_eq!(statuses.len(), 1);
    assert_eq!(status_line(&statuses[0]), "42\t1\t0");

    let all = library_status(&locations, None);
    assert_eq!(
        all,
        vec![
            SystemStatus { system_id: 7, available: 1, missing: 1 },
            SystemStatus { system_id: 42, available: 1, missing: 0 },
        ]
    );
}

#[test]
fn library_link_and_unlink_follow_the_rules() {
    assert!(judge_link("/roms/Tekken 5.iso", 7, Some(42), Some(42)).is_ok());
    assert!(judge_unlink("/roms/Tekken 5.iso", 1).is_ok());
    let error = judge_unlink("/roms/Tekken 5.iso", 0).unwrap_err();
    assert_eq!(error, CatalogError::NoAssociation { path: "/roms/Tekken 5.iso".into() });
    assert_eq!(error.message(), "association introuvable pour la ROM : /roms/Tekken 5.iso");
}

#[test]
fn library_link_rejects_a_game_from_another_system() {
    let error = judge_link("/roms/Tekken 5.iso", 99, Some(42), Some(7)).unwrap_err();
    assert!(error.message().contains("systèmes différents"));
    assert_eq!(
        error.message(),
        "association refusée : ROM (système 42) et jeu (système 7) appartiennent à des systèmes différents"
    );
}

#[test]
fn library_link_reports_unknown_rom_and_game() {
    assert_eq!(
        judge_link("/x.iso", 3, None, Some(1)).unwrap_err().message(),
        "ROM introuvable : /x.iso"
    );
    assert_eq!(
        judge_link("/x.iso", -3, Some(1), None).unwrap_err(),
        CatalogError::GameNotFound { game_id: -3 }
    );
    assert_eq!(CatalogError::GameNotFound { game_id: -3 }.message(), "jeu introuvable : -3");
}

#[test]
fn user_lines_list_every_column() {
    let line = user_line(&UserRecord {
        user_id: 12,
        username: "alice".into(),
        role: "admin".into(),
        enabled: true,
        sso: false,
    });
    assert_eq!(line, "12\ttrue\tlocal\tadmin\talice");
}

#[test]
fn a_rescan_marks_missing_only_the_available_locations_under_its_root() {
    let root = ScanRoot { system_id: 42, path: "/roms/ps2/".into(), extensions: vec!["iso".into()] };
    let marked = mark_missing_before_rescan(
        vec![
            location(42, "/roms/ps2/a.iso", RomAvailability::Available),
            location(42, "/roms/ps2x/b.iso", RomAvailability::Available),
            location(7, "/roms/ps2/c.iso", RomAvailability::Available),
            location(42, "/roms/ps2/sub/d.iso", RomAvailability::Missing),
        ],
        &root,
    );
    let states: Vec<RomAvailability> = marked.iter().map(|l| l.availability).collect();
    assert_eq!(
        states,
        vec![
            RomAvailability::Missing,
            RomAvailability::Available,
            RomAvailability::Available,
            RomAvailability::Missing,
        ]
    );
    assert_eq!(count_missing_in_scope(&marked, &root), 2);
}
