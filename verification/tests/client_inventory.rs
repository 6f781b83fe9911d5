use monolith::client_auth::ChannelPoll;
use monolith::client_inventory::{ClientInventory, InventoryRefreshReport, InventoryRefreshState};
use monolith::models::{ScanIssue, ScanObservation, ScanReport, ScanRoot};

#[test]
fn inventory_refresh_state_transitions_from_scanning_to_completed() {
    let mut state = InventoryRefreshState::Scanning;
    state.complete(Ok(InventoryRefreshReport {
        visited: 3,
        accepted: 2,
        ignored: 1,
        missing: 1,
        issues: 0,
    }));

    assert_eq!(
        state,
        InventoryRefreshState::Completed(InventoryRefreshReport {
            visited: 3,
            accepted: 2,
            ignored: 1,
            missing: 1,
            issues: 0,
        })
    );
}

#[test]
fn inventory_refresh_state_surfaces_a_background_error() {
    let mut state = InventoryRefreshState::Scanning;
    state.complete(Err("racine inaccessible".into()));

    assert_eq!(
        state,
        InventoryRefreshState::Error("racine inaccessible".into())
    );
}

fn roots() -> Vec<ScanRoot> {
    vec![ScanRoot {
        system_id: 2,
        path: "/library/dreamcast".into(),
        extensions: vec!["iso".into()],
    }]
}

#[test]
fn background_scan_completes_with_the_reported_counts() {
    let mut inventory = ClientInventory::new("monolith.db".into(), roots(), 1, "catalog.json".into());
    assert_eq!(inventory.state(), &InventoryRefreshState::Idle);
    let job = inventory.start().unwrap();
    assert_eq!(job.roots, roots());
    assert_eq!(job.user_id, 1);
    assert_eq!(job.database_path, "monolith.db");
    assert_eq!(job.cache_path, "catalog.json");
    assert_eq!(inventory.state(), &InventoryRefreshState::Scanning);
    assert!(inventory.poll(ChannelPoll::Empty).is_none());
    assert_eq!(inventory.state(), &InventoryRefreshState::Scanning);

    let report = InventoryRefreshReport { visited: 1, accepted: 1, ignored: 0, missing: 0, issues: 0 };
    assert!(inventory.poll(ChannelPoll::Received(Ok(report))).is_some());
    assert_eq!(inventory.state(), &InventoryRefreshState::Completed(report));
    assert_eq!(inventory.user_id(), 1);
    assert_eq!(inventory.cache_path(), "catalog.json");
    assert_eq!(inventory.database_path(), "monolith.db");
}

#[test]
fn a_second_scan_is_refused_while_one_runs() {
    let mut inventory = ClientInventory::new("monolith.db".into(), roots(), 1, "catalog.json".into());
    inventory.start().unwrap();
    assert!(inventory.start().is_err());
}

#[test]
fn an_interrupted_scan_becomes_an_error() {
    let mut inventory = ClientInventory::new("monolith.db".into(), roots(), 1, "catalog.json".into());
    inventory.start().unwrap();
    assert!(inventory.poll(ChannelPoll::Disconnected).is_some());
    assert!(matches!(inventory.state(), InventoryRefreshState::Error(_)));
    inventory.start().unwrap();
}

#[test]
fn refresh_report_adds_each_root_and_the_missing_files() {
    let mut report = InventoryRefreshReport::default();
    let scan = ScanReport {
        visited: 3,
        accepted: 1,
        ignored: 2,
        observations: vec![ScanObservation {
            system_id: 2,
            path: "/library/dreamcast/a.iso".into(),
            extension: "iso".into(),
            size_bytes: 10,
            modified_at: None,
        }],
        issues: vec![ScanIssue { path: "/x".into(), message: "refusé".into() }],
    };
    report.record_root_scan(&scan);
    report.record_root_scan(&scan);
    report.record_missing(4);
    assert_eq!(
        report,
        InventoryRefreshReport { visited: 6, accepted: 2, ignored: 4, missing: 4, issues: 2 }
    );
}
