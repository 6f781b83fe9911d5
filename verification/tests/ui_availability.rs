use monolith::auth::{AuthMode, Role};
use monolith::client_auth::AuthState;
use monolith::models::LaunchAvailability;
use monolith::session_store::ClientSession;
use monolith::ui::{
    active_user_id, availability_label, can_edit, can_manage_associations, can_scan_library, login_methods,
    non_empty,
};

#[test]
fn availability_label_reports_available_location_count() {
    assert_eq!(
        availability_label(&LaunchAvailability {
            available: true,
            location_count: 2,
            preferred_path: Some("/library/Rayman 2.chd".into()),
        }),
        "Disponible · 2 emplacements"
    );
}

#[test]
fn availability_label_uses_the_singular_for_one_location() {
    assert_eq!(
        availability_label(&LaunchAvailability {
            available: true,
            location_count: 1,
            preferred_path: Some("/library/Rayman 2.chd".into()),
        }),
        "Disponible · 1 emplacement"
    );
}

#[test]
fn availability_label_reports_an_absent_game() {
    assert_eq!(
        availability_label(&LaunchAvailability::default()),
        "Absent de la bibliothèque"
    );
}

fn signed_in(role: Role) -> AuthState {
    AuthState::Authenticated(ClientSession {
        backend_url: "http://127.0.0.1:8787".into(),
        access_token: "t".into(),
        user_id: 5,
        username: "u".into(),
        role,
        expires_at: 10,
    })
}

#[test]
fn account_rights_follow_the_role() {
    assert_eq!(active_user_id(&signed_in(Role::ReadOnly)), Some(5));
    assert_eq!(active_user_id(&AuthState::Offline { user_id: 3 }), Some(3));
    assert_eq!(active_user_id(&AuthState::SignedOut), None);
    assert!(!can_edit(&signed_in(Role::ReadOnly)));
    assert!(can_edit(&signed_in(Role::Standard)));
    assert!(can_manage_associations(&signed_in(Role::Admin)));
    assert!(!can_manage_associations(&signed_in(Role::ReadOnly)));
    assert!(!can_manage_associations(&AuthState::SignedOut));
    assert!(!can_scan_library(&AuthState::SignedOut));
}

#[test]
fn login_methods_follow_the_policy() {
    assert_eq!(login_methods(Some(AuthMode::Local)), (true, false));
    assert_eq!(login_methods(Some(AuthMode::Sso)), (false, true));
    assert_eq!(login_methods(Some(AuthMode::Hybrid)), (true, true));
}

#[test]
fn blank_text_is_no_value() {
    assert_eq!(non_empty("  "), None);
    assert_eq!(non_empty(" a b "), Some("a b".into()));
}
