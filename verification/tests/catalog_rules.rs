use monolith::auth::{AuthSource, Role};
use monolith::db::{
    judge_sso_subject, launch_availability, provisioned_username, root_scope, sso_principal,
    validate_new_local_user, CatalogError, SsoDecision, SsoUserRecord,
};

fn sso_user(enabled: bool, role: &str) -> SsoUserRecord {
    SsoUserRecord { user_id: 5, username: "sso:alice".into(), role: role.into(), enabled }
}

#[test]
fn new_local_users_need_a_name_and_eight_password_bytes() {
    assert_eq!(validate_new_local_user("  alice ", "12345678"), Ok("alice".to_string()));
    assert_eq!(validate_new_local_user("   ", "12345678"), Err(CatalogError::EmptyUsername));
    assert_eq!(validate_new_local_user("bob", "1234567"), Err(CatalogError::ShortPassword));
    assert_eq!(validate_new_local_user("bob", "éééé"), Ok("bob".to_string()));
    assert_eq!(
        CatalogError::ShortPassword.message(),
        "le mot de passe doit contenir au moins 8 caractères"
    );
}

#[test]
fn unknown_sso_subjects_are_provisioned_only_when_allowed() {
    assert_eq!(judge_sso_subject(None, true), SsoDecision::Provision);
    assert_eq!(judge_sso_subject(None, false), SsoDecision::Refuse);
    assert_eq!(
        judge_sso_subject(Some(sso_user(true, "standard")), false),
        SsoDecision::Existing(sso_user(true, "standard"))
    );
    assert_eq!(provisioned_username("alice"), "sso:alice");
}

#[test]
fn sso_accounts_give_a_principal_unless_disabled() {
    let principal = sso_principal(sso_user(true, "read_only")).unwrap().unwrap();
    assert_eq!(principal.user_id, 5);
    assert_eq!(principal.role, Role::ReadOnly);
    assert_eq!(principal.source, AuthSource::Sso);
    assert_eq!(principal.token, "");
    assert_eq!(principal.expires_at, None);
    assert_eq!(sso_principal(sso_user(false, "admin")), Ok(None));
    assert_eq!(sso_principal(sso_user(true, "boss")), Err(CatalogError::InvalidStoredRole));
}

#[test]
fn launch_prefers_the_first_available_path() {
    let availability = launch_availability(vec![
        "/library/b/Rayman 2.chd".into(),
        "/library/a/Rayman 2.chd".into(),
        "/library/c/Rayman 2.chd".into(),
    ]);
    assert!(availability.available);
    assert_eq!(availability.location_count, 3);
    assert_eq!(availability.preferred_path.as_deref(), Some("/library/a/Rayman 2.chd"));

    let none = launch_availability(vec![]);
    assert!(!none.available);
    assert_eq!(none.location_count, 0);
    assert_eq!(none.preferred_path, None);
}

#[test]
fn root_scope_drops_trailing_slashes() {
    assert_eq!(root_scope("/mnt/roms//"), ("/mnt/roms".to_string(), "/mnt/roms/".to_string()));
    assert_eq!(root_scope("/mnt/roms"), ("/mnt/roms".to_string(), "/mnt/roms/".to_string()));
}
