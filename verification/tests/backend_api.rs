use monolith::auth::{AuthMode, AuthPrincipal, AuthSource, Role};
use monolith::backend::{
    authorize_override, authorize_rom_download, bearer_token, check_rom_size, health_response,
    identity_response, login_response, require_local_auth, served_file_name, with_sso_token, ApiError,
};
use monolith::backend_client::{
    check_rom_payload, downloaded_file_name, expected_sha256, partial_file_name, BackendClient, ClientError,
};

fn principal(role: Role, user_id: i64) -> AuthPrincipal {
    AuthPrincipal {
        user_id,
        username: "alice".into(),
        role,
        source: AuthSource::Local,
        token: "opaque".into(),
        expires_at: Some(1_000),
    }
}

#[test]
fn health_announces_the_mode() {
    let health = health_response(AuthMode::Hybrid);
    assert_eq!(health.status, "ok");
    assert_eq!(health.auth_mode, AuthMode::Hybrid);
}

#[test]
fn local_login_is_refused_in_sso_mode() {
    assert_eq!(require_local_auth(AuthMode::Sso), Err(ApiError::LocalAuthDisabled));
    assert_eq!(ApiError::LocalAuthDisabled.status(), 404);
    assert!(require_local_auth(AuthMode::Local).is_ok());
    assert!(require_local_auth(AuthMode::Hybrid).is_ok());
}

#[test]
fn login_response_exposes_expiration_and_identity() {
    let response = login_response(principal(Role::Standard, 3));
    assert_eq!(response.access_token, "opaque");
    assert_eq!(response.token_type, "Bearer");
    assert_eq!(response.expires_at, 1_000);
    let identity = identity_response(principal(Role::Standard, 3));
    assert_eq!(identity.user_id, 3);
    assert_eq!(identity.source, AuthSource::Local);
    assert_eq!(identity.expires_at, Some(1_000));
}

#[test]
fn bearer_header_gives_its_token() {
    assert_eq!(bearer_token(Some("Bearer abc")), Ok("abc".to_string()));
    assert_eq!(bearer_token(Some("Basic abc")), Err(ApiError::MissingBearer));
    assert_eq!(bearer_token(None), Err(ApiError::MissingBearer));
    assert_eq!(ApiError::MissingBearer.status(), 401);
    assert_eq!(ApiError::MissingBearer.code(), "missing_bearer");
}

#[test]
fn sso_principal_takes_the_token_and_its_expiry() {
    let p = with_sso_token(principal(Role::Admin, 9), "jwt", 77);
    assert_eq!(p.token, "jwt");
    assert_eq!(p.expires_at, Some(77));
    assert_eq!(p.user_id, 9);
}

#[test]
fn read_only_account_neither_publishes_overrides_nor_downloads_roms() {
    assert_eq!(authorize_rom_download(Role::ReadOnly), Err(ApiError::RomDownloadForbidden));
    assert!(authorize_rom_download(Role::Standard).is_ok());
    assert_eq!(authorize_override(&principal(Role::ReadOnly, 1), 1), Err(ApiError::ReadOnly));
    assert_eq!(authorize_override(&principal(Role::Standard, 1), 2), Err(ApiError::ForeignProfile));
    assert!(authorize_override(&principal(Role::Standard, 1), 1).is_ok());
    assert!(authorize_override(&principal(Role::Admin, 1), 2).is_ok());
}

#[test]
fn served_rom_needs_a_plain_name_and_its_recorded_size() {
    assert_eq!(served_file_name(Some("a.zip")), Ok("a.zip".to_string()));
    assert_eq!(served_file_name(Some("a\r\nb")), Err(ApiError::RomUnavailable));
    assert_eq!(served_file_name(None), Err(ApiError::RomUnavailable));
    assert!(check_rom_size(10, 10).is_ok());
    assert_eq!(check_rom_size(9, 10), Err(ApiError::RomChanged));
}

#[test]
fn backend_client_builds_its_routes() {
    let client = BackendClient::new("http://127.0.0.1:8787//").unwrap();
    assert_eq!(client.base_url(), "http://127.0.0.1:8787");
    assert_eq!(client.health_url(), "http://127.0.0.1:8787/api/v1/health");
    assert_eq!(client.login_url(), "http://127.0.0.1:8787/api/v1/auth/login");
    assert_eq!(client.identity_url(), "http://127.0.0.1:8787/api/v1/auth/me");
    assert_eq!(client.catalog_url(), "http://127.0.0.1:8787/api/v1/catalog");
    assert_eq!(client.rom_url(10), "http://127.0.0.1:8787/api/v1/games/10/rom");
    assert_eq!(client.override_url(3, -4), "http://127.0.0.1:8787/api/v1/users/3/overrides/-4");
    assert_eq!(BackendClient::new("ftp://x").unwrap_err(), ClientError::InvalidBackendUrl);
    assert_eq!(ClientError::InvalidBackendUrl.message(), "URL backend invalide");
}

#[test]
fn downloaded_rom_names_and_temporary_names_are_checked() {
    assert_eq!(
        downloaded_file_name(Some("Global Gladiators (Europe).zip")),
        Ok("Global Gladiators (Europe).zip".to_string())
    );
    assert_eq!(
        partial_file_name("Global Gladiators (Europe).zip"),
        "Global Gladiators (Europe).zip.partial"
    );
    assert_eq!(partial_file_name("rom"), "rom.download.partial");
    assert_eq!(partial_file_name(".hidden"), ".hidden.download.partial");
    assert_eq!(downloaded_file_name(Some("../x.zip")), Err(ClientError::InvalidRomName));
    assert_eq!(downloaded_file_name(Some("")), Err(ClientError::InvalidRomName));
    assert_eq!(downloaded_file_name(None), Err(ClientError::InvalidRomName));
}

#[test]
fn rom_fingerprint_is_checked_against_the_announced_one() {
    let announced = "BA7816BF8F01CFEA414140DE5DAE2223B00361A396177A9CB410FF61F20015AD";
    let expected = expected_sha256(Some(announced)).unwrap();
    assert_eq!(expected, announced.to_ascii_lowercase());
    assert_eq!(check_rom_payload(b"abc", &expected), Ok(expected.clone()));
    assert_eq!(check_rom_payload(b"abd", &expected), Err(ClientError::RomFingerprintMismatch));
    assert_eq!(expected_sha256(Some("xyz")), Err(ClientError::InvalidRomFingerprint));
    assert_eq!(expected_sha256(None), Err(ClientError::InvalidRomFingerprint));
}
