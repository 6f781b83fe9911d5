use monolith::auth::{
    generate_session_token, hash_password, oidc_identity_from_claims, token_fingerprint, verify_password,
    AuthMode, AuthPrincipal, AuthSource, Role,
};
use monolith::backend_config::{AuthConfig, BackendConfig, ConfigError, OidcConfig};
use monolith::db::{
    judge_local_login, principal_from_session, session_expiry, LocalLoginDecision, LocalUserRecord,
    SessionRecord,
};

#[test]
fn configuration_with_hybrid_auth_is_valid() {
    let config = BackendConfig {
        auth: AuthConfig {
            mode: AuthMode::Hybrid,
            oidc: OidcConfig {
                issuer: Some("https://sso.example.test/realms/monolith".into()),
                audience: Some("monolith".into()),
                jwks_url: Some("https://sso.example.test/jwks".into()),
                auto_provision: false,
            },
            ..AuthConfig::default()
        },
        ..BackendConfig::default()
    };
    assert_eq!(config.auth.mode, AuthMode::Hybrid);
    assert_eq!(config.auth.oidc.audience.as_deref(), Some("monolith"));
    config.validate().unwrap();
}

#[test]
fn sso_mode_rejects_an_incomplete_oidc_configuration() {
    let config = BackendConfig {
        auth: AuthConfig {
            mode: AuthMode::Sso,
            ..AuthConfig::default()
        },
        ..BackendConfig::default()
    };
    let error = config.validate().unwrap_err().message();
    assert!(error.contains("issuer"));
}

#[test]
fn oidc_settings_are_checked_in_order() {
    let mut config = BackendConfig::default();
    config.auth.mode = AuthMode::Hybrid;
    config.auth.oidc.issuer = Some("https://sso".into());
    assert_eq!(config.validate().unwrap_err(), ConfigError::MissingOidcAudience);
    config.auth.oidc.audience = Some("monolith".into());
    assert_eq!(config.validate().unwrap_err(), ConfigError::MissingOidcJwksUrl);
    config.auth.oidc.jwks_url = Some("https://sso/jwks".into());
    assert!(config.validate().is_ok());
}

#[test]
fn local_mode_needs_no_oidc_settings() {
    assert!(BackendConfig::default().validate().is_ok());
}

#[test]
fn empty_database_path_and_non_positive_ttl_are_refused() {
    let mut config = BackendConfig::default();
    config.database_path = "  ".into();
    assert_eq!(config.validate().unwrap_err(), ConfigError::EmptyDatabasePath);
    let mut config = BackendConfig::default();
    config.auth.session_ttl_seconds = 0;
    assert_eq!(config.validate().unwrap_err(), ConfigError::NonPositiveSessionTtl);
}

#[test]
fn local_password_login_creates_a_verifiable_opaque_session() {
    let password_hash = hash_password("correct horse battery staple").unwrap();
    let record = LocalUserRecord {
        user_id: 1,
        password_hash: password_hash.clone(),
        role: "standard".into(),
        enabled: true,
    };

    let decision = judge_local_login(Some(record.clone()), "correct horse battery staple").unwrap();
    assert_eq!(decision, LocalLoginDecision::Accepted { user_id: 1, role: Role::Standard });

    let token = generate_session_token();
    let expires_at = session_expiry(1_000, 3600);
    let principal = principal_from_session(
        Some(SessionRecord {
            user_id: 1,
            username: "alice".into(),
            role: "standard".into(),
            expires_at,
        }),
        &token,
    )
    .unwrap()
    .unwrap();
    assert_eq!(principal.user_id, 1);
    assert_eq!(principal.source, AuthSource::Local);
    assert_eq!(principal.role, Role::Standard);
    assert_eq!(principal.token, token);
    assert_eq!(principal.expires_at, Some(4_600));

    assert_eq!(
        judge_local_login(Some(record), "incorrect").unwrap(),
        LocalLoginDecision::Refused
    );
}

#[test]
fn disabled_local_user_cannot_authenticate() {
    let record = LocalUserRecord {
        user_id: 2,
        password_hash: hash_password("secret-123").unwrap(),
        role: "admin".into(),
        enabled: false,
    };
    assert_eq!(
        judge_local_login(Some(record), "secret-123").unwrap(),
        LocalLoginDecision::Refused
    );
}

#[test]
fn unknown_local_user_cannot_authenticate() {
    assert_eq!(judge_local_login(None, "secret-123").unwrap(), LocalLoginDecision::Refused);
    assert!(principal_from_session(None, "token").unwrap().is_none());
}

#[test]
fn hybrid_policy_accepts_local_and_sso_principals() {
    assert!(AuthMode::Hybrid.accepts(AuthSource::Local));
    assert!(AuthMode::Hybrid.accepts(AuthSource::Sso));
    assert!(AuthMode::Local.accepts(AuthSource::Local));
    assert!(!AuthMode::Local.accepts(AuthSource::Sso));

    let principal = AuthPrincipal {
        user_id: 42,
        username: "oidc:subject".into(),
        role: Role::ReadOnly,
        source: AuthSource::Sso,
        token: String::new(),
        expires_at: None,
    };
    assert_eq!(principal.role, Role::ReadOnly);
}

#[test]
fn sso_policy_refuses_local_principals() {
    assert!(AuthMode::Sso.accepts(AuthSource::Sso));
    assert!(!AuthMode::Sso.accepts(AuthSource::Local));
}

#[test]
fn roles_read_back_from_their_names() {
    for role in [Role::ReadOnly, Role::Standard, Role::Admin] {
        assert_eq!(Role::parse(role.as_str()), Some(role));
    }
    assert_eq!(Role::parse("root"), None);
    assert!(!Role::ReadOnly.can_write());
    assert!(Role::Standard.can_write());
    assert!(Role::Admin.can_write());
}

#[test]
fn stored_hash_verifies_only_its_password() {
    let encoded = hash_password("mot de passe").unwrap();
    assert!(encoded.starts_with("$argon2id$"));
    assert_ne!(encoded, "mot de passe");
    assert!(verify_password("mot de passe", &encoded));
    assert!(!verify_password("autre", &encoded));
    assert!(!verify_password("mot de passe", "pas un hash"));
}

#[test]
fn token_fingerprint_is_the_hex_sha256_of_the_token() {
    assert_eq!(
        token_fingerprint("abc"),
        "ba7816bf8f01cfea414140de5dae2223b00361a396177a9cb410ff61f20015ad"
    );
    assert_eq!(
        token_fingerprint(""),
        "e3b0c44298fc1c149afbf4c8996fb92427ae41e4649b934ca495991b7852b855"
    );
}

#[test]
fn session_tokens_are_43_url_safe_characters_and_differ() {
    let first = generate_session_token();
    let second = generate_session_token();
    assert_eq!(first.len(), 43);
    assert!(first.chars().all(|c| c.is_ascii_alphanumeric() || c == '-' || c == '_'));
    assert_ne!(first, second);
}

#[test]
fn oidc_claims_choose_the_preferred_name_and_default_to_read_only() {
    let identity = oidc_identity_from_claims("sub-1".into(), 99, Some("alice".into()), Some("admin".into()));
    assert_eq!(identity.username, "alice");
    assert_eq!(identity.role, Role::Admin);
    assert_eq!(identity.subject, "sub-1");
    assert_eq!(identity.expires_at, 99);
    let identity = oidc_identity_from_claims("sub-2".into(), 5, None, Some("superuser".into()));
    assert_eq!(identity.username, "sub-2");
    assert_eq!(identity.role, Role::ReadOnly);
}
