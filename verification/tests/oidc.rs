use base64::Engine;
use monolith::auth::{AuthMode, AuthPrincipal, AuthSource, Role, VerifiedOidcIdentity};
use monolith::backend::{next_auth_step, sso_account_outcome, ApiError, AuthStep};
use monolith::backend_config::OidcConfig;
use monolith::oidc::{identity_from_claims, verify_oidc_claims, ClaimValue, OidcError};

fn segment(json: &str) -> String {
    base64::engine::general_purpose::URL_SAFE_NO_PAD.encode(json.as_bytes())
}

fn token(header: &str) -> String {
    format!("{}.{}.{}", segment(header), segment(r#"{"sub":"s","exp":1}"#), "c2ln")
}

fn config() -> OidcConfig {
    OidcConfig {
        issuer: Some("https://sso.example.test/realms/monolith".into()),
        audience: Some("monolith".into()),
        jwks_url: Some("https://sso.example.test/jwks".into()),
        auto_provision: false,
    }
}

#[test]
fn unreadable_header_is_refused() {
    assert_eq!(verify_oidc_claims("pas-un-jeton", "{}", &config()), Err(OidcError::InvalidHeader));
}

#[test]
fn token_without_key_identifier_is_refused() {
    let t = token(r#"{"alg":"RS256","typ":"JWT"}"#);
    assert_eq!(verify_oidc_claims(&t, r#"{"keys":[]}"#, &config()), Err(OidcError::MissingKid));
}

#[test]
fn unpublished_key_and_missing_settings_are_refused() {
    let t = token(r#"{"alg":"RS256","typ":"JWT","kid":"k1"}"#);
    assert_eq!(verify_oidc_claims(&t, r#"{"keys":[]}"#, &config()), Err(OidcError::UnknownKey));
    let mut no_url = config();
    no_url.jwks_url = None;
    assert_eq!(verify_oidc_claims(&t, r#"{"keys":[]}"#, &no_url), Err(OidcError::MissingJwksUrl));
}

fn principal() -> AuthPrincipal {
    AuthPrincipal {
        user_id: 4,
        username: "alice".into(),
        role: Role::Standard,
        source: AuthSource::Local,
        token: "t".into(),
        expires_at: Some(10),
    }
}

fn identity() -> VerifiedOidcIdentity {
    VerifiedOidcIdentity { subject: "sub".into(), username: "alice".into(), role: Role::ReadOnly, expires_at: 99 }
}

#[test]
fn local_sessions_are_tried_before_oidc() {
    assert_eq!(next_auth_step(AuthMode::Hybrid, None, None), AuthStep::LookUpLocalSession);
    assert_eq!(
        next_auth_step(AuthMode::Hybrid, Some(Some(principal())), Some(Err(()))),
        AuthStep::Accept(principal())
    );
    assert_eq!(next_auth_step(AuthMode::Hybrid, Some(None), None), AuthStep::VerifyOidcToken);
    assert_eq!(
        next_auth_step(AuthMode::Hybrid, Some(None), Some(Err(()))),
        AuthStep::Refuse(ApiError::InvalidSsoToken)
    );
    assert_eq!(
        next_auth_step(AuthMode::Sso, None, Some(Ok(identity()))),
        AuthStep::ResolveSsoAccount(identity())
    );
    assert_eq!(next_auth_step(AuthMode::Local, Some(None), None), AuthStep::Refuse(ApiError::InvalidToken));
}

#[test]
fn sso_account_carries_the_token_or_is_refused() {
    let mut account = principal();
    account.source = AuthSource::Sso;
    let p = sso_account_outcome(Some(account), "jwt", &identity()).unwrap();
    assert_eq!(p.token, "jwt");
    assert_eq!(p.expires_at, Some(99));
    assert_eq!(sso_account_outcome(None, "jwt", &identity()), Err(ApiError::SsoUserNotProvisioned));
}

#[test]
fn claims_give_the_identity() {
    let id = identity_from_claims(
        Some(ClaimValue::Text("sub-1".into())),
        Some(ClaimValue::Number(Some(1_700))),
        Some(ClaimValue::Text("alice".into())),
        Some(ClaimValue::Text("admin".into())),
    )
    .unwrap();
    assert_eq!(id.subject, "sub-1");
    assert_eq!(id.username, "alice");
    assert_eq!(id.role, Role::Admin);
    assert_eq!(id.expires_at, 1_700);

    let id = identity_from_claims(
        Some(ClaimValue::Text("sub-2".into())),
        Some(ClaimValue::Number(Some(5))),
        Some(ClaimValue::Null),
        Some(ClaimValue::Absent),
    )
    .unwrap();
    assert_eq!(id.username, "sub-2");
    assert_eq!(id.role, Role::ReadOnly);
}

#[test]
fn claims_of_the_wrong_kind_are_invalid() {
    let text = |v: &str| Some(ClaimValue::Text(v.into()));
    assert_eq!(
        identity_from_claims(None, Some(ClaimValue::Number(Some(1))), None, None),
        Err(OidcError::InvalidClaims)
    );
    assert_eq!(
        identity_from_claims(text("s"), Some(ClaimValue::Number(None)), text("a"), None),
        Err(OidcError::InvalidClaims)
    );
    assert_eq!(
        identity_from_claims(text("s"), Some(ClaimValue::Absent), text("a"), None),
        Err(OidcError::InvalidClaims)
    );
    assert_eq!(
        identity_from_claims(text("s"), Some(ClaimValue::Number(Some(1))), Some(ClaimValue::Bool(true)), None),
        Err(OidcError::InvalidClaims)
    );
    assert_eq!(
        identity_from_claims(text("s"), Some(ClaimValue::Number(Some(1))), None, Some(ClaimValue::List(vec![]))),
        Err(OidcError::InvalidClaims)
    );
}

const SECRET: &[u8] = b"secret-key-for-tests";

fn jwks() -> String {
    format!(
        r#"{{"keys":[{{"kty":"oct","kid":"k1","alg":"HS256","k":"{}"}}]}}"#,
        base64::engine::general_purpose::URL_SAFE_NO_PAD.encode(SECRET)
    )
}

fn signed(claims: &str) -> String {
    let mut header = jsonwebtoken::Header::new(jsonwebtoken::Algorithm::HS256);
    header.kid = Some("k1".into());
    let claims: serde_json::Value = serde_json::from_str(claims).unwrap();
    jsonwebtoken::encode(&header, &claims, &jsonwebtoken::EncodingKey::from_secret(SECRET)).unwrap()
}

fn future() -> i64 {
    let now = std::time::SystemTime::now().duration_since(std::time::UNIX_EPOCH).unwrap().as_secs() as i64;
    now + 3_600
}

#[test]
fn signed_token_with_the_configured_issuer_and_audience_gives_its_identity() {
    let exp = future();
    let t = signed(&format!(
        r#"{{"sub":"sub-9","exp":{exp},"iss":"https://sso.example.test/realms/monolith","aud":"monolith","preferred_username":"alice","role":"standard"}}"#
    ));
    let id = verify_oidc_claims(&t, &jwks(), &config()).unwrap();
    assert_eq!(id.subject, "sub-9");
    assert_eq!(id.username, "alice");
    assert_eq!(id.role, Role::Standard);
    assert_eq!(id.expires_at, exp);
}

#[test]
fn wrong_audience_issuer_or_signature_is_an_invalid_token() {
    let exp = future();
    let wrong_aud = signed(&format!(
        r#"{{"sub":"s","exp":{exp},"iss":"https://sso.example.test/realms/monolith","aud":"other"}}"#
    ));
    assert_eq!(verify_oidc_claims(&wrong_aud, &jwks(), &config()), Err(OidcError::InvalidToken));
    let wrong_iss = signed(&format!(r#"{{"sub":"s","exp":{exp},"iss":"https://evil","aud":"monolith"}}"#));
    assert_eq!(verify_oidc_claims(&wrong_iss, &jwks(), &config()), Err(OidcError::InvalidToken));
    let expired = signed(r#"{"sub":"s","exp":1000,"iss":"https://sso.example.test/realms/monolith","aud":"monolith"}"#);
    assert_eq!(verify_oidc_claims(&expired, &jwks(), &config()), Err(OidcError::InvalidToken));
}

#[test]
fn verified_token_without_subject_has_invalid_claims() {
    let exp = future();
    let t = signed(&format!(r#"{{"exp":{exp},"iss":"https://sso.example.test/realms/monolith","aud":"monolith"}}"#));
    assert_eq!(verify_oidc_claims(&t, &jwks(), &config()), Err(OidcError::InvalidClaims));
}

#[test]
fn token_signed_with_another_key_is_an_invalid_token() {
    let exp = future();
    let claims: serde_json::Value = serde_json::from_str(&format!(
        r#"{{"sub":"s","exp":{exp},"iss":"https://sso.example.test/realms/monolith","aud":"monolith"}}"#
    ))
    .unwrap();
    let mut header = jsonwebtoken::Header::new(jsonwebtoken::Algorithm::HS256);
    header.kid = Some("k1".into());
    let forged =
        jsonwebtoken::encode(&header, &claims, &jsonwebtoken::EncodingKey::from_secret(b"another-secret")).unwrap();
    assert_eq!(verify_oidc_claims(&forged, &jwks(), &config()), Err(OidcError::InvalidToken));
}
