//! The backend API's decisions: its answers, who may do what, and the errors it reports.

use vstd::prelude::*;
use vstd::string::*;
use crate::auth::{AuthMode, AuthPrincipal, AuthSource, Role, VerifiedOidcIdentity, mode_accepts, role_can_write};
use crate::backend_config::BackendConfig;
use crate::text::{has_prefix, str_eq};

verus! {

/// The answer of the health route.
#[derive(Debug, Clone, PartialEq, Eq)]
pub struct HealthResponse {
    pub status: String,
    pub auth_mode: AuthMode,
}

/// A local sign-in request.
#[derive(Debug, Clone, PartialEq, Eq)]
pub struct LoginRequest {
    pub username: String,
    pub password: String,
}

/// A local session granted by the backend.
#[derive(Debug, Clone, PartialEq, Eq)]
pub struct LoginResponse {
    pub access_token: String,
    pub token_type: String,
    pub user_id: i64,
    pub username: String,
    pub role: Role,
    pub expires_at: i64,
}

/// Who a bearer token authenticates.
#[derive(Debug, Clone, PartialEq, Eq)]
pub struct IdentityResponse {
    pub user_id: i64,
    pub username: String,
    pub role: Role,
    pub source: AuthSource,
    pub expires_at: Option<i64>,
}

/// The errors that the API answers with.
#[derive(Debug, Clone, Copy, PartialEq, Eq, Structural)]
pub enum ApiError {
    LocalAuthDisabled,
    InvalidCredentials,
    MissingBearer,
    InvalidSsoToken,
    SsoUserNotProvisioned,
    InvalidToken,
    RomDownloadForbidden,
    RomUnavailable,
    RomChanged,
    ReadOnly,
    ForeignProfile,
    Internal,
}

pub open spec fn api_error_status(e: ApiError) -> u16 {
    match e {
        ApiError::LocalAuthDisabled => 404,
        ApiError::InvalidCredentials => 401,
        ApiError::MissingBearer => 401,
        ApiError::InvalidSsoToken => 401,
        ApiError::SsoUserNotProvisioned => 403,
        ApiError::InvalidToken => 401,
        ApiError::RomDownloadForbidden => 403,
        ApiError::RomUnavailable => 404,
        ApiError::RomChanged => 409,
        ApiError::ReadOnly => 403,
        ApiError::ForeignProfile => 403,
        ApiError::Internal => 500,
    }
}

pub open spec fn api_error_code(e: ApiError) -> Seq<char> {
    match e {
        ApiError::LocalAuthDisabled => "local_auth_disabled"@,
        ApiError::InvalidCredentials => "invalid_credentials"@,
        ApiError::MissingBearer => "missing_bearer"@,
        ApiError::InvalidSsoToken => "invalid_sso_token"@,
        ApiError::SsoUserNotProvisioned => "sso_user_not_provisioned"@,
        ApiError::InvalidToken => "invalid_token"@,
        ApiError::RomDownloadForbidden => "rom_download_forbidden"@,
        ApiError::RomUnavailable => "rom_unavailable"@,
        ApiError::RomChanged => "rom_changed"@,
        ApiError::ReadOnly => "read_only"@,
        ApiError::ForeignProfile => "foreign_profile"@,
        ApiError::Internal => "internal_error"@,
    }
}

impl ApiError {
    /// The HTTP status of the answer.
    pub fn status(&self) -> (r: u16)
        ensures
            r == api_error_status(*self),
    {
        match self {
            ApiError::LocalAuthDisabled => 404,
            ApiError::InvalidCredentials => 401,
            ApiError::MissingBearer => 401,
            ApiError::InvalidSsoToken => 401,
            ApiError::SsoUserNotProvisioned => 403,
            ApiError::InvalidToken => 401,
            ApiError::RomDownloadForbidden => 403,
            ApiError::RomUnavailable => 404,
            ApiError::RomChanged => 409,
            ApiError::ReadOnly => 403,
            ApiError::ForeignProfile => 403,
            ApiError::Internal => 500,
        }
    }

    /// The error code in the answer's body.
    pub fn code(&self) -> (r: String)
        ensures
            r@ == api_error_code(*self),
    {
        String::from_str(
            match self {
                ApiError::LocalAuthDisabled => "local_auth_disabled",
                ApiError::InvalidCredentials => "invalid_credentials",
                ApiError::MissingBearer => "missing_bearer",
                ApiError::InvalidSsoToken => "invalid_sso_token",
                ApiError::SsoUserNotProvisioned => "sso_user_not_provisioned",
                ApiError::InvalidToken => "invalid_token",
                ApiError::RomDownloadForbidden => "rom_download_forbidden",
                ApiError::RomUnavailable => "rom_unavailable",
                ApiError::RomChanged => "rom_changed",
                ApiError::ReadOnly => "read_only",
                ApiError::ForeignProfile => "foreign_profile",
                ApiError::Internal => "internal_error",
            },
        )
    }
}

/// The backend's authentication mode.
pub fn authentication_mode(config: &BackendConfig) -> (r: AuthMode)
    ensures
        r == config.auth.mode,
{
    config.auth.mode
}

/// The health answer: the backend is up and announces its mode.
pub fn health_response(mode: AuthMode) -> (r: HealthResponse)
    ensures
        r.status@ == "ok"@,
        r.auth_mode == mode,
{
    HealthResponse { status: String::from_str("ok"), auth_mode: mode }
}

/// Local sign-in is offered only where the mode accepts local accounts.
pub fn require_local_auth(mode: AuthMode) -> (r: Result<(), ApiError>)
    ensures
        mode_accepts(mode, AuthSource::Local) ==> r is Ok,
        !mode_accepts(mode, AuthSource::Local) ==> r == Err::<(), ApiError>(ApiError::LocalAuthDisabled),
{
    if mode.accepts(AuthSource::Local) {
        Ok(())
    } else {
        Err(ApiError::LocalAuthDisabled)
    }
}

/// The answer to a successful local sign-in; a local session always expires.
pub fn login_response(principal: AuthPrincipal) -> (r: LoginResponse)
    requires
        principal.expires_at is Some,
    ensures
        r.access_token == principal.token,
        r.token_type@ == "Bearer"@,
        r.user_id == principal.user_id,
        r.username == principal.username,
        r.role == principal.role,
        Some(r.expires_at) == principal.expires_at,
{
    let expires_at = match principal.expires_at {
        Some(t) => t,
        None => 0,
    };
    LoginResponse {
        access_token: principal.token,
        token_type: String::from_str("Bearer"),
        user_id: principal.user_id,
        username: principal.username,
        role: principal.role,
        expires_at,
    }
}

/// Who the token authenticates, without the token itself.
pub fn identity_response(principal: AuthPrincipal) -> (r: IdentityResponse)
    ensures
        r.user_id == principal.user_id,
        r.username == principal.username,
        r.role == principal.role,
        r.source == principal.source,
        r.expires_at == principal.expires_at,
{
    IdentityResponse {
        user_id: principal.user_id,
        username: principal.username,
        role: principal.role,
        source: principal.source,
        expires_at: principal.expires_at,
    }
}

pub const BEARER_PREFIX: &'static str = "Bearer ";

/// The token of an `Authorization: Bearer <token>` header.
pub fn bearer_token(authorization: Option<&str>) -> (r: Result<String, ApiError>)
    ensures
        match authorization {
            Some(h) => if has_prefix(h@, BEARER_PREFIX@) {
                r matches Ok(t) && t@ == h@.subrange(BEARER_PREFIX@.len() as int, h@.len() as int)
            } else {
                r == Err::<String, ApiError>(ApiError::MissingBearer)
            },
            None => r == Err::<String, ApiError>(ApiError::MissingBearer),
        },
{
    match authorization {
        None => Err(ApiError::MissingBearer),
        Some(h) => {
            if crate::text::starts_with(h, BEARER_PREFIX) {
                let n = h.unicode_len();
                let m = BEARER_PREFIX.unicode_len();
                Ok(String::from_str(h.substring_char(m, n)))
            } else {
                Err(ApiError::MissingBearer)
            }
        },
    }
}

/// A principal authenticated by an OIDC token carries that token and its expiry.
pub fn with_sso_token(principal: AuthPrincipal, token: &str, expires_at: i64) -> (r: AuthPrincipal)
    ensures
        r.user_id == principal.user_id,
        r.username == principal.username,
        r.role == principal.role,
        r.source == principal.source,
        r.token@ == token@,
        r.expires_at == Some(expires_at),
{
    AuthPrincipal {
        user_id: principal.user_id,
        username: principal.username,
        role: principal.role,
        source: principal.source,
        token: String::from_str(token),
        expires_at: Some(expires_at),
    }
}

/// Only accounts that may write download ROMs.
pub fn authorize_rom_download(role: Role) -> (r: Result<(), ApiError>)
    ensures
        role_can_write(role) ==> r is Ok,
        !role_can_write(role) ==> r == Err::<(), ApiError>(ApiError::RomDownloadForbidden),
{
    if role.can_write() {
        Ok(())
    } else {
        Err(ApiError::RomDownloadForbidden)
    }
}

/// The name under which a ROM is served: its file name, which must be non-empty and hold
/// no line break.
pub fn served_file_name(file_name: Option<&str>) -> (r: Result<String, ApiError>)
    ensures
        match file_name {
            Some(n) => if n@.len() > 0 && !n@.contains('\r') && !n@.contains('\n') {
                r matches Ok(s) && s@ == n@
            } else {
                r == Err::<String, ApiError>(ApiError::RomUnavailable)
            },
            None => r == Err::<String, ApiError>(ApiError::RomUnavailable),
        },
{
    match file_name {
        None => Err(ApiError::RomUnavailable),
        Some(n) => {
            if n.unicode_len() > 0 && !crate::text::contains_char(n, '\r') && !crate::text::contains_char(n, '\n') {
                Ok(String::from_str(n))
            } else {
                Err(ApiError::RomUnavailable)
            }
        },
    }
}

/// A ROM whose size differs from the catalog's has changed since the last scan.
pub fn check_rom_size(actual: usize, expected: u64) -> (r: Result<(), ApiError>)
    ensures
        actual == expected ==> r is Ok,
        actual != expected ==> r == Err::<(), ApiError>(ApiError::RomChanged),
{
    if actual as u64 == expected {
        Ok(())
    } else {
        Err(ApiError::RomChanged)
    }
}

/// Who may publish an override for `user_id`: an account that may write, for its own
/// profile, or an administrator for any profile.
pub fn authorize_override(principal: &AuthPrincipal, user_id: i64) -> (r: Result<(), ApiError>)
    ensures
        !role_can_write(principal.role) ==> r == Err::<(), ApiError>(ApiError::ReadOnly),
        role_can_write(principal.role) && principal.user_id != user_id && principal.role != Role::Admin
            ==> r == Err::<(), ApiError>(ApiError::ForeignProfile),
        role_can_write(principal.role) && (principal.user_id == user_id || principal.role == Role::Admin)
            ==> r is Ok,
{
    if !principal.role.can_write() {
        return Err(ApiError::ReadOnly);
    }
    if principal.user_id != user_id && principal.role != Role::Admin {
        return Err(ApiError::ForeignProfile);
    }
    Ok(())
}


/// The next thing to do to authenticate a bearer token.
#[derive(Debug, Clone, PartialEq, Eq)]
pub enum AuthStep {
    /// Look the token up among the local sessions.
    LookUpLocalSession,
    /// Verify the token as an OIDC token.
    VerifyOidcToken,
    /// Find or provision the account of this verified identity.
    ResolveSsoAccount(VerifiedOidcIdentity),
    /// The token authenticates this principal.
    Accept(AuthPrincipal),
    /// The token is refused with this error.
    Refuse(ApiError),
}

/// A local session is tried first where the mode accepts local accounts, then an OIDC
/// token where it accepts SSO; a token that neither accepts is invalid. `local` is the
/// outcome of the session lookup once it was made, `oidc` that of the OIDC verification.
pub open spec fn auth_step(
    mode: AuthMode,
    local: Option<Option<AuthPrincipal>>,
    oidc: Option<Result<VerifiedOidcIdentity, ()>>,
) -> AuthStep {
    if mode_accepts(mode, AuthSource::Local) && local is None {
        AuthStep::LookUpLocalSession
    } else if mode_accepts(mode, AuthSource::Local) && local matches Some(Some(p)) {
        AuthStep::Accept(local->0->0)
    } else if mode_accepts(mode, AuthSource::Sso) {
        match oidc {
            None => AuthStep::VerifyOidcToken,
            Some(Err(())) => AuthStep::Refuse(ApiError::InvalidSsoToken),
            Some(Ok(identity)) => AuthStep::ResolveSsoAccount(identity),
        }
    } else {
        AuthStep::Refuse(ApiError::InvalidToken)
    }
}

/// Decides the next step of a bearer authentication from what the earlier steps gave.
pub fn next_auth_step(
    mode: AuthMode,
    local: Option<Option<AuthPrincipal>>,
    oidc: Option<Result<VerifiedOidcIdentity, ()>>,
) -> (r: AuthStep)
    ensures
        r == auth_step(mode, local, oidc),
{
    let accepts_local = mode.accepts(AuthSource::Local);
    if accepts_local {
        match local {
            None => {
                return AuthStep::LookUpLocalSession;
            },
            Some(Some(p)) => {
                return AuthStep::Accept(p);
            },
            Some(None) => {},
        }
    }
    if mode.accepts(AuthSource::Sso) {
        match oidc {
            None => AuthStep::VerifyOidcToken,
            Some(Err(())) => AuthStep::Refuse(ApiError::InvalidSsoToken),
            Some(Ok(identity)) => AuthStep::ResolveSsoAccount(identity),
        }
    } else {
        AuthStep::Refuse(ApiError::InvalidToken)
    }
}

/// A valid local session authenticates its token whatever the OIDC provider answers, or
/// whether it answers at all: local accounts keep working during an SSO outage.
pub proof fn lemma_local_session_before_oidc(
    mode: AuthMode,
    principal: AuthPrincipal,
    oidc: Option<Result<VerifiedOidcIdentity, ()>>,
)
    requires
        mode_accepts(mode, AuthSource::Local),
    ensures
        auth_step(mode, Some(Some(principal)), oidc) == AuthStep::Accept(principal),
        auth_step(mode, None, oidc) == AuthStep::LookUpLocalSession,
{
}

/// The principal of a verified OIDC identity: its account, carrying the token and its
/// expiry, or a refusal when the account was not provisioned.
pub fn sso_account_outcome(account: Option<AuthPrincipal>, token: &str, identity: &VerifiedOidcIdentity) -> (r:
    Result<AuthPrincipal, ApiError>)
    ensures
        account is None ==> r == Err::<AuthPrincipal, ApiError>(ApiError::SsoUserNotProvisioned),
        account matches Some(p) ==> r matches Ok(q) && {
            &&& q.user_id == p.user_id
            &&& q.username == p.username
            &&& q.role == p.role
            &&& q.source == p.source
            &&& q.token@ == token@
            &&& q.expires_at == Some(identity.expires_at)
        },
{
    match account {
        None => Err(ApiError::SsoUserNotProvisioned),
        Some(p) => Ok(with_sso_token(p, token, identity.expires_at)),
    }
}

} // verus!
