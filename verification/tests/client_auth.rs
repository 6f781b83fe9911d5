use monolith::backend::IdentityResponse;
use monolith::client_auth::session_from_identity;
use monolith::backend::LoginResponse;
use monolith::client_auth::session_from_login;
use monolith::auth::{AuthMode, Role};
use monolith::client_auth::{AuthError, AuthState, ChannelPoll, ClientAuth};
use monolith::models::UserOverride;
use monolith::session_store::{judge_stored_session, ClientSession, SessionStore, SessionVerdict, StoredSession};

fn session() -> ClientSession {
    ClientSession {
        backend_url: "http://127.0.0.1:8787".into(),
        access_token: "restored-token".into(),
        user_id: 7,
        username: "guillaume".into(),
        role: Role::Standard,
        expires_at: 2_000,
    }
}

fn restored_at(now: i64) -> Option<ClientSession> {
    match judge_stored_session(StoredSession::Parsed(session()), now) {
        SessionVerdict::Restore(session) => Some(session),
        _ => None,
    }
}

fn client(restored: Option<ClientSession>) -> ClientAuth {
    ClientAuth::new(
        "http://127.0.0.1:8787".into(),
        SessionStore::new("session.json".into()),
        "cache.json".into(),
        restored,
    )
}

#[test]
fn unexpired_session_is_restored_without_network_access() {
    let auth = client(restored_at(1_000));
    assert_eq!(auth.state(), &AuthState::Authenticated(session()));
    assert_eq!(auth.authenticated_session(), Some(&session()));
}

#[test]
fn expired_session_is_not_restored() {
    let auth = client(restored_at(2_000));
    assert_eq!(auth.state(), &AuthState::SignedOut);
}

#[test]
fn logout_clears_memory_and_persisted_session() {
    let mut auth = client(restored_at(1_000));
    assert_eq!(auth.store().path(), "session.json");
    auth.logout();
    assert_eq!(auth.state(), &AuthState::SignedOut);
    assert!(auth.authenticated_session().is_none());
}

#[test]
fn policy_probe_asks_the_backend_once_at_a_time() {
    let mut auth = client(None);
    let url = auth.probe_policy().unwrap();
    assert!(url.starts_with("http://127.0.0.1:8787"));
    assert!(auth.probe_policy().is_err());
}

#[test]
fn local_login_runs_once_and_keeps_no_password_in_state() {
    let mut auth = client(None);
    let job = auth.begin_local_login("alice", "safe-password").unwrap();
    assert_eq!(auth.state(), &AuthState::Authenticating);
    assert_eq!(job.username, "alice");
    assert_eq!(
        auth.begin_local_login("alice", "safe-password").unwrap_err(),
        AuthError::LoginInProgress
    );
    auth.poll(ChannelPoll::Empty, ChannelPoll::Received(Ok(session())));
    assert_eq!(auth.state(), &AuthState::Authenticated(session()));
}

#[test]
fn failed_login_shows_the_error() {
    let mut auth = client(None);
    auth.begin_local_login("alice", "wrong").unwrap();
    auth.poll(ChannelPoll::Empty, ChannelPoll::Received(Err("Identifiants invalides".into())));
    assert_eq!(auth.state(), &AuthState::Error("Identifiants invalides".into()));
    auth.reset_error();
    assert_eq!(auth.state(), &AuthState::SignedOut);
}

#[test]
fn bearer_login_needs_a_token() {
    let mut auth = client(None);
    assert!(auth.begin_bearer_login("   ").is_err());
    let job = auth.begin_bearer_login(" abc ").unwrap();
    assert_eq!(job.token, "abc");
}

#[test]
fn offline_mode_keeps_the_user() {
    let mut auth = client(None);
    auth.continue_offline(7);
    assert_eq!(auth.state(), &AuthState::Offline { user_id: 7 });
    assert_eq!(auth.auth_mode(), None::<AuthMode>);
}

#[test]
fn override_publication_is_for_a_writing_account_and_its_own_profile() {
    let mut auth = client(restored_at(1_000));
    let own = UserOverride { user_id: 7, game_id: 3, description: Some("x".into()), cover_art: None };
    let other = UserOverride { user_id: 8, game_id: 3, description: None, cover_art: None };
    assert!(auth.begin_override_sync(other).is_err());
    auth.begin_override_sync(own.clone()).unwrap();
    assert!(auth.override_sync_in_progress());
    assert!(auth.begin_override_sync(own).is_err());
    assert_eq!(auth.poll_override_sync(ChannelPoll::Received(Ok(()))), Some(Ok(())));
    assert!(!auth.override_sync_in_progress());

    let mut read_only = session();
    read_only.role = Role::ReadOnly;
    let mut reader = ClientAuth::new(
        "http://127.0.0.1:8787".into(),
        SessionStore::new("session.json".into()),
        "cache.json".into(),
        Some(read_only),
    );
    assert!(reader
        .begin_override_sync(UserOverride { user_id: 7, game_id: 3, description: None, cover_art: None })
        .is_err());
}

#[test]
fn bearer_identity_gives_the_session() {
    let identity = IdentityResponse {
        user_id: 3,
        username: "bearer-user".into(),
        role: Role::ReadOnly,
        source: monolith::auth::AuthSource::Local,
        expires_at: Some(500),
    };
    let session = session_from_identity("http://127.0.0.1:8787", "abc", identity.clone()).unwrap();
    assert_eq!(session.username, "bearer-user");
    assert_eq!(session.role, Role::ReadOnly);
    assert_eq!(session.access_token, "abc");
    assert_eq!(session.expires_at, 500);
    let mut forever = identity;
    forever.expires_at = None;
    assert!(session_from_identity("http://127.0.0.1:8787", "abc", forever).is_none());
}

#[test]
fn local_login_session_is_the_backend_answer() {
    let session = session_from_login(
        "http://127.0.0.1:8787",
        LoginResponse {
            access_token: "opaque".into(),
            token_type: "Bearer".into(),
            user_id: 7,
            username: "alice".into(),
            role: Role::Standard,
            expires_at: 2_000,
        },
    );
    assert_eq!(session.access_token, "opaque");
    assert_eq!(session.backend_url, "http://127.0.0.1:8787");
    assert_eq!(session.expires_at, 2_000);
}
