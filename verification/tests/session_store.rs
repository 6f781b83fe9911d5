use monolith::auth::Role;
use monolith::session_store::{judge_stored_session, ClientSession, SessionStore, SessionVerdict, StoredSession};

fn session(expires_at: i64) -> ClientSession {
    ClientSession {
        backend_url: "http://127.0.0.1:8787".into(),
        access_token: "opaque-secret".into(),
        user_id: 42,
        username: "guillaume".into(),
        role: Role::Standard,
        expires_at,
    }
}

#[test]
fn saved_session_round_trips_before_expiration() {
    let expected = session(2_000);
    assert_eq!(
        judge_stored_session(StoredSession::Parsed(expected.clone()), 1_999),
        SessionVerdict::Restore(expected)
    );
}

#[test]
fn expired_session_is_rejected_and_deleted() {
    assert_eq!(
        judge_stored_session(StoredSession::Parsed(session(2_000)), 2_000),
        SessionVerdict::Discard
    );
    assert_eq!(
        judge_stored_session(StoredSession::Parsed(session(2_000)), 5_000),
        SessionVerdict::Discard
    );
}

#[test]
fn invalid_session_is_rejected_and_deleted() {
    assert_eq!(judge_stored_session(StoredSession::Unreadable, 1_000), SessionVerdict::Discard);
}

#[test]
fn absent_session_file_restores_nothing_and_deletes_nothing() {
    assert_eq!(judge_stored_session(StoredSession::Absent, 1_000), SessionVerdict::Nothing);
}

#[test]
fn store_keeps_its_path() {
    let store = SessionStore::new("/home/joueur/.monolith/session.json".into());
    assert_eq!(store.path(), "/home/joueur/.monolith/session.json");
}
