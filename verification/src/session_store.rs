//! The client's persisted session and the rule that decides whether it may be restored.

use vstd::prelude::*;
use crate::auth::Role;

verus! {

/// A session obtained from the backend; its password is never part of it.
#[derive(Debug, Clone, PartialEq, Eq)]
pub struct ClientSession {
    pub backend_url: String,
    pub access_token: String,
    pub user_id: i64,
    pub username: String,
    pub role: Role,
    pub expires_at: i64,
}

/// Where the session is kept on disk.
#[derive(Debug, Clone)]
pub struct SessionStore {
    path: String,
}

impl SessionStore {
    pub fn new(path: String) -> (r: SessionStore)
        ensures
            r.path_view() == path@,
    {
        SessionStore { path }
    }

    pub closed spec fn path_view(&self) -> Seq<char> {
        self.path@
    }

    pub fn path(&self) -> (r: &str)
        ensures
            r@ == self.path_view(),
    {
        self.path.as_str()
    }
}

/// What reading the session file gave.
#[derive(Debug, Clone, PartialEq, Eq)]
pub enum StoredSession {
    /// There is no session file.
    Absent,
    /// The file exists but does not hold a session.
    Unreadable,
    /// The file holds this session.
    Parsed(ClientSession),
}

/// What to do with the session file.
#[derive(Debug, Clone, PartialEq, Eq)]
pub enum SessionVerdict {
    /// Nothing is restored and there is nothing to delete.
    Nothing,
    /// Nothing is restored and the file must be deleted.
    Discard,
    /// The session is restored.
    Restore(ClientSession),
}

/// A session may be used at `now` only before its expiry instant.
pub open spec fn session_valid_at(session: ClientSession, now: i64) -> bool {
    now < session.expires_at
}

pub open spec fn stored_session_verdict(stored: StoredSession, now: i64) -> SessionVerdict {
    match stored {
        StoredSession::Absent => SessionVerdict::Nothing,
        StoredSession::Unreadable => SessionVerdict::Discard,
        StoredSession::Parsed(session) => if session_valid_at(session, now) {
            SessionVerdict::Restore(session)
        } else {
            SessionVerdict::Discard
        },
    }
}

/// An unexpired session is restored; an expired or unreadable one is deleted.
pub fn judge_stored_session(stored: StoredSession, now: i64) -> (r: SessionVerdict)
    ensures
        r == stored_session_verdict(stored, now),
{
    match stored {
        StoredSession::Absent => SessionVerdict::Nothing,
        StoredSession::Unreadable => SessionVerdict::Discard,
        StoredSession::Parsed(session) => if now < session.expires_at {
            SessionVerdict::Restore(session)
        } else {
            SessionVerdict::Discard
        },
    }
}

/// A stored session is given back as it was while it is valid, and discarded from its
/// expiry instant on.
pub proof fn lemma_saved_session_round_trip(session: ClientSession, now: i64)
    ensures
        now < session.expires_at ==> stored_session_verdict(StoredSession::Parsed(session), now)
            == SessionVerdict::Restore(session),
        now >= session.expires_at ==> stored_session_verdict(StoredSession::Parsed(session), now)
            == SessionVerdict::Discard,
{
}

/// A restored session is always one that is still valid, and a restored session is the
/// one that was stored.
pub proof fn lemma_restored_sessions_are_valid(stored: StoredSession, now: i64)
    ensures
        stored_session_verdict(stored, now) matches SessionVerdict::Restore(s) ==> {
            &&& session_valid_at(s, now)
            &&& stored == StoredSession::Parsed(s)
        },
{
}

} // verus!
