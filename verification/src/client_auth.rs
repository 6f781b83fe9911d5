//! The client's sign-in state machine. Network work runs elsewhere; this type decides what
//! may start, and what each finished task does to the state.

use vstd::prelude::*;
use vstd::string::*;
use crate::auth::{AuthMode, role_can_write};
use crate::backend::{IdentityResponse, LoginResponse};
use crate::models::UserOverride;
use crate::session_store::{ClientSession, SessionStore};
use crate::text::{trim, trimmed};

verus! {

/// What the sign-in screen shows.
#[derive(Debug, Clone, PartialEq, Eq)]
pub enum AuthState {
    SignedOut,
    Authenticating,
    Authenticated(ClientSession),
    Offline { user_id: i64 },
    Error(String),
}

/// What polling a background task's channel gave.
#[derive(Debug, Clone)]
pub enum ChannelPoll<T> {
    /// The task has not answered yet.
    Empty,
    /// The task answered.
    Received(T),
    /// The task ended without answering.
    Disconnected,
}

/// Why a request to the state machine is refused.
#[derive(Debug, Clone, Copy, PartialEq, Eq, Structural)]
pub enum AuthError {
    PolicyProbeInProgress,
    CredentialsRequired,
    TokenRequired,
    LoginInProgress,
    OverrideSyncInProgress,
    NotConnected,
    ReadOnlyAccount,
    SessionMismatch,
}

pub open spec fn auth_error_text(e: AuthError) -> Seq<char> {
    match e {
        AuthError::PolicyProbeInProgress => "détection déjà en cours"@,
        AuthError::CredentialsRequired => "identifiant et mot de passe requis"@,
        AuthError::TokenRequired => "jeton SSO requis"@,
        AuthError::LoginInProgress => "authentification déjà en cours"@,
        AuthError::OverrideSyncInProgress => "publication d’une surcharge déjà en cours"@,
        AuthError::NotConnected => "publication distante impossible hors connexion"@,
        AuthError::ReadOnlyAccount => "compte en lecture seule"@,
        AuthError::SessionMismatch => "la surcharge ne correspond pas à la session active"@,
    }
}

impl AuthError {
    pub fn message(&self) -> (s: String)
        ensures
            s@ == auth_error_text(*self),
    {
        match self {
            AuthError::PolicyProbeInProgress => String::from_str("détection déjà en cours"),
            AuthError::CredentialsRequired => String::from_str(
                "identifiant et mot de passe requis",
            ),
            AuthError::TokenRequired => String::from_str("jeton SSO requis"),
            AuthError::LoginInProgress => String::from_str("authentification déjà en cours"),
            AuthError::OverrideSyncInProgress => String::from_str(
                "publication d’une surcharge déjà en cours",
            ),
            AuthError::NotConnected => String::from_str(
                "publication distante impossible hors connexion",
            ),
            AuthError::ReadOnlyAccount => String::from_str("compte en lecture seule"),
            AuthError::SessionMismatch => String::from_str(
                "la surcharge ne correspond pas à la session active",
            ),
        }
    }
}

/// The work of a local sign-in: log in, publish the offline cache, save the session.
#[derive(Debug, Clone)]
pub struct LocalLoginJob {
    pub backend_url: String,
    pub cache_path: String,
    pub session_path: String,
    pub username: String,
    pub password: String,
}

/// The work of a bearer sign-in: resolve the identity, publish the cache, save the session.
#[derive(Debug, Clone)]
pub struct BearerLoginJob {
    pub backend_url: String,
    pub cache_path: String,
    pub session_path: String,
    pub token: String,
}

/// The work of publishing an override: send it, then publish the refreshed cache.
#[derive(Debug, Clone)]
pub struct OverrideSyncJob {
    pub backend_url: String,
    pub token: String,
    pub cache_path: String,
    pub value: UserOverride,
}

/// The sign-in state machine of the client.
pub struct ClientAuth {
    backend_url: String,
    store: SessionStore,
    cache_path: String,
    state: AuthState,
    login_pending: bool,
    override_pending: bool,
    policy_pending: bool,
    auth_mode: Option<AuthMode>,
    policy_error: Option<String>,
}

pub const LOGIN_INTERRUPTED: &'static str = "tâche d’authentification interrompue";

pub const POLICY_INTERRUPTED: &'static str = "détection interrompue";

pub const OVERRIDE_INTERRUPTED: &'static str = "publication distante interrompue";

impl ClientAuth {
    pub closed spec fn spec_state(&self) -> AuthState {
        self.state
    }

    pub closed spec fn login_pending(&self) -> bool {
        self.login_pending
    }

    pub closed spec fn override_pending(&self) -> bool {
        self.override_pending
    }

    pub closed spec fn policy_pending(&self) -> bool {
        self.policy_pending
    }

    pub closed spec fn spec_auth_mode(&self) -> Option<AuthMode> {
        self.auth_mode
    }

    pub closed spec fn spec_policy_error(&self) -> Option<Seq<char>> {
        match self.policy_error {
            Some(e) => Some(e@),
            None => None,
        }
    }

    pub closed spec fn spec_backend_url(&self) -> Seq<char> {
        self.backend_url@
    }

    pub closed spec fn spec_cache_path(&self) -> Seq<char> {
        self.cache_path@
    }

    pub closed spec fn spec_session_path(&self) -> Seq<char> {
        self.store.path_view()
    }

    /// A sign-in task runs exactly while the screen shows that one does.
    pub open spec fn wf(&self) -> bool {
        self.login_pending() <==> self.spec_state() is Authenticating
    }

    /// Starts with the restored session, if there is one, else signed out; no task runs.
    pub fn new(backend_url: String, store: SessionStore, cache_path: String, restored: Option<
        ClientSession,
    >) -> (r: ClientAuth)
        ensures
            r.wf(),
            r.spec_state() == (match restored {
                Some(session) => AuthState::Authenticated(session),
                None => AuthState::SignedOut,
            }),
            !r.login_pending(),
            !r.override_pending(),
            !r.policy_pending(),
            r.spec_auth_mode() is None,
            r.spec_policy_error() is None,
            r.spec_backend_url() == backend_url@,
            r.spec_cache_path() == cache_path@,
            r.spec_session_path() == store.path_view(),
    {
        let state = match restored {
            Some(session) => AuthState::Authenticated(session),
            None => AuthState::SignedOut,
        };
        ClientAuth {
            backend_url,
            store,
            cache_path,
            state,
            login_pending: false,
            override_pending: false,
            policy_pending: false,
            auth_mode: None,
            policy_error: None,
        }
    }

    pub fn state(&self) -> (r: &AuthState)
        ensures
            *r == self.spec_state(),
    {
        &self.state
    }

    pub fn authenticated_session(&self) -> (r: Option<&ClientSession>)
        ensures
            r == (match self.spec_state() {
                AuthState::Authenticated(session) => Some(&session),
                _ => None,
            }),
    {
        match &self.state {
            AuthState::Authenticated(session) => Some(session),
            _ => None,
        }
    }

    pub fn auth_mode(&self) -> (r: Option<AuthMode>)
        ensures
            r == self.spec_auth_mode(),
    {
        self.auth_mode
    }

    pub fn policy_error(&self) -> (r: Option<&str>)
        ensures
            r matches Some(e) ==> self.spec_policy_error() == Some(e@),
            r is None <==> self.spec_policy_error() is None,
    {
        match &self.policy_error {
            Some(e) => Some(e.as_str()),
            None => None,
        }
    }

    pub fn store(&self) -> (r: &SessionStore)
        ensures
            r.path_view() == self.spec_session_path(),
    {
        &self.store
    }

    /// Starts detecting the backend's policy and hands back the URL to ask, unless a
    /// detection is already running.
    pub fn probe_policy(&mut self) -> (r: Result<String, AuthError>)
        ensures
            old(self).policy_pending() ==> r == Err::<String, AuthError>(
                AuthError::PolicyProbeInProgress,
            ) && *final(self) == *old(self),
            !old(self).policy_pending() ==> {
                &&& r matches Ok(url) && url@ == old(self).spec_backend_url()
                &&& final(self).policy_pending()
                &&& final(self).spec_policy_error() is None
                &&& final(self).spec_state() == old(self).spec_state()
                &&& final(self).login_pending() == old(self).login_pending()
                &&& final(self).override_pending() == old(self).override_pending()
                &&& final(self).spec_auth_mode() == old(self).spec_auth_mode()
                &&& final(self).spec_backend_url() == old(self).spec_backend_url()
                &&& final(self).spec_cache_path() == old(self).spec_cache_path()
                &&& final(self).spec_session_path() == old(self).spec_session_path()
            },
    {
        if self.policy_pending {
            return Err(AuthError::PolicyProbeInProgress);
        }
        self.policy_pending = true;
        self.policy_error = None;
        Ok(self.backend_url.clone())
    }

    fn start(&mut self) -> (r: Result<(), AuthError>)
        requires
            old(self).wf(),
        ensures
            final(self).wf(),
            old(self).login_pending() ==> r == Err::<(), AuthError>(AuthError::LoginInProgress)
                && *final(self) == *old(self),
            !old(self).login_pending() ==> r is Ok && final(self).login_pending()
                && final(self).spec_state() is Authenticating,
            final(self).override_pending() == old(self).override_pending(),
            final(self).policy_pending() == old(self).policy_pending(),
            final(self).spec_auth_mode() == old(self).spec_auth_mode(),
            final(self).spec_policy_error() == old(self).spec_policy_error(),
            final(self).spec_backend_url() == old(self).spec_backend_url(),
            final(self).spec_cache_path() == old(self).spec_cache_path(),
            final(self).spec_session_path() == old(self).spec_session_path(),
    {
        if self.login_pending {
            return Err(AuthError::LoginInProgress);
        }
        self.login_pending = true;
        self.state = AuthState::Authenticating;
        Ok(())
    }

    /// Starts a local sign-in with the trimmed user name, unless the name or the password is
    /// empty or a sign-in is already running.
    pub fn begin_local_login(&mut self, username: &str, password: &str) -> (r: Result<
        LocalLoginJob,
        AuthError,
    >)
        requires
            old(self).wf(),
        ensures
            final(self).wf(),
            (trimmed(username@).len() == 0 || password@.len() == 0) ==> r == Err::<
                LocalLoginJob,
                AuthError,
            >(AuthError::CredentialsRequired) && *final(self) == *old(self),
            (trimmed(username@).len() > 0 && password@.len() > 0 && old(self).login_pending())
                ==> r == Err::<LocalLoginJob, AuthError>(AuthError::LoginInProgress)
                && *final(self) == *old(self),
            (trimmed(username@).len() > 0 && password@.len() > 0 && !old(self).login_pending())
                ==> {
                &&& r matches Ok(job) && {
                    &&& job.username@ == trimmed(username@)
                    &&& job.password@ == password@
                    &&& job.backend_url@ == old(self).spec_backend_url()
                    &&& job.cache_path@ == old(self).spec_cache_path()
                    &&& job.session_path@ == old(self).spec_session_path()
                }
                &&& final(self).login_pending()
                &&& final(self).spec_state() is Authenticating
            },
            final(self).override_pending() == old(self).override_pending(),
            final(self).policy_pending() == old(self).policy_pending(),
            final(self).spec_auth_mode() == old(self).spec_auth_mode(),
            final(self).spec_policy_error() == old(self).spec_policy_error(),
    {
        let name = trim(username);
        if name.unicode_len() == 0 || password.unicode_len() == 0 {
            return Err(AuthError::CredentialsRequired);
        }
        self.start()?;
        Ok(LocalLoginJob {
            backend_url: self.backend_url.clone(),
            cache_path: self.cache_path.clone(),
            session_path: String::from_str(self.store.path()),
            username: String::from_str(name),
            password: String::from_str(password),
        })
    }

    /// Starts a sign-in with a bearer token, unless the trimmed token is empty or a sign-in
    /// is already running.
    pub fn begin_bearer_login(&mut self, token: &str) -> (r: Result<BearerLoginJob, AuthError>)
        requires
            old(self).wf(),
        ensures
            final(self).wf(),
            trimmed(token@).len() == 0 ==> r == Err::<BearerLoginJob, AuthError>(
                AuthError::TokenRequired,
            ) && *final(self) == *old(self),
            (trimmed(token@).len() > 0 && old(self).login_pending()) ==> r == Err::<
                BearerLoginJob,
                AuthError,
            >(AuthError::LoginInProgress) && *final(self) == *old(self),
            (trimmed(token@).len() > 0 && !old(self).login_pending()) ==> {
                &&& r matches Ok(job) && {
                    &&& job.token@ == trimmed(token@)
                    &&& job.backend_url@ == old(self).spec_backend_url()
                    &&& job.cache_path@ == old(self).spec_cache_path()
                    &&& job.session_path@ == old(self).spec_session_path()
                }
                &&& final(self).login_pending()
                &&& final(self).spec_state() is Authenticating
            },
            final(self).override_pending() == old(self).override_pending(),
            final(self).policy_pending() == old(self).policy_pending(),
            final(self).spec_auth_mode() == old(self).spec_auth_mode(),
            final(self).spec_policy_error() == old(self).spec_policy_error(),
    {
        let token = trim(token);
        if token.unicode_len() == 0 {
            return Err(AuthError::TokenRequired);
        }
        self.start()?;
        Ok(BearerLoginJob {
            backend_url: self.backend_url.clone(),
            cache_path: self.cache_path.clone(),
            session_path: String::from_str(self.store.path()),
            token: String::from_str(token),
        })
    }

    /// Forgets the session in memory; the caller has deleted the session file first.
    /// Running sign-in and publication tasks are abandoned.
    pub fn logout(&mut self)
        requires
            old(self).wf(),
        ensures
            final(self).wf(),
            final(self).spec_state() is SignedOut,
            !final(self).login_pending(),
            !final(self).override_pending(),
            final(self).policy_pending() == old(self).policy_pending(),
            final(self).spec_auth_mode() == old(self).spec_auth_mode(),
            final(self).spec_policy_error() == old(self).spec_policy_error(),
            final(self).spec_backend_url() == old(self).spec_backend_url(),
            final(self).spec_cache_path() == old(self).spec_cache_path(),
            final(self).spec_session_path() == old(self).spec_session_path(),
    {
        self.login_pending = false;
        self.override_pending = false;
        self.state = AuthState::SignedOut;
    }

    /// Starts publishing a user override, which only an authenticated account that may
    /// write can do, for its own profile, one publication at a time.
    pub fn begin_override_sync(&mut self, value: UserOverride) -> (r: Result<
        OverrideSyncJob,
        AuthError,
    >)
        requires
            old(self).wf(),
        ensures
            final(self).wf(),
            r is Ok <==> override_sync_verdict(
                old(self).override_pending(),
                old(self).spec_state(),
                value,
            ) is Ok,
            r matches Err(e) ==> override_sync_verdict(
                old(self).override_pending(),
                old(self).spec_state(),
                value,
            ) == Err::<(), AuthError>(e) && *final(self) == *old(self),
            r matches Ok(job) ==> {
                &&& old(self).spec_state() matches AuthState::Authenticated(session) && {
                    &&& job.backend_url@ == session.backend_url@
                    &&& job.token@ == session.access_token@
                }
                &&& job.cache_path@ == old(self).spec_cache_path()
                &&& job.value == value
                &&& final(self).override_pending()
                &&& final(self).spec_state() == old(self).spec_state()
                &&& final(self).login_pending() == old(self).login_pending()
                &&& final(self).policy_pending() == old(self).policy_pending()
                &&& final(self).spec_auth_mode() == old(self).spec_auth_mode()
                &&& final(self).spec_policy_error() == old(self).spec_policy_error()
            },
    {
        if self.override_pending {
            return Err(AuthError::OverrideSyncInProgress);
        }
        let (backend_url, token) = match &self.state {
            AuthState::Authenticated(session) => {
                if !session.role.can_write() {
                    return Err(AuthError::ReadOnlyAccount);
                }
                if value.user_id != session.user_id {
                    return Err(AuthError::SessionMismatch);
                }
                (session.backend_url.clone(), session.access_token.clone())
            },
            _ => {
                return Err(AuthError::NotConnected);
            },
        };
        self.override_pending = true;
        Ok(OverrideSyncJob { backend_url, token, cache_path: self.cache_path.clone(), value })
    }

    pub fn override_sync_in_progress(&self) -> (r: bool)
        ensures
            r == self.override_pending(),
    {
        self.override_pending
    }

    /// Takes the outcome of the publication task, if it has finished.
    pub fn poll_override_sync(&mut self, event: ChannelPoll<Result<(), String>>) -> (r: Option<
        Result<(), String>,
    >)
        requires
            old(self).wf(),
        ensures
            final(self).wf(),
            !old(self).override_pending() ==> r is None && *final(self) == *old(self),
            old(self).override_pending() ==> match event {
                ChannelPoll::Empty => r is None && *final(self) == *old(self),
                ChannelPoll::Received(outcome) => r == Some(outcome)
                    && !final(self).override_pending(),
                ChannelPoll::Disconnected => (r matches Some(Err(e)) && e@
                    == OVERRIDE_INTERRUPTED@) && !final(self).override_pending(),
            },
            final(self).spec_state() == old(self).spec_state(),
            final(self).login_pending() == old(self).login_pending(),
            final(self).policy_pending() == old(self).policy_pending(),
            final(self).spec_auth_mode() == old(self).spec_auth_mode(),
            final(self).spec_policy_error() == old(self).spec_policy_error(),
    {
        if !self.override_pending {
            return None;
        }
        match event {
            ChannelPoll::Empty => None,
            ChannelPoll::Received(outcome) => {
                self.override_pending = false;
                Some(outcome)
            },
            ChannelPoll::Disconnected => {
                self.override_pending = false;
                Some(Err(String::from_str(OVERRIDE_INTERRUPTED)))
            },
        }
    }

    /// Opens the local catalog of a profile without a session.
    pub fn continue_offline(&mut self, user_id: i64)
        requires
            old(self).wf(),
        ensures
            final(self).wf(),
            final(self).spec_state() == (AuthState::Offline { user_id }),
            !final(self).login_pending(),
            final(self).override_pending() == old(self).override_pending(),
            final(self).policy_pending() == old(self).policy_pending(),
            final(self).spec_auth_mode() == old(self).spec_auth_mode(),
            final(self).spec_policy_error() == old(self).spec_policy_error(),
    {
        self.login_pending = false;
        self.state = AuthState::Offline { user_id };
    }

    /// Dismisses a sign-in error; any other state stays.
    pub fn reset_error(&mut self)
        requires
            old(self).wf(),
        ensures
            final(self).wf(),
            old(self).spec_state() is Error ==> final(self).spec_state() is SignedOut,
            !(old(self).spec_state() is Error) ==> final(self).spec_state() == old(
                self,
            ).spec_state(),
            final(self).login_pending() == old(self).login_pending(),
            final(self).override_pending() == old(self).override_pending(),
            final(self).policy_pending() == old(self).policy_pending(),
            final(self).spec_auth_mode() == old(self).spec_auth_mode(),
            final(self).spec_policy_error() == old(self).spec_policy_error(),
    {
        if let AuthState::Error(_) = &self.state {
            self.state = AuthState::SignedOut;
        }
    }

    fn poll_policy(&mut self, event: ChannelPoll<Result<AuthMode, String>>)
        requires
            old(self).wf(),
        ensures
            final(self).wf(),
            final(self).policy_pending() == (old(self).policy_pending() && event is Empty),
            (final(self).spec_auth_mode(), final(self).spec_policy_error()) == policy_after(
                old(self).policy_pending(),
                event,
                old(self).spec_auth_mode(),
                old(self).spec_policy_error(),
            ),
            final(self).spec_state() == old(self).spec_state(),
            final(self).login_pending() == old(self).login_pending(),
            final(self).override_pending() == old(self).override_pending(),
            final(self).spec_backend_url() == old(self).spec_backend_url(),
            final(self).spec_cache_path() == old(self).spec_cache_path(),
            final(self).spec_session_path() == old(self).spec_session_path(),
    {
        if !self.policy_pending {
            return;
        }
        match event {
            ChannelPoll::Empty => {},
            ChannelPoll::Received(Ok(mode)) => {
                self.auth_mode = Some(mode);
                self.policy_error = None;
                self.policy_pending = false;
            },
            ChannelPoll::Received(Err(error)) => {
                self.policy_error = Some(error);
                self.policy_pending = false;
            },
            ChannelPoll::Disconnected => {
                self.policy_error = Some(String::from_str(POLICY_INTERRUPTED));
                self.policy_pending = false;
            },
        }
    }

    /// Takes the outcomes of the policy detection and of the sign-in task, if they have
    /// finished: a session that arrives is shown as authenticated, a failure as an error.
    pub fn poll(
        &mut self,
        policy_event: ChannelPoll<Result<AuthMode, String>>,
        login_event: ChannelPoll<Result<ClientSession, String>>,
    )
        requires
            old(self).wf(),
        ensures
            final(self).wf(),
            final(self).policy_pending() == (old(self).policy_pending() && policy_event is Empty),
            (final(self).spec_auth_mode(), final(self).spec_policy_error()) == policy_after(
                old(self).policy_pending(),
                policy_event,
                old(self).spec_auth_mode(),
                old(self).spec_policy_error(),
            ),
            !old(self).login_pending() ==> final(self).spec_state() == old(self).spec_state()
                && !final(self).login_pending(),
            old(self).login_pending() ==> match login_event {
                ChannelPoll::Empty => final(self).spec_state() == old(self).spec_state()
                    && final(self).login_pending(),
                ChannelPoll::Received(Ok(session)) => final(self).spec_state()
                    == AuthState::Authenticated(session) && !final(self).login_pending(),
                ChannelPoll::Received(Err(e)) => final(self).spec_state() == AuthState::Error(e)
                    && !final(self).login_pending(),
                ChannelPoll::Disconnected => (final(self).spec_state() matches AuthState::Error(
                    e,
                ) && e@ == LOGIN_INTERRUPTED@) && !final(self).login_pending(),
            },
            final(self).override_pending() == old(self).override_pending(),
            final(self).spec_backend_url() == old(self).spec_backend_url(),
            final(self).spec_cache_path() == old(self).spec_cache_path(),
            final(self).spec_session_path() == old(self).spec_session_path(),
    {
        self.poll_policy(policy_event);
        if !self.login_pending {
            return;
        }
        match login_event {
            ChannelPoll::Empty => {},
            ChannelPoll::Received(Ok(session)) => {
                self.state = AuthState::Authenticated(session);
                self.login_pending = false;
            },
            ChannelPoll::Received(Err(error)) => {
                self.state = AuthState::Error(error);
                self.login_pending = false;
            },
            ChannelPoll::Disconnected => {
                self.state = AuthState::Error(String::from_str(LOGIN_INTERRUPTED));
                self.login_pending = false;
            },
        }
    }
}

/// What a publication request is answered, in the order the checks are made.
pub open spec fn override_sync_verdict(
    pending: bool,
    state: AuthState,
    value: UserOverride,
) -> Result<(), AuthError> {
    if pending {
        Err(AuthError::OverrideSyncInProgress)
    } else {
        match state {
            AuthState::Authenticated(session) => if !role_can_write(session.role) {
                Err(AuthError::ReadOnlyAccount)
            } else if value.user_id != session.user_id {
                Err(AuthError::SessionMismatch)
            } else {
                Ok(())
            },
            _ => Err(AuthError::NotConnected),
        }
    }
}

/// The detected policy and its error after a poll of the detection task.
pub open spec fn policy_after(
    pending: bool,
    event: ChannelPoll<Result<AuthMode, String>>,
    mode: Option<AuthMode>,
    error: Option<Seq<char>>,
) -> (Option<AuthMode>, Option<Seq<char>>) {
    if !pending {
        (mode, error)
    } else {
        match event {
            ChannelPoll::Empty => (mode, error),
            ChannelPoll::Received(Ok(m)) => (Some(m), None),
            ChannelPoll::Received(Err(e)) => (mode, Some(e@)),
            ChannelPoll::Disconnected => (mode, Some(POLICY_INTERRUPTED@)),
        }
    }
}


/// What a poll does to the detected policy: while a detection runs, a policy it reports is
/// the one recorded and any earlier detection error is cleared; a reported failure or an
/// interrupted detection keeps the policy known before and records the error; when no
/// detection runs, or it has not answered yet, the policy and its error stay as they were.
pub proof fn lemma_poll_records_the_detected_policy(
    before: ClientAuth,
    after: ClientAuth,
    event: ChannelPoll<Result<AuthMode, String>>,
)
    requires
        (after.spec_auth_mode(), after.spec_policy_error()) == policy_after(
            before.policy_pending(),
            event,
            before.spec_auth_mode(),
            before.spec_policy_error(),
        ),
    ensures
        before.policy_pending() ==> (event matches ChannelPoll::Received(Ok(m)) ==> after.spec_auth_mode()
            == Some(m) && after.spec_policy_error() is None),
        before.policy_pending() ==> (event matches ChannelPoll::Received(Err(e)) ==> after.spec_auth_mode()
            == before.spec_auth_mode() && after.spec_policy_error() == Some(e@)),
        before.policy_pending() && event is Disconnected ==> after.spec_auth_mode() == before.spec_auth_mode()
            && after.spec_policy_error() == Some(POLICY_INTERRUPTED@),
        !before.policy_pending() || event is Empty ==> after.spec_auth_mode() == before.spec_auth_mode()
            && after.spec_policy_error() == before.spec_policy_error(),
{
}

/// The session that a local sign-in gives: the backend's answer, for that backend.
pub fn session_from_login(backend_url: &str, response: LoginResponse) -> (r: ClientSession)
    ensures
        r.backend_url@ == backend_url@,
        r.access_token == response.access_token,
        r.user_id == response.user_id,
        r.username == response.username,
        r.role == response.role,
        r.expires_at == response.expires_at,
{
    ClientSession {
        backend_url: String::from_str(backend_url),
        access_token: response.access_token,
        user_id: response.user_id,
        username: response.username,
        role: response.role,
        expires_at: response.expires_at,
    }
}

/// The session that a bearer sign-in gives: the token itself, with the identity the
/// backend resolved for it; none when that identity does not expire, as a stored session
/// must.
pub fn session_from_identity(backend_url: &str, token: &str, identity: IdentityResponse) -> (r: Option<
    ClientSession,
>)
    ensures
        identity.expires_at is None ==> r is None,
        identity.expires_at matches Some(expires_at) ==> r matches Some(session) && {
            &&& session.backend_url@ == backend_url@
            &&& session.access_token@ == token@
            &&& session.user_id == identity.user_id
            &&& session.username == identity.username
            &&& session.role == identity.role
            &&& session.expires_at == expires_at
        },
{
    match identity.expires_at {
        None => None,
        Some(expires_at) => Some(
            ClientSession {
                backend_url: String::from_str(backend_url),
                access_token: String::from_str(token),
                user_id: identity.user_id,
                username: identity.username,
                role: identity.role,
                expires_at,
            },
        ),
    }
}

} // verus!
