//! The client's library refresh: the state shown while a background scan runs, and the
//! totals that the scan of every root adds up to.

use vstd::prelude::*;
use vstd::string::*;
use crate::client_auth::ChannelPoll;
use crate::models::{ScanReport, ScanRoot, copy_roots, same_roots};

verus! {

/// The totals of a refresh over every configured root.
#[derive(Debug, Clone, Copy, PartialEq, Eq, Structural)]
pub struct InventoryRefreshReport {
    pub visited: usize,
    pub accepted: usize,
    pub ignored: usize,
    pub missing: usize,
    pub issues: usize,
}

impl Default for InventoryRefreshReport {
    fn default() -> (r: Self)
        ensures
            r == (InventoryRefreshReport { visited: 0, accepted: 0, ignored: 0, missing: 0, issues: 0 }),
    {
        InventoryRefreshReport { visited: 0, accepted: 0, ignored: 0, missing: 0, issues: 0 }
    }
}

impl InventoryRefreshReport {
    /// Adds the counts of one root's scan. The root's inventory is to be synchronised,
    /// and its missing files counted, only when its scan met no issue.
    pub fn record_root_scan(&mut self, scan: &ScanReport) -> (sync: bool)
        requires
            old(self).visited + scan.visited <= usize::MAX,
            old(self).accepted + scan.accepted <= usize::MAX,
            old(self).ignored + scan.ignored <= usize::MAX,
            old(self).issues + scan.issues@.len() <= usize::MAX,
        ensures
            final(self).visited == old(self).visited + scan.visited,
            final(self).accepted == old(self).accepted + scan.accepted,
            final(self).ignored == old(self).ignored + scan.ignored,
            final(self).issues == old(self).issues + scan.issues@.len(),
            final(self).missing == old(self).missing,
            sync == (scan.issues@.len() == 0),
    {
        self.visited = self.visited + scan.visited;
        self.accepted = self.accepted + scan.accepted;
        self.ignored = self.ignored + scan.ignored;
        self.issues = self.issues + scan.issues.len();
        scan.issues.len() == 0
    }

    /// Adds the files that a synchronised root no longer holds.
    pub fn record_missing(&mut self, missing: usize)
        requires
            old(self).missing + missing <= usize::MAX,
        ensures
            *final(self) == (InventoryRefreshReport { missing: (old(self).missing + missing) as usize, ..*old(self) }),
    {
        self.missing = self.missing + missing;
    }
}

/// What the client shows of the library refresh.
#[derive(Debug, Clone, PartialEq, Eq)]
pub enum InventoryRefreshState {
    Idle,
    Scanning,
    Completed(InventoryRefreshReport),
    Error(String),
}

impl Default for InventoryRefreshState {
    fn default() -> (r: Self)
        ensures
            r is Idle,
    {
        InventoryRefreshState::Idle
    }
}

impl InventoryRefreshState {
    /// Shows the outcome of a finished refresh.
    pub fn complete(&mut self, result: Result<InventoryRefreshReport, String>)
        ensures
            *final(self) == (match result {
                Ok(report) => InventoryRefreshState::Completed(report),
                Err(error) => InventoryRefreshState::Error(error),
            }),
    {
        *self = match result {
            Ok(report) => InventoryRefreshState::Completed(report),
            Err(error) => InventoryRefreshState::Error(error),
        };
    }

    pub fn is_scanning(&self) -> (r: bool)
        ensures
            r == (*self is Scanning),
    {
        match self {
            InventoryRefreshState::Scanning => true,
            _ => false,
        }
    }
}

pub const SCAN_ALREADY_RUNNING: &'static str = "scan de bibliothèque déjà en cours";

pub const SCAN_INTERRUPTED: &'static str = "tâche de scan interrompue";

/// The work of a library refresh.
#[derive(Debug, Clone, PartialEq, Eq)]
pub struct InventoryJob {
    pub database_path: String,
    pub roots: Vec<ScanRoot>,
    pub user_id: i64,
    pub cache_path: String,
}

/// A library refresh of the client: one background scan at a time.
pub struct ClientInventory {
    database_path: String,
    roots: Vec<ScanRoot>,
    user_id: i64,
    cache_path: String,
    pending: bool,
    state: InventoryRefreshState,
}

impl ClientInventory {
    pub closed spec fn pending(&self) -> bool {
        self.pending
    }

    pub closed spec fn spec_state(&self) -> InventoryRefreshState {
        self.state
    }

    pub closed spec fn spec_user_id(&self) -> i64 {
        self.user_id
    }

    pub closed spec fn spec_database_path(&self) -> Seq<char> {
        self.database_path@
    }

    pub closed spec fn spec_cache_path(&self) -> Seq<char> {
        self.cache_path@
    }

    pub closed spec fn spec_roots(&self) -> Seq<ScanRoot> {
        self.roots@
    }

    /// A scan runs exactly while the refresh shows one.
    pub open spec fn wf(&self) -> bool {
        self.pending() <==> self.spec_state() is Scanning
    }

    pub fn new(database_path: String, roots: Vec<ScanRoot>, user_id: i64, cache_path: String) -> (r:
        ClientInventory)
        ensures
            r.wf(),
            !r.pending(),
            r.spec_state() is Idle,
            r.spec_user_id() == user_id,
            r.spec_database_path() == database_path@,
            r.spec_cache_path() == cache_path@,
            r.spec_roots() == roots@,
    {
        ClientInventory {
            database_path,
            roots,
            user_id,
            cache_path,
            pending: false,
            state: InventoryRefreshState::Idle,
        }
    }

    pub fn state(&self) -> (r: &InventoryRefreshState)
        ensures
            *r == self.spec_state(),
    {
        &self.state
    }

    pub fn database_path(&self) -> (r: &str)
        ensures
            r@ == self.spec_database_path(),
    {
        self.database_path.as_str()
    }

    pub fn cache_path(&self) -> (r: &str)
        ensures
            r@ == self.spec_cache_path(),
    {
        self.cache_path.as_str()
    }

    pub fn roots(&self) -> (r: &Vec<ScanRoot>)
        ensures
            r@ == self.spec_roots(),
    {
        &self.roots
    }

    pub fn user_id(&self) -> (r: i64)
        ensures
            r == self.spec_user_id(),
    {
        self.user_id
    }

    /// Marks a scan as started, unless one already runs, and hands back the work: scan the
    /// roots, record them in the database and republish the profile's cache.
    pub fn start(&mut self) -> (r: Result<InventoryJob, String>)
        requires
            old(self).wf(),
        ensures
            final(self).wf(),
            old(self).pending() ==> (r matches Err(e) && e@ == SCAN_ALREADY_RUNNING@)
                && *final(self) == *old(self),
            !old(self).pending() ==> (r matches Ok(job) && {
                &&& job.database_path@ == old(self).spec_database_path()
                &&& same_roots(job.roots@, old(self).spec_roots())
                &&& job.user_id == old(self).spec_user_id()
                &&& job.cache_path@ == old(self).spec_cache_path()
            }) && final(self).pending() && final(self).spec_state() is Scanning,
            final(self).spec_user_id() == old(self).spec_user_id(),
            final(self).spec_database_path() == old(self).spec_database_path(),
            final(self).spec_cache_path() == old(self).spec_cache_path(),
            final(self).spec_roots() == old(self).spec_roots(),
    {
        if self.pending {
            return Err(String::from_str(SCAN_ALREADY_RUNNING));
        }
        self.pending = true;
        self.state = InventoryRefreshState::Scanning;
        Ok(InventoryJob {
            database_path: self.database_path.clone(),
            roots: copy_roots(&self.roots),
            user_id: self.user_id,
            cache_path: self.cache_path.clone(),
        })
    }

    /// Takes the outcome of the running scan, if it has finished, and shows it.
    pub fn poll(&mut self, event: ChannelPoll<Result<InventoryRefreshReport, String>>) -> (r:
        Option<&InventoryRefreshState>)
        requires
            old(self).wf(),
        ensures
            final(self).wf(),
            (!old(self).pending() || event is Empty) ==> r is None && *final(self) == *old(self),
            old(self).pending() ==> match event {
                ChannelPoll::Empty => true,
                ChannelPoll::Received(Ok(report)) => r == Some(&final(self).spec_state())
                    && final(self).spec_state() == InventoryRefreshState::Completed(report),
                ChannelPoll::Received(Err(e)) => r == Some(&final(self).spec_state())
                    && final(self).spec_state() == InventoryRefreshState::Error(e),
                ChannelPoll::Disconnected => r == Some(&final(self).spec_state())
                    && (final(self).spec_state() matches InventoryRefreshState::Error(e)
                    && e@ == SCAN_INTERRUPTED@),
            },
            final(self).spec_user_id() == old(self).spec_user_id(),
            final(self).spec_database_path() == old(self).spec_database_path(),
            final(self).spec_cache_path() == old(self).spec_cache_path(),
            final(self).spec_roots() == old(self).spec_roots(),
    {
        if !self.pending {
            return None;
        }
        match event {
            ChannelPoll::Empty => None,
            ChannelPoll::Received(result) => {
                self.pending = false;
                self.state.complete(result);
                Some(&self.state)
            },
            ChannelPoll::Disconnected => {
                self.pending = false;
                self.state.complete(Err(String::from_str(SCAN_INTERRUPTED)));
                Some(&self.state)
            },
        }
    }
}

} // verus!
