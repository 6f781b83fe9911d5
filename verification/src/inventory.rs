//! The library scanner's decisions. The caller walks the file system; a `ScanSession`
//! decides what each directory entry counts as and assembles the report.

use vstd::prelude::*;
use vstd::string::*;
use crate::backend_config::{normalize_extensions, normalized_extensions, views};
use crate::models::{ScanIssue, ScanObservation, ScanReport, ScanRoot, ScanRootError, scan_root_verdict};
use crate::sort::{Keyed, sort_by_key, sorted_by_key};
use crate::text::{ascii_lower, str_eq, to_ascii_lowercase};

verus! {

/// What the file system says an entry is.
#[derive(Debug, Clone)]
pub enum EntryKind {
    Directory,
    File { size_bytes: u64, modified_at: Option<i64> },
    Symlink,
    Other,
    /// Its metadata could not be read; the text says why.
    Unreadable { message: String },
}

/// An entry of a directory, as listed.
#[derive(Debug, Clone)]
pub struct DirectoryEntry {
    /// The path as listed.
    pub path: String,
    /// The path with links resolved, or the listed path when it cannot be resolved.
    pub canonical_path: String,
    /// The file name's extension, as the platform's path rules give it.
    pub extension: Option<String>,
    pub kind: EntryKind,
}

impl Keyed for DirectoryEntry {
    open spec fn key(&self) -> Seq<char> {
        self.path@
    }

    fn key_str(&self) -> (r: &str) {
        self.path.as_str()
    }
}

impl Keyed for ScanObservation {
    open spec fn key(&self) -> Seq<char> {
        self.path@
    }

    fn key_str(&self) -> (r: &str) {
        self.path.as_str()
    }
}

/// The scan of one root in progress.
pub struct ScanSession {
    system_id: i64,
    accepted_extensions: Vec<String>,
    pending: Vec<String>,
    report: ScanReport,
}

/// The extension, lower-cased, is one that the root accepts.
pub open spec fn accepts_extension(accepted: Seq<Seq<char>>, extension: Option<String>) -> bool {
    match extension {
        Some(e) => accepted.contains(ascii_lower(e@)),
        None => false,
    }
}

/// Every visited file was either accepted, with one observation, or ignored.
pub open spec fn report_consistent(r: ScanReport) -> bool {
    &&& r.accepted + r.ignored == r.visited
    &&& r.observations@.len() == r.accepted
}

pub const ROOT_UNREACHABLE: &'static str = "racine de scan inaccessible : ";

impl ScanSession {
    pub closed spec fn spec_system_id(&self) -> i64 {
        self.system_id
    }

    pub closed spec fn spec_accepted(&self) -> Seq<Seq<char>> {
        views(self.accepted_extensions@)
    }

    pub closed spec fn spec_pending(&self) -> Seq<Seq<char>> {
        views(self.pending@)
    }

    pub closed spec fn spec_report(&self) -> ScanReport {
        self.report
    }

    /// The counts of the report so far agree with each other.
    pub open spec fn wf(&self) -> bool {
        report_consistent(self.spec_report())
    }

    /// Begins the scan of a valid root: nothing counted yet, no directory to visit yet.
    pub fn begin(root: &ScanRoot) -> (r: Result<ScanSession, ScanRootError>)
        ensures
            exists|absolute: bool|
                match #[trigger] scan_root_verdict(root.system_id, absolute, root.extensions@.len()) {
                    Err(e) => r == Err::<ScanSession, ScanRootError>(e),
                    Ok(()) => r is Ok,
                },
            !crate::paths::may_be_absolute(root.path@) ==> match scan_root_verdict(
                root.system_id,
                false,
                root.extensions@.len(),
            ) {
                Err(e) => r == Err::<ScanSession, ScanRootError>(e),
                Ok(()) => r is Ok,
            },
            r matches Ok(session) ==> {
                &&& session.spec_system_id() == root.system_id
                &&& session.spec_accepted() == normalized_extensions(views(root.extensions@))
                &&& session.spec_pending().len() == 0
                &&& session.spec_report().visited == 0
                &&& session.spec_report().accepted == 0
                &&& session.spec_report().ignored == 0
                &&& session.spec_report().observations@.len() == 0
                &&& session.spec_report().issues@.len() == 0
                &&& session.wf()
            },
    {
        match root.validate() {
            Err(e) => Err(e),
            Ok(()) => Ok(ScanSession {
                system_id: root.system_id,
                accepted_extensions: normalize_extensions(&root.extensions),
                pending: Vec::new(),
                report: ScanReport::default(),
            }),
        }
    }

    /// The report of a root whose directory cannot be reached: one issue, nothing else.
    pub fn unreachable_root(root_path: &str, error: &str) -> (r: ScanReport)
        ensures
            r.visited == 0,
            r.accepted == 0,
            r.ignored == 0,
            r.observations@.len() == 0,
            r.issues@.len() == 1,
            r.issues@[0].path@ == root_path@,
            r.issues@[0].message@ == ROOT_UNREACHABLE@ + error@,
            report_consistent(r),
    {
        let mut message = String::from_str(ROOT_UNREACHABLE);
        message.append(error);
        let mut report = ScanReport::default();
        report.issues.push(ScanIssue { path: String::from_str(root_path), message });
        report
    }

    /// Queues a directory to visit.
    pub fn enqueue(&mut self, directory: String)
        ensures
            final(self).spec_pending() == old(self).spec_pending().push(directory@),
            final(self).spec_report() == old(self).spec_report(),
            final(self).spec_system_id() == old(self).spec_system_id(),
            final(self).spec_accepted() == old(self).spec_accepted(),
    {
        let ghost before = self.pending@;
        self.pending.push(directory);
        assert(views(self.pending@) =~= views(before).push(directory@));
    }

    /// The next directory to visit: the one queued last.
    pub fn next_directory(&mut self) -> (r: Option<String>)
        ensures
            old(self).spec_pending().len() == 0 ==> r is None && final(self).spec_pending().len() == 0,
            old(self).spec_pending().len() > 0 ==> (r matches Some(d) && d@ == old(self).spec_pending().last())
                && final(self).spec_pending() == old(self).spec_pending().drop_last(),
            final(self).spec_report() == old(self).spec_report(),
            final(self).spec_system_id() == old(self).spec_system_id(),
            final(self).spec_accepted() == old(self).spec_accepted(),
    {
        let ghost before = self.pending@;
        let r = self.pending.pop();
        proof {
            if before.len() > 0 {
                assert(views(self.pending@) =~= views(before).drop_last());
            }
        }
        r
    }

    /// Records a directory that could not be listed.
    pub fn record_unreadable(&mut self, path: String, message: String)
        ensures
            final(self).spec_report().issues@.len() == old(self).spec_report().issues@.len() + 1,
            final(self).spec_report().issues@.last().path@ == path@,
            final(self).spec_report().issues@.last().message@ == message@,
            final(self).spec_report().visited == old(self).spec_report().visited,
            final(self).spec_report().accepted == old(self).spec_report().accepted,
            final(self).spec_report().ignored == old(self).spec_report().ignored,
            final(self).spec_report().observations@ == old(self).spec_report().observations@,
            final(self).spec_pending() == old(self).spec_pending(),
            final(self).spec_system_id() == old(self).spec_system_id(),
            final(self).spec_accepted() == old(self).spec_accepted(),
    {
        self.report.issues.push(ScanIssue { path, message });
    }

    fn accepts(&self, extension: &Option<String>) -> (r: Option<String>)
        ensures
            r is Some <==> accepts_extension(self.spec_accepted(), *extension),
            r matches Some(e) ==> extension matches Some(raw) && e@ == ascii_lower(raw@),
    {
        match extension {
            None => None,
            Some(raw) => {
                let lowered = to_ascii_lowercase(raw.as_str());
                let n = self.accepted_extensions.len();
                let mut i: usize = 0;
                while i < n
                    invariant
                        n == self.accepted_extensions@.len(),
                        i <= n,
                        lowered@ == ascii_lower(raw@),
                        *extension == Some(*raw),
                        forall|k: int| 0 <= k < i ==> self.accepted_extensions@[k]@ != lowered@,
                    decreases n - i,
                {
                    if str_eq(self.accepted_extensions[i].as_str(), lowered.as_str()) {
                        assert(views(self.accepted_extensions@)[i as int] == lowered@);
                        return Some(lowered);
                    }
                    i = i + 1;
                }
                assert(!views(self.accepted_extensions@).contains(lowered@)) by {
                    if views(self.accepted_extensions@).contains(lowered@) {
                        let k = choose|k: int| 0 <= k < n && views(self.accepted_extensions@)[k] == lowered@;
                        assert(self.accepted_extensions@[k]@ == lowered@);
                    }
                }
                None
            },
        }
    }

    /// Records one directory entry: a subdirectory is queued, links and special files are
    /// skipped, an unreadable entry becomes an issue, and a regular file is visited and
    /// then accepted or ignored according to its extension.
    pub fn record_entry(&mut self, entry: DirectoryEntry)
        requires
            old(self).spec_report().visited < usize::MAX,
            old(self).spec_report().accepted < usize::MAX,
            old(self).spec_report().ignored < usize::MAX,
        ensures
            old(self).wf() ==> final(self).wf(),
            final(self).spec_system_id() == old(self).spec_system_id(),
            final(self).spec_accepted() == old(self).spec_accepted(),
            match entry.kind {
                EntryKind::Directory => final(self).spec_pending() == old(self).spec_pending().push(entry.path@)
                    && final(self).spec_report() == old(self).spec_report(),
                EntryKind::Symlink | EntryKind::Other => *final(self) == *old(self),
                EntryKind::Unreadable { message } => {
                    &&& final(self).spec_pending() == old(self).spec_pending()
                    &&& final(self).spec_report().issues@ == old(self).spec_report().issues@.push(
                        ScanIssue { path: entry.path, message },
                    )
                    &&& final(self).spec_report().observations@ == old(self).spec_report().observations@
                    &&& final(self).spec_report().visited == old(self).spec_report().visited
                    &&& final(self).spec_report().accepted == old(self).spec_report().accepted
                    &&& final(self).spec_report().ignored == old(self).spec_report().ignored
                },
                EntryKind::File { size_bytes, modified_at } => {
                    &&& final(self).spec_pending() == old(self).spec_pending()
                    &&& final(self).spec_report().issues@ == old(self).spec_report().issues@
                    &&& final(self).spec_report().visited == old(self).spec_report().visited + 1
                    &&& if accepts_extension(old(self).spec_accepted(), entry.extension) {
                        &&& final(self).spec_report().accepted == old(self).spec_report().accepted + 1
                        &&& final(self).spec_report().ignored == old(self).spec_report().ignored
                        &&& final(self).spec_report().observations@.len()
                            == old(self).spec_report().observations@.len() + 1
                        &&& final(self).spec_report().observations@.drop_last()
                            == old(self).spec_report().observations@
                        &&& final(self).spec_report().observations@.last().system_id == old(self).spec_system_id()
                        &&& final(self).spec_report().observations@.last().path@ == entry.canonical_path@
                        &&& (entry.extension matches Some(raw)
                            && final(self).spec_report().observations@.last().extension@ == ascii_lower(raw@))
                        &&& final(self).spec_report().observations@.last().size_bytes == size_bytes
                        &&& final(self).spec_report().observations@.last().modified_at == modified_at
                    } else {
                        &&& final(self).spec_report().accepted == old(self).spec_report().accepted
                        &&& final(self).spec_report().ignored == old(self).spec_report().ignored + 1
                        &&& final(self).spec_report().observations@ == old(self).spec_report().observations@
                    }
                },
            },
    {
        match entry.kind {
            EntryKind::Directory => {
                self.enqueue(entry.path);
            },
            EntryKind::Symlink | EntryKind::Other => {},
            EntryKind::Unreadable { message } => {
                self.report.issues.push(ScanIssue { path: entry.path, message });
            },
            EntryKind::File { size_bytes, modified_at } => {
                self.report.visited = self.report.visited + 1;
                match self.accepts(&entry.extension) {
                    Some(extension) => {
                        let ghost before = self.report.observations@;
                        self.report.observations.push(ScanObservation {
                            system_id: self.system_id,
                            path: entry.canonical_path,
                            extension,
                            size_bytes,
                            modified_at,
                        });
                        assert(self.report.observations@.drop_last() =~= before);
                        self.report.accepted = self.report.accepted + 1;
                    },
                    None => {
                        self.report.ignored = self.report.ignored + 1;
                    },
                }
            },
        }
    }

    /// The entries of a directory in the order in which they are recorded: by path.
    pub fn order_entries(entries: Vec<DirectoryEntry>) -> (r: Vec<DirectoryEntry>)
        ensures
            sorted_by_key(r@),
            r@.to_multiset() == entries@.to_multiset(),
            r@.len() == entries@.len(),
    {
        sort_by_key(entries)
    }

    /// The report of the scan, its observations in the order of their paths.
    pub fn finish(self) -> (r: ScanReport)
        ensures
            r.visited == self.spec_report().visited,
            r.accepted == self.spec_report().accepted,
            r.ignored == self.spec_report().ignored,
            r.issues@ == self.spec_report().issues@,
            r.observations@.to_multiset() == self.spec_report().observations@.to_multiset(),
            sorted_by_key(r.observations@),
            self.wf() ==> report_consistent(r),
    {
        let ScanReport { visited, accepted, ignored, observations, issues } = self.report;
        ScanReport { visited, accepted, ignored, observations: sort_by_key(observations), issues }
    }
}

} // verus!
