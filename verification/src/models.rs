//! The data that the library, the catalog and the scanner exchange.

use vstd::prelude::*;
use vstd::string::*;
use crate::paths::{may_be_absolute, path_is_absolute};

verus! {

/// Whether a known ROM file was seen at the last scan of its root.
#[derive(Debug, Clone, Copy, PartialEq, Eq, Structural)]
pub enum RomAvailability {
    Available,
    Missing,
}

pub open spec fn availability_name(a: RomAvailability) -> Seq<char> {
    match a {
        RomAvailability::Available => "available"@,
        RomAvailability::Missing => "missing"@,
    }
}

pub open spec fn availability_from_name(name: Seq<char>) -> Option<RomAvailability> {
    if name == "available"@ {
        Some(RomAvailability::Available)
    } else if name == "missing"@ {
        Some(RomAvailability::Missing)
    } else {
        None
    }
}

impl RomAvailability {
    /// The stored (snake case) name of the availability.
    pub fn as_str(self) -> (s: &'static str)
        ensures
            s@ == availability_name(self),
    {
        match self {
            RomAvailability::Available => "available",
            RomAvailability::Missing => "missing",
        }
    }

    /// Reads a stored availability; any other text is refused.
    pub fn parse(value: &str) -> (r: Option<RomAvailability>)
        ensures
            r == availability_from_name(value@),
    {
        proof {
            reveal_strlit("available");
            reveal_strlit("missing");
        }
        if crate::text::str_eq(value, "available") {
            Some(RomAvailability::Available)
        } else if crate::text::str_eq(value, "missing") {
            Some(RomAvailability::Missing)
        } else {
            None
        }
    }
}

/// A ROM file known to the catalog.
#[derive(Debug, Clone, PartialEq, Eq)]
pub struct RomLocation {
    pub id: Option<i64>,
    pub game_id: Option<i64>,
    pub system_id: i64,
    pub path: String,
    pub extension: String,
    pub size_bytes: u64,
    pub modified_at: Option<i64>,
    pub sha256: Option<String>,
    pub availability: RomAvailability,
    pub last_seen_at: String,
}

/// A library directory scanned for the ROMs of one system.
#[derive(Debug, Clone, PartialEq, Eq)]
pub struct ScanRoot {
    pub system_id: i64,
    pub path: String,
    pub extensions: Vec<String>,
}

/// Why a scan root is refused.
#[derive(Debug, Clone, Copy, PartialEq, Eq, Structural)]
pub enum ScanRootError {
    NonPositiveSystemId,
    RelativePath,
    NoExtension,
}

pub open spec fn scan_root_error_text(e: ScanRootError) -> Seq<char> {
    match e {
        ScanRootError::NonPositiveSystemId => "system_id doit être positif"@,
        ScanRootError::RelativePath => "le chemin de scan doit être absolu"@,
        ScanRootError::NoExtension => "au moins une extension est requise"@,
    }
}

impl ScanRootError {
    /// The message shown to the administrator.
    pub fn message(&self) -> (s: String)
        ensures
            s@ == scan_root_error_text(*self),
    {
        match self {
            ScanRootError::NonPositiveSystemId => String::from_str("system_id doit être positif"),
            ScanRootError::RelativePath => String::from_str("le chemin de scan doit être absolu"),
            ScanRootError::NoExtension => String::from_str("au moins une extension est requise"),
        }
    }
}

/// The verdict on a scan root, given whether the platform reads its path as absolute.
pub open spec fn scan_root_verdict(
    system_id: i64,
    path_is_absolute: bool,
    extension_count: nat,
) -> Result<(), ScanRootError> {
    if system_id <= 0 {
        Err(ScanRootError::NonPositiveSystemId)
    } else if !path_is_absolute {
        Err(ScanRootError::RelativePath)
    } else if extension_count == 0 {
        Err(ScanRootError::NoExtension)
    } else {
        Ok(())
    }
}

/// The two root lists hold the same roots, field by field.
pub open spec fn same_roots(a: Seq<ScanRoot>, b: Seq<ScanRoot>) -> bool {
    &&& a.len() == b.len()
    &&& forall|k: int|
        0 <= k < a.len() ==> {
            &&& (#[trigger] a[k]).system_id == b[k].system_id
            &&& a[k].path == b[k].path
            &&& a[k].extensions@ == b[k].extensions@
        }
}

/// A copy of a list of roots.
pub fn copy_roots(roots: &Vec<ScanRoot>) -> (r: Vec<ScanRoot>)
    ensures
        same_roots(r@, roots@),
{
    let mut out: Vec<ScanRoot> = Vec::new();
    let n = roots.len();
    let mut i: usize = 0;
    while i < n
        invariant
            n == roots@.len(),
            i <= n,
            same_roots(out@, roots@.subrange(0, i as int)),
        decreases n - i,
    {
        let root = &roots[i];
        let mut extensions: Vec<String> = Vec::new();
        let m = root.extensions.len();
        let mut j: usize = 0;
        while j < m
            invariant
                m == root.extensions@.len(),
                j <= m,
                extensions@ == root.extensions@.subrange(0, j as int),
            decreases m - j,
        {
            extensions.push(root.extensions[j].clone());
            assert(extensions@ =~= root.extensions@.subrange(0, j + 1));
            j = j + 1;
        }
        assert(root.extensions@.subrange(0, m as int) =~= root.extensions@);
        out.push(ScanRoot { system_id: root.system_id, path: root.path.clone(), extensions });
        assert(same_roots(out@, roots@.subrange(0, i + 1)));
        i = i + 1;
    }
    assert(roots@.subrange(0, n as int) =~= roots@);
    out
}

impl ScanRoot {
    /// Checks the root, the absoluteness of its path being given.
    pub fn check(&self, path_is_absolute: bool) -> (r: Result<(), ScanRootError>)
        ensures
            r == scan_root_verdict(self.system_id, path_is_absolute, self.extensions@.len()),
    {
        if self.system_id <= 0 {
            Err(ScanRootError::NonPositiveSystemId)
        } else if !path_is_absolute {
            Err(ScanRootError::RelativePath)
        } else if self.extensions.len() == 0 {
            Err(ScanRootError::NoExtension)
        } else {
            Ok(())
        }
    }

    /// Checks the root against the platform's reading of its path.
    pub fn validate(&self) -> (r: Result<(), ScanRootError>)
        ensures
            exists|absolute: bool|
                r == scan_root_verdict(self.system_id, absolute, self.extensions@.len()),
            !may_be_absolute(self.path@) ==> r == scan_root_verdict(
                self.system_id,
                false,
                self.extensions@.len(),
            ),
    {
        let absolute = path_is_absolute(self.path.as_str());
        self.check(absolute)
    }
}

/// A file that a scan accepted.
#[derive(Debug, Clone, PartialEq, Eq)]
pub struct ScanObservation {
    pub system_id: i64,
    pub path: String,
    pub extension: String,
    pub size_bytes: u64,
    pub modified_at: Option<i64>,
}

/// A path that a scan could not read.
#[derive(Debug, Clone, PartialEq, Eq)]
pub struct ScanIssue {
    pub path: String,
    pub message: String,
}

/// What a scan of one root found.
#[derive(Debug, Clone, PartialEq, Eq)]
pub struct ScanReport {
    pub visited: usize,
    pub accepted: usize,
    pub ignored: usize,
    pub observations: Vec<ScanObservation>,
    pub issues: Vec<ScanIssue>,
}

impl Default for ScanReport {
    fn default() -> (r: Self)
        ensures
            r.visited == 0,
            r.accepted == 0,
            r.ignored == 0,
            r.observations@.len() == 0,
            r.issues@.len() == 0,
    {
        ScanReport {
            visited: 0,
            accepted: 0,
            ignored: 0,
            observations: Vec::new(),
            issues: Vec::new(),
        }
    }
}

/// Whether a game can be launched from the library, and from where by preference.
#[derive(Debug, Clone, PartialEq, Eq)]
pub struct LaunchAvailability {
    pub available: bool,
    pub location_count: usize,
    pub preferred_path: Option<String>,
}

impl Default for LaunchAvailability {
    fn default() -> (r: Self)
        ensures
            !r.available,
            r.location_count == 0,
            r.preferred_path is None,
    {
        LaunchAvailability { available: false, location_count: 0, preferred_path: None }
    }
}

/// The metadata of a game, as harvested or as resolved for a user.
#[derive(Debug, Clone, PartialEq, Eq)]
pub struct GameMetadata {
    pub game_id: i64,
    pub system_id: i64,
    pub system_name: String,
    pub title: String,
    pub description: String,
    pub cover_art: Option<String>,
    pub language: String,
    pub launch_availability: LaunchAvailability,
}

/// A user's own description and cover for a game; an absent field keeps the harvested one.
#[derive(Debug, Clone, PartialEq, Eq)]
pub struct UserOverride {
    pub user_id: i64,
    pub game_id: i64,
    pub description: Option<String>,
    pub cover_art: Option<String>,
}

/// A system and how many games the catalog holds for it.
#[derive(Debug, Clone, PartialEq, Eq)]
pub struct SystemSummary {
    pub system_id: i64,
    pub name: String,
    pub game_count: usize,
}

/// The resolved catalog of one user, as published to the offline cache.
#[derive(Debug, Clone, PartialEq, Eq)]
pub struct CacheSnapshot {
    pub user_id: i64,
    pub generated_at: String,
    pub games: Vec<GameMetadata>,
}

} // verus!
