//! The catalog's rules: which accounts may sign in, how a user's overrides resolve over the
//! harvested metadata, where a game can be launched from, and which ROM may be linked to
//! which game. The storage reads the rows; these functions decide.

use vstd::prelude::*;
use vstd::string::*;
use crate::auth::{AuthPrincipal, AuthSource, Role, role_from_name, spec_password_matches, verify_password};
use crate::models::{GameMetadata, LaunchAvailability, RomAvailability, RomLocation, ScanRoot, UserOverride};
use crate::text::{push_signed_decimal, seq_le, signed_decimal, str_le, trim, trimmed, trim_end_char, trim_end_matches_char};

verus! {

/// Why the catalog refuses an operation.
#[derive(Debug, Clone, PartialEq, Eq)]
pub enum CatalogError {
    InvalidStoredRole,
    EmptyUsername,
    ShortPassword,
    RomNotFound { path: String },
    GameNotFound { game_id: i64 },
    SystemMismatch { rom_system: i64, game_system: i64 },
    NoAssociation { path: String },
}

pub open spec fn catalog_error_text(e: CatalogError) -> Seq<char> {
    match e {
        CatalogError::InvalidStoredRole => "rôle invalide en base"@,
        CatalogError::EmptyUsername => "le nom utilisateur est vide"@,
        CatalogError::ShortPassword => "le mot de passe doit contenir au moins 8 caractères"@,
        CatalogError::RomNotFound { path } => "ROM introuvable : "@ + path@,
        CatalogError::GameNotFound { game_id } => "jeu introuvable : "@ + signed_decimal(game_id as int),
        CatalogError::SystemMismatch { rom_system, game_system } => "association refusée : ROM (système "@
            + signed_decimal(rom_system as int) + ") et jeu (système "@ + signed_decimal(game_system as int)
            + ") appartiennent à des systèmes différents"@,
        CatalogError::NoAssociation { path } => "association introuvable pour la ROM : "@ + path@,
    }
}

impl CatalogError {
    /// The message shown to the administrator.
    pub fn message(&self) -> (s: String)
        ensures
            s@ == catalog_error_text(*self),
    {
        match self {
            CatalogError::InvalidStoredRole => String::from_str("rôle invalide en base"),
            CatalogError::EmptyUsername => String::from_str("le nom utilisateur est vide"),
            CatalogError::ShortPassword => String::from_str(
                "le mot de passe doit contenir au moins 8 caractères",
            ),
            CatalogError::RomNotFound { path } => {
                let mut s = String::from_str("ROM introuvable : ");
                s.append(path.as_str());
                s
            },
            CatalogError::GameNotFound { game_id } => {
                let mut s = String::from_str("jeu introuvable : ");
                push_signed_decimal(&mut s, *game_id);
                s
            },
            CatalogError::SystemMismatch { rom_system, game_system } => {
                let mut s = String::from_str("association refusée : ROM (système ");
                push_signed_decimal(&mut s, *rom_system);
                s.append(") et jeu (système ");
                push_signed_decimal(&mut s, *game_system);
                s.append(") appartiennent à des systèmes différents");
                s
            },
            CatalogError::NoAssociation { path } => {
                let mut s = String::from_str("association introuvable pour la ROM : ");
                s.append(path.as_str());
                s
            },
        }
    }
}

/// An account as the administration lists it.
#[derive(Debug, Clone, PartialEq, Eq)]
pub struct UserRecord {
    pub user_id: i64,
    pub username: String,
    pub role: String,
    pub enabled: bool,
    pub sso: bool,
}

/// The minimum length, in bytes, of a local password.
pub const MIN_PASSWORD_BYTES: usize = 8;

/// Checks a new local account: the trimmed name must not be empty and the password must
/// hold at least eight bytes. The name to store is the trimmed one.
pub fn validate_new_local_user(username: &str, password: &str) -> (r: Result<String, CatalogError>)
    ensures
        trimmed(username@).len() == 0 ==> r == Err::<String, CatalogError>(CatalogError::EmptyUsername),
        trimmed(username@).len() > 0 && password.spec_bytes().len() < MIN_PASSWORD_BYTES
            ==> r == Err::<String, CatalogError>(CatalogError::ShortPassword),
        trimmed(username@).len() > 0 && password.spec_bytes().len() >= MIN_PASSWORD_BYTES
            ==> (r matches Ok(name) && name@ == trimmed(username@)),
{
    let name = trim(username);
    if name.unicode_len() == 0 {
        return Err(CatalogError::EmptyUsername);
    }
    if password.as_bytes().len() < MIN_PASSWORD_BYTES {
        return Err(CatalogError::ShortPassword);
    }
    Ok(String::from_str(name))
}

/// The stored credentials of a local account.
#[derive(Debug, Clone, PartialEq, Eq)]
pub struct LocalUserRecord {
    pub user_id: i64,
    pub password_hash: String,
    pub role: String,
    pub enabled: bool,
}

/// What a local sign-in attempt is granted.
#[derive(Debug, Clone, Copy, PartialEq, Eq, Structural)]
pub enum LocalLoginDecision {
    Refused,
    Accepted { user_id: i64, role: Role },
}

/// An unknown or disabled account, or a wrong password, is refused without saying which;
/// a known, enabled account with the right password is accepted with its stored role.
pub fn judge_local_login(record: Option<LocalUserRecord>, password: &str) -> (r: Result<
    LocalLoginDecision,
    CatalogError,
>)
    ensures
        r == (match record {
            None => Ok(LocalLoginDecision::Refused),
            Some(rec) => if !rec.enabled || !spec_password_matches(password@, rec.password_hash@) {
                Ok(LocalLoginDecision::Refused)
            } else {
                match role_from_name(rec.role@) {
                    Some(role) => Ok(LocalLoginDecision::Accepted { user_id: rec.user_id, role }),
                    None => Err(CatalogError::InvalidStoredRole),
                }
            },
        }),
{
    match record {
        None => Ok(LocalLoginDecision::Refused),
        Some(rec) => {
            if !rec.enabled || !verify_password(password, rec.password_hash.as_str()) {
                return Ok(LocalLoginDecision::Refused);
            }
            match Role::parse(rec.role.as_str()) {
                Some(role) => Ok(LocalLoginDecision::Accepted { user_id: rec.user_id, role }),
                None => Err(CatalogError::InvalidStoredRole),
            }
        },
    }
}

/// The instant a session opened at `now` expires.
pub fn session_expiry(now: i64, ttl_seconds: i64) -> (r: i64)
    requires
        i64::MIN <= now + ttl_seconds <= i64::MAX,
    ensures
        r == now + ttl_seconds,
{
    now + ttl_seconds
}

/// A session and its account, as stored.
#[derive(Debug, Clone, PartialEq, Eq)]
pub struct SessionRecord {
    pub user_id: i64,
    pub username: String,
    pub role: String,
    pub expires_at: i64,
}

/// The principal of a bearer token whose unexpired session of an enabled account was found.
pub fn principal_from_session(record: Option<SessionRecord>, token: &str) -> (r: Result<
    Option<AuthPrincipal>,
    CatalogError,
>)
    ensures
        record is None ==> r == Ok::<Option<AuthPrincipal>, CatalogError>(None),
        record matches Some(rec) ==> match role_from_name(rec.role@) {
            None => r == Err::<Option<AuthPrincipal>, CatalogError>(CatalogError::InvalidStoredRole),
            Some(role) => r matches Ok(Some(p)) && {
                &&& p.user_id == rec.user_id
                &&& p.username == rec.username
                &&& p.role == role
                &&& p.source == AuthSource::Local
                &&& p.token@ == token@
                &&& p.expires_at == Some(rec.expires_at)
            },
        },
{
    match record {
        None => Ok(None),
        Some(rec) => match Role::parse(rec.role.as_str()) {
            None => Err(CatalogError::InvalidStoredRole),
            Some(role) => Ok(
                Some(
                    AuthPrincipal {
                        user_id: rec.user_id,
                        username: rec.username,
                        role,
                        source: AuthSource::Local,
                        token: String::from_str(token),
                        expires_at: Some(rec.expires_at),
                    },
                ),
            ),
        },
    }
}

/// An account linked to an OIDC subject, as stored.
#[derive(Debug, Clone, PartialEq, Eq)]
pub struct SsoUserRecord {
    pub user_id: i64,
    pub username: String,
    pub role: String,
    pub enabled: bool,
}

/// What to do with the account of an OIDC subject.
#[derive(Debug, Clone, PartialEq, Eq)]
pub enum SsoDecision {
    /// The subject has an account: use it.
    Existing(SsoUserRecord),
    /// The subject is unknown and accounts are created on first sign-in.
    Provision,
    /// The subject is unknown and accounts are not created on first sign-in.
    Refuse,
}

pub fn judge_sso_subject(existing: Option<SsoUserRecord>, auto_provision: bool) -> (r: SsoDecision)
    ensures
        r == (match existing {
            Some(rec) => SsoDecision::Existing(rec),
            None => if auto_provision {
                SsoDecision::Provision
            } else {
                SsoDecision::Refuse
            },
        }),
{
    match existing {
        Some(rec) => SsoDecision::Existing(rec),
        None => if auto_provision {
            SsoDecision::Provision
        } else {
            SsoDecision::Refuse
        },
    }
}

/// The user name under which an OIDC subject's account is created.
pub fn provisioned_username(username: &str) -> (r: String)
    ensures
        r@ == "sso:"@ + username@,
{
    let mut s = String::from_str("sso:");
    s.append(username);
    s
}

/// The principal of an OIDC account: none if it is disabled.
pub fn sso_principal(record: SsoUserRecord) -> (r: Result<Option<AuthPrincipal>, CatalogError>)
    ensures
        !record.enabled ==> r == Ok::<Option<AuthPrincipal>, CatalogError>(None),
        record.enabled ==> match role_from_name(record.role@) {
            None => r == Err::<Option<AuthPrincipal>, CatalogError>(CatalogError::InvalidStoredRole),
            Some(role) => r matches Ok(Some(p)) && {
                &&& p.user_id == record.user_id
                &&& p.username == record.username
                &&& p.role == role
                &&& p.source == AuthSource::Sso
                &&& p.token@.len() == 0
                &&& p.expires_at is None
            },
        },
{
    if !record.enabled {
        return Ok(None);
    }
    match Role::parse(record.role.as_str()) {
        None => Err(CatalogError::InvalidStoredRole),
        Some(role) => Ok(
            Some(
                AuthPrincipal {
                    user_id: record.user_id,
                    username: record.username,
                    role,
                    source: AuthSource::Sso,
                    token: String::new(),
                    expires_at: None,
                },
            ),
        ),
    }
}

/// A ROM may be linked to a game only when both exist and belong to the same system.
pub fn judge_link(path: &str, game_id: i64, rom_system: Option<i64>, game_system: Option<i64>) -> (r:
    Result<(), CatalogError>)
    ensures
        rom_system is None ==> (r matches Err(CatalogError::RomNotFound { path: p }) && p@ == path@),
        rom_system is Some && game_system is None ==> r == Err::<(), CatalogError>(
            CatalogError::GameNotFound { game_id },
        ),
        rom_system is Some && game_system is Some ==> (if rom_system->0 == game_system->0 {
            r is Ok
        } else {
            r == Err::<(), CatalogError>(
                CatalogError::SystemMismatch { rom_system: rom_system->0, game_system: game_system->0 },
            )
        }),
{
    let rom = match rom_system {
        None => {
            return Err(CatalogError::RomNotFound { path: String::from_str(path) });
        },
        Some(s) => s,
    };
    let game = match game_system {
        None => {
            return Err(CatalogError::GameNotFound { game_id });
        },
        Some(s) => s,
    };
    if rom != game {
        return Err(CatalogError::SystemMismatch { rom_system: rom, game_system: game });
    }
    Ok(())
}

/// Unlinking succeeds only when a linked location was changed.
pub fn judge_unlink(path: &str, changed: usize) -> (r: Result<(), CatalogError>)
    ensures
        changed == 0 ==> (r matches Err(CatalogError::NoAssociation { path: p }) && p@ == path@),
        changed > 0 ==> r is Ok,
{
    if changed == 0 {
        return Err(CatalogError::NoAssociation { path: String::from_str(path) });
    }
    Ok(())
}

/// The metadata a user sees: each field of the user's override, where present, over the
/// harvested one; the other fields are the harvested ones.
pub open spec fn resolved(base: GameMetadata, over: Option<UserOverride>) -> GameMetadata {
    match over {
        None => base,
        Some(o) => GameMetadata {
            description: match o.description {
                Some(d) => d,
                None => base.description,
            },
            cover_art: match o.cover_art {
                Some(c) => Some(c),
                None => base.cover_art,
            },
            ..base
        },
    }
}

pub fn resolve_game(base: GameMetadata, over: Option<UserOverride>) -> (r: GameMetadata)
    ensures
        r == resolved(base, over),
{
    match over {
        None => base,
        Some(o) => {
            let GameMetadata {
                game_id,
                system_id,
                system_name,
                title,
                description,
                cover_art,
                language,
                launch_availability,
            } = base;
            GameMetadata {
                game_id,
                system_id,
                system_name,
                title,
                description: match o.description {
                    Some(d) => d,
                    None => description,
                },
                cover_art: match o.cover_art {
                    Some(c) => Some(c),
                    None => cover_art,
                },
                language,
                launch_availability,
            }
        },
    }
}

/// A user's override never hides a field it does not set, and a field it sets is what the
/// user sees.
pub proof fn lemma_override_precedence(base: GameMetadata, o: UserOverride)
    ensures
        o.description matches Some(d) ==> resolved(base, Some(o)).description == d,
        o.description is None ==> resolved(base, Some(o)).description == base.description,
        o.cover_art matches Some(c) ==> resolved(base, Some(o)).cover_art == Some(c),
        o.cover_art is None ==> resolved(base, Some(o)).cover_art == base.cover_art,
        resolved(base, Some(o)).game_id == base.game_id,
        resolved(base, Some(o)).system_id == base.system_id,
        resolved(base, Some(o)).title == base.title,
        resolved(base, None) == base,
{
}

/// A path that comes first, or equal, among `paths`.
pub open spec fn is_least_path(p: Seq<char>, paths: Seq<Seq<char>>) -> bool {
    paths.contains(p) && forall|k: int| 0 <= k < paths.len() ==> seq_le(p, #[trigger] paths[k])
}

/// A game can be launched when some available location is linked to it; the location with
/// the first path is preferred.
pub fn launch_availability(available_paths: Vec<String>) -> (r: LaunchAvailability)
    ensures
        r.available == (available_paths@.len() > 0),
        r.location_count == available_paths@.len(),
        available_paths@.len() == 0 ==> r.preferred_path is None,
        available_paths@.len() > 0 ==> (r.preferred_path matches Some(p) && is_least_path(
            p@,
            crate::backend_config::views(available_paths@),
        )),
{
    let n = available_paths.len();
    if n == 0 {
        return LaunchAvailability { available: false, location_count: 0, preferred_path: None };
    }
    let ghost paths = crate::backend_config::views(available_paths@);
    let mut best: usize = 0;
    let mut i: usize = 1;
    proof {
        crate::text::lemma_seq_le_refl(available_paths@[0]@);
    }
    while i < n
        invariant
            n == available_paths@.len(),
            paths == crate::backend_config::views(available_paths@),
            0 <= best < n,
            1 <= i <= n,
            forall|k: int| 0 <= k < i ==> seq_le(available_paths@[best as int]@, #[trigger] paths[k]),
        decreases n - i,
    {
        if !str_le(available_paths[best].as_str(), available_paths[i].as_str()) {
            proof {
                crate::text::lemma_seq_le_total(available_paths@[best as int]@, available_paths@[i as int]@);
                assert forall|k: int| 0 <= k < i implies seq_le(available_paths@[i as int]@, #[trigger] paths[k]) by {
                    crate::text::lemma_seq_le_trans(available_paths@[i as int]@, available_paths@[best as int]@, paths[k]);
                }
                crate::text::lemma_seq_le_refl(available_paths@[i as int]@);
            }
            best = i;
        }
        i = i + 1;
    }
    assert(paths[best as int] == available_paths@[best as int]@);
    LaunchAvailability {
        available: true,
        location_count: n,
        preferred_path: Some(available_paths[best].clone()),
    }
}

/// The scope of a library root in the catalog: its path without trailing slashes, and the
/// prefix that the paths below it start with.
pub fn root_scope(root_path: &str) -> (r: (String, String))
    ensures
        r.0@ == trim_end_char(root_path@, '/'),
        r.1@ == trim_end_char(root_path@, '/').push('/'),
{
    let normalized = trim_end_matches_char(root_path, '/');
    let mut prefix = String::from_str(normalized);
    crate::text::push_char(&mut prefix, '/');
    (String::from_str(normalized), prefix)
}

} // verus!

verus! {

/// A known location lies under a scanned root: it belongs to the root's system and its
/// path is the root's path, or lies below it.
pub open spec fn in_root_scope(location: RomLocation, root: ScanRoot) -> bool {
    &&& location.system_id == root.system_id
    &&& (location.path@ == trim_end_char(root.path@, '/') || crate::text::has_prefix(
        location.path@,
        trim_end_char(root.path@, '/').push('/'),
    ))
}

/// A location as a new scan of `root` first records it: an available location under the
/// root is marked missing, until the scan observes it again; any other is kept.
pub open spec fn before_rescan(location: RomLocation, root: ScanRoot) -> RomLocation {
    if location.availability == RomAvailability::Available && in_root_scope(location, root) {
        RomLocation { availability: RomAvailability::Missing, ..location }
    } else {
        location
    }
}

/// Whether a location lies under a scanned root.
pub fn location_in_root_scope(location: &RomLocation, root: &ScanRoot) -> (r: bool)
    ensures
        r == in_root_scope(*location, *root),
{
    let (normalized, prefix) = root_scope(root.path.as_str());
    location.system_id == root.system_id && (crate::text::str_eq(location.path.as_str(), normalized.as_str())
        || crate::text::starts_with(location.path.as_str(), prefix.as_str()))
}

/// Marks missing, before a scan of `root` records what it observed, every available
/// location under the root; the others are kept, in their order.
pub fn mark_missing_before_rescan(locations: Vec<RomLocation>, root: &ScanRoot) -> (r: Vec<RomLocation>)
    ensures
        r@.len() == locations@.len(),
        forall|k: int| 0 <= k < r@.len() ==> #[trigger] r@[k] == before_rescan(locations@[k], *root),
{
    let ghost original = locations@;
    let n = locations.len();
    let mut rest = locations;
    let mut out: Vec<RomLocation> = Vec::new();
    let mut i: usize = 0;
    assert(rest@ =~= original.subrange(0, n as int));
    while i < n
        invariant
            n == original.len(),
            i <= n,
            rest@ == original.subrange(i as int, n as int),
            out@.len() == i,
            forall|k: int| 0 <= k < i ==> #[trigger] out@[k] == before_rescan(original[k], *root),
        decreases n - i,
    {
        let location = rest.remove(0);
        assert(location == original[i as int]);
        assert(rest@ =~= original.subrange(i + 1, n as int));
        let marked = match location.availability {
            RomAvailability::Available => location_in_root_scope(&location, root),
            RomAvailability::Missing => false,
        };
        if marked {
            out.push(RomLocation { availability: RomAvailability::Missing, ..location });
        } else {
            out.push(location);
        }
        i = i + 1;
    }
    out
}

/// What a rescan first does to the known locations, at any depth under the root: with
/// `base` the root's path without its trailing `/`, every available location of the
/// root's system whose path is `base`, or starts with `base` followed by `/`, however deep
/// below, comes out missing with everything else about it kept; every other location comes
/// out as it was.
pub proof fn lemma_rescan_marks_every_depth(
    locations: Seq<RomLocation>,
    root: ScanRoot,
    marked: Seq<RomLocation>,
    k: int,
)
    requires
        marked.len() == locations.len(),
        forall|j: int| 0 <= j < marked.len() ==> #[trigger] marked[j] == before_rescan(locations[j], root),
        0 <= k < locations.len(),
    ensures
        ({
            let location = locations[k];
            let base = trim_end_char(root.path@, '/');
            let below = location.path@ == base || (base.len() < location.path@.len()
                && location.path@.subrange(0, base.len() + 1int) == base.push('/'));
            &&& (location.availability == RomAvailability::Available && location.system_id == root.system_id
                && below) ==> marked[k] == RomLocation { availability: RomAvailability::Missing, ..location }
            &&& !(location.availability == RomAvailability::Available && location.system_id == root.system_id
                && below) ==> marked[k] == location
        }),
{
    let location = locations[k];
    let base = trim_end_char(root.path@, '/');
    assert(marked[k] == before_rescan(location, root));
    if base.len() < location.path@.len() && location.path@.subrange(0, base.len() + 1int) == base.push('/') {
        assert(crate::text::has_prefix(location.path@, base.push('/')));
    }
    if crate::text::has_prefix(location.path@, base.push('/')) && location.path@ != base {
        assert(location.path@.subrange(0, base.len() + 1int) == base.push('/'));
        assert(base.len() < location.path@.len());
    }
}

/// The number of missing locations under a root.
pub open spec fn missing_in_scope(locations: Seq<RomLocation>, root: ScanRoot) -> nat
    decreases locations.len(),
{
    if locations.len() == 0 {
        0
    } else {
        missing_in_scope(locations.drop_last(), root) + (if locations.last().availability
            == RomAvailability::Missing && in_root_scope(locations.last(), root) {
            1nat
        } else {
            0nat
        })
    }
}

/// How many locations under a root stay missing once its scan was recorded.
pub fn count_missing_in_scope(locations: &Vec<RomLocation>, root: &ScanRoot) -> (r: usize)
    ensures
        r == missing_in_scope(locations@, *root),
{
    let n = locations.len();
    let mut count: usize = 0;
    let mut i: usize = 0;
    while i < n
        invariant
            n == locations@.len(),
            i <= n,
            count == missing_in_scope(locations@.subrange(0, i as int), *root),
            count <= i,
        decreases n - i,
    {
        assert(locations@.subrange(0, i + 1).drop_last() =~= locations@.subrange(0, i as int));
        let missing = match locations[i].availability {
            RomAvailability::Missing => location_in_root_scope(&locations[i], root),
            RomAvailability::Available => false,
        };
        if missing {
            count = count + 1;
        }
        i = i + 1;
    }
    assert(locations@.subrange(0, n as int) =~= locations@);
    count
}

/// How many known ROM files of a system are available, and how many are missing.
#[derive(Debug, Clone, Copy, PartialEq, Eq, Structural)]
pub struct SystemStatus {
    pub system_id: i64,
    pub available: usize,
    pub missing: usize,
}

/// A location is counted when no system is asked for, or when it belongs to the one asked for.
pub open spec fn counted(location: RomLocation, filter: Option<i64>) -> bool {
    match filter {
        None => true,
        Some(id) => location.system_id == id,
    }
}

/// The counted locations of `system_id` with availability `availability`.
pub open spec fn status_count(
    locations: Seq<RomLocation>,
    system_id: i64,
    availability: RomAvailability,
    filter: Option<i64>,
) -> nat
    decreases locations.len(),
{
    if locations.len() == 0 {
        0
    } else {
        status_count(locations.drop_last(), system_id, availability, filter) + (if counted(
            locations.last(),
            filter,
        ) && locations.last().system_id == system_id && locations.last().availability
            == availability {
            1nat
        } else {
            0nat
        })
    }
}

/// One line per system that has counted locations, in increasing system order, with its
/// available and missing counts.
pub open spec fn is_library_status(
    status: Seq<SystemStatus>,
    locations: Seq<RomLocation>,
    filter: Option<i64>,
) -> bool {
    &&& forall|a: int, b: int| 0 <= a < b < status.len() ==> (#[trigger] status[a]).system_id < (#[trigger] status[b]).system_id
    &&& forall|k: int|
        0 <= k < status.len() ==> {
            &&& (#[trigger] status[k]).available == status_count(locations, status[k].system_id, RomAvailability::Available, filter)
            &&& status[k].missing == status_count(locations, status[k].system_id, RomAvailability::Missing, filter)
            &&& status[k].available + status[k].missing > 0
        }
    &&& forall|id: i64|
        (forall|k: int| 0 <= k < status.len() ==> (#[trigger] status[k]).system_id != id) ==> status_count(
            locations,
            id,
            RomAvailability::Available,
            filter,
        ) == 0 && status_count(locations, id, RomAvailability::Missing, filter) == 0
}

proof fn lemma_status_count_bound(locations: Seq<RomLocation>, id: i64, av: RomAvailability, filter: Option<i64>)
    ensures
        status_count(locations, id, av, filter) <= locations.len(),
    decreases locations.len(),
{
    if locations.len() > 0 {
        lemma_status_count_bound(locations.drop_last(), id, av, filter);
    }
}

/// The availability of the library per system, as the administration reports it.
pub fn library_status(locations: &Vec<RomLocation>, filter: Option<i64>) -> (r: Vec<SystemStatus>)
    ensures
        is_library_status(r@, locations@, filter),
{
    let n = locations.len();
    let mut status: Vec<SystemStatus> = Vec::new();
    let mut i: usize = 0;
    while i < n
        invariant
            n == locations@.len(),
            i <= n,
            is_library_status(status@, locations@.subrange(0, i as int), filter),
            forall|k: int| 0 <= k < status@.len() ==> (#[trigger] status@[k]).available <= i && status@[k].missing <= i,
        decreases n - i,
    {
        let location = &locations[i];
        let ghost prefix = locations@.subrange(0, i as int);
        let ghost next = locations@.subrange(0, i + 1);
        assert(next.drop_last() =~= prefix);
        assert(next.last() == locations@[i as int]);
        proof {
            assert forall|id: i64, av: RomAvailability| #[trigger] status_count(next, id, av, filter) == status_count(prefix, id, av, filter)
                + (if counted(locations@[i as int], filter) && locations@[i as int].system_id == id
                    && locations@[i as int].availability == av { 1nat } else { 0nat }) by {}
        }
        let is_counted = match filter {
            None => true,
            Some(id) => location.system_id == id,
        };
        if is_counted {
            let id = location.system_id;
            let is_available = match location.availability {
                RomAvailability::Available => true,
                RomAvailability::Missing => false,
            };
            let mut p: usize = 0;
            while p < status.len() && status[p].system_id < id
                invariant
                    p <= status@.len(),
                    forall|k: int| 0 <= k < p ==> (#[trigger] status@[k]).system_id < id,
                decreases status@.len() - p,
            {
                p = p + 1;
            }
            let ghost before = status@;
            if p < status.len() && status[p].system_id == id {
                let old_entry = status[p];
                let entry = if is_available {
                    SystemStatus { system_id: id, available: old_entry.available + 1, missing: old_entry.missing }
                } else {
                    SystemStatus { system_id: id, available: old_entry.available, missing: old_entry.missing + 1 }
                };
                status.set(p, entry);
                proof {
                    assert forall|k: int| 0 <= k < status@.len() implies (#[trigger] status@[k]).system_id == before[k].system_id by {}
                    assert forall|id2: i64|
                        (forall|k: int| 0 <= k < status@.len() ==> (#[trigger] status@[k]).system_id != id2) implies status_count(
                            next, id2, RomAvailability::Available, filter) == 0
                            && status_count(next, id2, RomAvailability::Missing, filter) == 0 by {
                        assert(status@[p as int].system_id == id);
                        assert forall|k: int| 0 <= k < before.len() implies (#[trigger] before[k]).system_id != id2 by {
                            assert(status@[k].system_id == before[k].system_id);
                        }
                        assert(status_count(next, id2, RomAvailability::Available, filter) == status_count(prefix, id2, RomAvailability::Available, filter));
                        assert(status_count(next, id2, RomAvailability::Missing, filter) == status_count(prefix, id2, RomAvailability::Missing, filter));
                    }
                    assert forall|k: int| 0 <= k < status@.len() implies {
                        &&& (#[trigger] status@[k]).available == status_count(next, status@[k].system_id, RomAvailability::Available, filter)
                        &&& status@[k].missing == status_count(next, status@[k].system_id, RomAvailability::Missing, filter)
                        &&& status@[k].available + status@[k].missing > 0
                    } by {
                        assert(status_count(next, status@[k].system_id, RomAvailability::Available, filter) == status_count(prefix, status@[k].system_id, RomAvailability::Available, filter) + (if counted(locations@[i as int], filter) && locations@[i as int].system_id == status@[k].system_id && locations@[i as int].availability == RomAvailability::Available { 1nat } else { 0nat }));
                        assert(status_count(next, status@[k].system_id, RomAvailability::Missing, filter) == status_count(prefix, status@[k].system_id, RomAvailability::Missing, filter) + (if counted(locations@[i as int], filter) && locations@[i as int].system_id == status@[k].system_id && locations@[i as int].availability == RomAvailability::Missing { 1nat } else { 0nat }));
                    }
                }
            } else {
                let entry = if is_available {
                    SystemStatus { system_id: id, available: 1, missing: 0 }
                } else {
                    SystemStatus { system_id: id, available: 0, missing: 1 }
                };
                proof {
                    assert forall|k: int| 0 <= k < before.len() implies (#[trigger] before[k]).system_id != id by {
                        if k >= p {
                            if k > p {
                                assert(before[p as int].system_id < before[k].system_id);
                            }
                        }
                    }
                    assert(status_count(prefix, id, RomAvailability::Available, filter) == 0);
                    assert(status_count(prefix, id, RomAvailability::Missing, filter) == 0);
                }
                status.insert(p, entry);
                proof {
                    assert(status@ == before.insert(p as int, entry));
                    assert forall|a: int, b: int| 0 <= a < b < status@.len() implies (#[trigger] status@[a]).system_id < (#[trigger] status@[b]).system_id by {
                        if b < p {
                        } else if b == p {
                        } else if a < p {
                            assert(status@[b] == before[b - 1]);
                            if b - 1 > p {
                                assert(before[p as int].system_id < before[b - 1].system_id);
                            }
                        } else if a == p {
                            assert(status@[b] == before[b - 1]);
                            if b - 1 > p {
                                assert(before[p as int].system_id < before[b - 1].system_id);
                            }
                        } else {
                            assert(status@[a] == before[a - 1] && status@[b] == before[b - 1]);
                        }
                    }
                    assert forall|k: int| 0 <= k < status@.len() implies {
                        &&& (#[trigger] status@[k]).available == status_count(next, status@[k].system_id, RomAvailability::Available, filter)
                        &&& status@[k].missing == status_count(next, status@[k].system_id, RomAvailability::Missing, filter)
                        &&& status@[k].available + status@[k].missing > 0
                    } by {
                        if k != p {
                            let j = if k < p { k } else { k - 1 };
                            assert(status@[k] == before[j]);
                        }
                        assert(status_count(next, status@[k].system_id, RomAvailability::Available, filter) == status_count(prefix, status@[k].system_id, RomAvailability::Available, filter) + (if counted(locations@[i as int], filter) && locations@[i as int].system_id == status@[k].system_id && locations@[i as int].availability == RomAvailability::Available { 1nat } else { 0nat }));
                        assert(status_count(next, status@[k].system_id, RomAvailability::Missing, filter) == status_count(prefix, status@[k].system_id, RomAvailability::Missing, filter) + (if counted(locations@[i as int], filter) && locations@[i as int].system_id == status@[k].system_id && locations@[i as int].availability == RomAvailability::Missing { 1nat } else { 0nat }));
                    }
                    assert forall|id2: i64|
                        (forall|k: int| 0 <= k < status@.len() ==> (#[trigger] status@[k]).system_id != id2) implies status_count(
                            next, id2, RomAvailability::Available, filter) == 0
                            && status_count(next, id2, RomAvailability::Missing, filter) == 0 by {
                        assert(status@[p as int].system_id == id);
                        assert forall|k: int| 0 <= k < before.len() implies (#[trigger] before[k]).system_id != id2 by {
                            let j = if k < p { k } else { k + 1 };
                            assert(status@[j] == before[k]);
                        }
                        assert(status_count(next, id2, RomAvailability::Available, filter) == status_count(prefix, id2, RomAvailability::Available, filter));
                        assert(status_count(next, id2, RomAvailability::Missing, filter) == status_count(prefix, id2, RomAvailability::Missing, filter));
                    }
                }
            }
        } else {
            proof {
                assert forall|id2: i64, av: RomAvailability| #[trigger] status_count(next, id2, av, filter) == status_count(prefix, id2, av, filter) by {}
            }
        }
        i = i + 1;
    }
    assert(locations@.subrange(0, n as int) =~= locations@);
    status
}

} // verus!
