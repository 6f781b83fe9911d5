//! The backend's configuration: listening address, database, authentication policy and
//! library roots, with the rules that a configuration must meet.

use vstd::prelude::*;
use vstd::string::*;
use crate::auth::AuthMode;
use crate::models::{ScanRoot, ScanRootError, scan_root_verdict};
use crate::paths::{may_be_absolute, path_is_absolute};
use crate::text::{ascii_lower, to_ascii_lowercase, trim, trim_start_char, trim_start_matches_char, trimmed};

verus! {

/// The backend's configuration file.
#[derive(Debug, Clone)]
pub struct BackendConfig {
    pub listen: String,
    pub database_path: String,
    pub auth: AuthConfig,
    pub library: LibraryConfig,
}

/// The library roots that the backend scans.
#[derive(Debug, Clone)]
pub struct LibraryConfig {
    pub roots: Vec<ScanRoot>,
}

/// The authentication policy of the backend.
#[derive(Debug, Clone)]
pub struct AuthConfig {
    pub mode: AuthMode,
    pub session_ttl_seconds: i64,
    pub oidc: OidcConfig,
}

/// Where OIDC tokens come from and for whom they are meant.
#[derive(Debug, Clone)]
pub struct OidcConfig {
    pub issuer: Option<String>,
    pub audience: Option<String>,
    pub jwks_url: Option<String>,
    pub auto_provision: bool,
}

impl Default for OidcConfig {
    fn default() -> (r: Self)
        ensures
            r.issuer is None,
            r.audience is None,
            r.jwks_url is None,
            !r.auto_provision,
    {
        OidcConfig { issuer: None, audience: None, jwks_url: None, auto_provision: false }
    }
}

impl Default for AuthConfig {
    fn default() -> (r: Self)
        ensures
            r.mode == AuthMode::Local,
            r.session_ttl_seconds == 86_400,
            r.oidc.issuer is None,
            r.oidc.audience is None,
            r.oidc.jwks_url is None,
            !r.oidc.auto_provision,
    {
        AuthConfig { mode: AuthMode::Local, session_ttl_seconds: 86_400, oidc: OidcConfig::default() }
    }
}

impl Default for LibraryConfig {
    fn default() -> (r: Self)
        ensures
            r.roots@.len() == 0,
    {
        LibraryConfig { roots: Vec::new() }
    }
}

pub const DEFAULT_LISTEN: &'static str = "127.0.0.1:8787";

pub const DEFAULT_DATABASE_PATH: &'static str = "data/backend.db";

impl Default for BackendConfig {
    fn default() -> (r: Self)
        ensures
            r.listen@ == DEFAULT_LISTEN@,
            r.database_path@ == DEFAULT_DATABASE_PATH@,
            r.auth.mode == AuthMode::Local,
            r.auth.session_ttl_seconds == 86_400,
            r.auth.oidc.issuer is None,
            r.auth.oidc.audience is None,
            r.auth.oidc.jwks_url is None,
            !r.auth.oidc.auto_provision,
            r.library.roots@.len() == 0,
    {
        BackendConfig {
            listen: String::from_str(DEFAULT_LISTEN),
            database_path: String::from_str(DEFAULT_DATABASE_PATH),
            auth: AuthConfig::default(),
            library: LibraryConfig::default(),
        }
    }
}

/// An extension as configured, made comparable: trimmed, without leading dots, in ASCII
/// lower case.
pub open spec fn normalize_extension(e: Seq<char>) -> Seq<char> {
    ascii_lower(trim_start_char(trimmed(e), '.'))
}

/// The normalized extensions of a list, the ones that normalize to nothing left out.
pub open spec fn normalized_extensions(exts: Seq<Seq<char>>) -> Seq<Seq<char>>
    decreases exts.len(),
{
    if exts.len() == 0 {
        Seq::empty()
    } else {
        let rest = normalized_extensions(exts.drop_last());
        let e = normalize_extension(exts.last());
        if e.len() == 0 {
            rest
        } else {
            rest.push(e)
        }
    }
}

pub open spec fn views(strings: Seq<String>) -> Seq<Seq<char>> {
    strings.map_values(|s: String| s@)
}

/// Normalizes one configured extension.
pub fn normalize_extension_text(e: &str) -> (r: String)
    ensures
        r@ == normalize_extension(e@),
{
    to_ascii_lowercase(trim_start_matches_char(trim(e), '.'))
}

/// Normalizes a list of configured extensions.
pub fn normalize_extensions(exts: &Vec<String>) -> (r: Vec<String>)
    ensures
        views(r@) == normalized_extensions(views(exts@)),
{
    let n = exts.len();
    let mut out: Vec<String> = Vec::new();
    let mut i: usize = 0;
    while i < n
        invariant
            n == exts@.len(),
            i <= n,
            views(out@) == normalized_extensions(views(exts@.subrange(0, i as int))),
        decreases n - i,
    {
        let e = normalize_extension_text(exts[i].as_str());
        let ghost before = out@;
        let ghost ev = e@;
        assert(views(exts@.subrange(0, i + 1)).drop_last() =~= views(exts@.subrange(0, i as int)));
        assert(views(exts@.subrange(0, i + 1)).last() == exts@[i as int]@);
        if e.unicode_len() > 0 {
            out.push(e);
            assert(views(out@) =~= views(before).push(ev));
        }
        i = i + 1;
    }
    assert(exts@.subrange(0, n as int) =~= exts@);
    out
}

/// Why a configuration is refused.
#[derive(Debug, Clone, Copy, PartialEq, Eq, Structural)]
pub enum ConfigError {
    Library(ScanRootError),
    EmptyDatabasePath,
    NonPositiveSessionTtl,
    MissingOidcIssuer,
    MissingOidcAudience,
    MissingOidcJwksUrl,
}

pub open spec fn config_error_text(e: ConfigError) -> Seq<char> {
    match e {
        ConfigError::Library(inner) => crate::models::scan_root_error_text(inner),
        ConfigError::EmptyDatabasePath => "database_path ne peut pas être vide"@,
        ConfigError::NonPositiveSessionTtl => "session_ttl_seconds doit être positif"@,
        ConfigError::MissingOidcIssuer => "OIDC issuer est obligatoire en mode SSO/hybrid"@,
        ConfigError::MissingOidcAudience => "OIDC audience est obligatoire en mode SSO/hybrid"@,
        ConfigError::MissingOidcJwksUrl => "OIDC jwks_url est obligatoire en mode SSO/hybrid"@,
    }
}

impl ConfigError {
    pub fn message(&self) -> (s: String)
        ensures
            s@ == config_error_text(*self),
    {
        match self {
            ConfigError::Library(inner) => inner.message(),
            ConfigError::EmptyDatabasePath => String::from_str("database_path ne peut pas être vide"),
            ConfigError::NonPositiveSessionTtl => String::from_str(
                "session_ttl_seconds doit être positif",
            ),
            ConfigError::MissingOidcIssuer => String::from_str(
                "OIDC issuer est obligatoire en mode SSO/hybrid",
            ),
            ConfigError::MissingOidcAudience => String::from_str(
                "OIDC audience est obligatoire en mode SSO/hybrid",
            ),
            ConfigError::MissingOidcJwksUrl => String::from_str(
                "OIDC jwks_url est obligatoire en mode SSO/hybrid",
            ),
        }
    }
}

/// The verdict on roots checked in order, the absoluteness of each path being given.
pub open spec fn roots_verdict(roots: Seq<ScanRoot>, absolute: Seq<bool>) -> Result<(), ScanRootError>
    decreases roots.len(),
{
    if roots.len() == 0 {
        Ok(())
    } else {
        match roots_verdict(roots.drop_last(), absolute) {
            Err(e) => Err(e),
            Ok(()) => scan_root_verdict(
                roots.last().system_id,
                absolute[roots.len() - 1],
                normalized_extensions(views(roots.last().extensions@)).len(),
            ),
        }
    }
}

/// A setting that is absent or empty.
pub open spec fn blank_setting(value: Option<String>) -> bool {
    match value {
        Some(s) => s@.len() == 0,
        None => true,
    }
}

/// The verdict on the settings other than the library roots, in the order they are checked.
pub open spec fn settings_verdict(config: BackendConfig) -> Result<(), ConfigError> {
    if trimmed(config.database_path@).len() == 0 {
        Err(ConfigError::EmptyDatabasePath)
    } else if config.auth.session_ttl_seconds <= 0 {
        Err(ConfigError::NonPositiveSessionTtl)
    } else if config.auth.mode == AuthMode::Local {
        Ok(())
    } else if blank_setting(config.auth.oidc.issuer) {
        Err(ConfigError::MissingOidcIssuer)
    } else if blank_setting(config.auth.oidc.audience) {
        Err(ConfigError::MissingOidcAudience)
    } else if blank_setting(config.auth.oidc.jwks_url) {
        Err(ConfigError::MissingOidcJwksUrl)
    } else {
        Ok(())
    }
}

/// The verdict on a whole configuration, the absoluteness of each root's path being given.
pub open spec fn config_verdict(config: BackendConfig, absolute: Seq<bool>) -> Result<(), ConfigError> {
    match roots_verdict(config.library.roots@, absolute) {
        Err(e) => Err(ConfigError::Library(e)),
        Ok(()) => settings_verdict(config),
    }
}

fn blank(value: &Option<String>) -> (r: bool)
    ensures
        r == blank_setting(*value),
{
    match value {
        Some(s) => s.as_str().unicode_len() == 0,
        None => true,
    }
}

impl LibraryConfig {
    /// Checks every root as it would be once normalized, in order, until one is refused;
    /// the ghost result records the platform's reading of each path.
    pub fn check_roots(&self) -> (r: (Result<(), ScanRootError>, Ghost<Seq<bool>>))
        ensures
            r.1@.len() == self.roots@.len(),
            r.0 == roots_verdict(self.roots@, r.1@),
            forall|k: int| 0 <= k < self.roots@.len() && !may_be_absolute(self.roots@[k].path@)
                ==> !r.1@[k],
    {
        let n = self.roots.len();
        let mut absolute: Ghost<Seq<bool>> = Ghost(Seq::new(n as nat, |k: int| false));
        let mut i: usize = 0;
        while i < n
            invariant
                n == self.roots@.len(),
                i <= n,
                absolute@.len() == n,
                roots_verdict(self.roots@.subrange(0, i as int), absolute@) is Ok,
                forall|k: int| 0 <= k < n && !may_be_absolute(self.roots@[k].path@) ==> !absolute@[k],
            decreases n - i,
        {
            let root = &self.roots[i];
            let abs = path_is_absolute(root.path.as_str());
            let count = normalize_extensions(&root.extensions).len();
            proof {
                let old_abs = absolute@;
                absolute@ = absolute@.update(i as int, abs);
                lemma_roots_verdict_agree(self.roots@.subrange(0, i as int), old_abs, absolute@);
                assert(self.roots@.subrange(0, i + 1).drop_last() =~= self.roots@.subrange(0, i as int));
            }
            let verdict = root.check_count(abs, count);
            if verdict.is_err() {
                proof {
                    lemma_roots_verdict_extend(self.roots@, absolute@, i as int + 1);
                }
                return (verdict, absolute);
            }
            i = i + 1;
        }
        assert(self.roots@.subrange(0, n as int) =~= self.roots@);
        (Ok(()), absolute)
    }

    /// Normalizes the extensions of every root, then checks the roots in order; the first
    /// root that is refused decides the error.
    pub fn normalize_and_validate(&mut self) -> (r: Result<(), ScanRootError>)
        ensures
            final(self).roots@.len() == old(self).roots@.len(),
            forall|k: int|
                0 <= k < final(self).roots@.len() ==> {
                    &&& (#[trigger] final(self).roots@[k]).system_id == old(self).roots@[k].system_id
                    &&& final(self).roots@[k].path@ == old(self).roots@[k].path@
                    &&& views(final(self).roots@[k].extensions@)
                        == normalized_extensions(views(old(self).roots@[k].extensions@))
                },
            exists|absolute: Seq<bool>|
                absolute.len() == old(self).roots@.len() && r == roots_verdict(old(self).roots@, absolute)
                    && forall|k: int| 0 <= k < absolute.len() && !may_be_absolute(old(self).roots@[k].path@)
                        ==> !absolute[k],
    {
        let ghost original = self.roots@;
        let n = self.roots.len();
        let mut roots = Vec::new();
        std::mem::swap(&mut roots, &mut self.roots);
        let mut normalized: Vec<ScanRoot> = Vec::new();
        let mut i: usize = 0;
        assert(roots@ =~= original.subrange(0, n as int));
        while i < n
            invariant
                n == original.len(),
                i <= n,
                roots@ == original.subrange(i as int, n as int),
                normalized@.len() == i,
                forall|k: int|
                    0 <= k < i ==> {
                        &&& (#[trigger] normalized@[k]).system_id == original[k].system_id
                        &&& normalized@[k].path@ == original[k].path@
                        &&& views(normalized@[k].extensions@)
                            == normalized_extensions(views(original[k].extensions@))
                    },
            decreases n - i,
        {
            let root = roots.remove(0);
            assert(root == original[i as int]);
            assert(roots@ =~= original.subrange(i + 1, n as int));
            let extensions = normalize_extensions(&root.extensions);
            normalized.push(ScanRoot { system_id: root.system_id, path: root.path, extensions });
            i = i + 1;
        }
        let mut absolute: Ghost<Seq<bool>> = Ghost(Seq::new(n as nat, |k: int| false));
        let mut j: usize = 0;
        let mut result: Result<(), ScanRootError> = Ok(());
        while j < n
            invariant_except_break
                result is Ok,
            invariant
                n == original.len(),
                normalized@.len() == n,
                forall|k: int|
                    0 <= k < n ==> {
                        &&& (#[trigger] normalized@[k]).system_id == original[k].system_id
                        &&& normalized@[k].path@ == original[k].path@
                        &&& views(normalized@[k].extensions@)
                            == normalized_extensions(views(original[k].extensions@))
                    },
                j <= n,
                absolute@.len() == n,
                forall|k: int| 0 <= k < n && !may_be_absolute(original[k].path@) ==> !absolute@[k],
                roots_verdict(original.subrange(0, j as int), absolute@) is Ok,
            ensures
                n == original.len(),
                absolute@.len() == n,
                forall|k: int| 0 <= k < n && !may_be_absolute(original[k].path@) ==> !absolute@[k],
                result is Ok ==> roots_verdict(original.subrange(0, n as int), absolute@) is Ok,
                normalized@.len() == n,
                forall|k: int|
                    0 <= k < n ==> {
                        &&& (#[trigger] normalized@[k]).system_id == original[k].system_id
                        &&& normalized@[k].path@ == original[k].path@
                        &&& views(normalized@[k].extensions@)
                            == normalized_extensions(views(original[k].extensions@))
                    },
                result is Err ==> result == roots_verdict(original, absolute@),
            decreases n - j,
        {
            let abs = path_is_absolute(normalized[j].path.as_str());
            proof {
                let old_abs = absolute@;
                absolute@ = absolute@.update(j as int, abs);
                lemma_roots_verdict_agree(original.subrange(0, j as int), old_abs, absolute@);
                assert(original.subrange(0, j + 1).drop_last() =~= original.subrange(0, j as int));
                assert(normalized@[j as int].extensions@.len() == views(normalized@[j as int].extensions@).len());
            }
            let verdict = normalized[j].check(abs);
            if verdict.is_err() {
                proof {
                    lemma_roots_verdict_extend(original, absolute@, j as int + 1);
                }
                result = verdict;
                break;
            }
            j = j + 1;
        }
        self.roots = normalized;
        match result {
            Ok(_) => {
                assert(original.subrange(0, n as int) =~= original);
                assert(roots_verdict(original, absolute@) == Ok::<(), ScanRootError>(()));
                Ok(())
            },
            Err(e) => Err(e),
        }
    }
}

impl BackendConfig {
    /// Checks a configuration: its library roots as they would be once normalized, then the
    /// database path, the session lifetime and, for SSO or hybrid modes, the OIDC settings.
    pub fn validate(&self) -> (r: Result<(), ConfigError>)
        ensures
            exists|absolute: Seq<bool>|
                absolute.len() == self.library.roots@.len() && r == config_verdict(*self, absolute)
                    && forall|k: int| 0 <= k < absolute.len() && !may_be_absolute(self.library.roots@[k].path@)
                        ==> !absolute[k],
    {
        let (library, absolute) = self.library.check_roots();
        let r = match library {
            Err(e) => Err(ConfigError::Library(e)),
            Ok(()) => self.check_settings(),
        };
        assert(r == config_verdict(*self, absolute@));
        r
    }

    fn check_settings(&self) -> (r: Result<(), ConfigError>)
        ensures
            r == settings_verdict(*self),
    {
        if trim(self.database_path.as_str()).unicode_len() == 0 {
            return Err(ConfigError::EmptyDatabasePath);
        }
        if self.auth.session_ttl_seconds <= 0 {
            return Err(ConfigError::NonPositiveSessionTtl);
        }
        match self.auth.mode {
            AuthMode::Local => {},
            AuthMode::Sso | AuthMode::Hybrid => {
                if blank(&self.auth.oidc.issuer) {
                    return Err(ConfigError::MissingOidcIssuer);
                }
                if blank(&self.auth.oidc.audience) {
                    return Err(ConfigError::MissingOidcAudience);
                }
                if blank(&self.auth.oidc.jwks_url) {
                    return Err(ConfigError::MissingOidcJwksUrl);
                }
            },
        }
        Ok(())
    }

    /// Normalizes the library's extensions, then checks the normalized configuration.
    pub fn normalize_and_validate(&mut self) -> (r: Result<(), ConfigError>)
        ensures
            final(self).listen@ == old(self).listen@,
            final(self).database_path@ == old(self).database_path@,
            final(self).auth.mode == old(self).auth.mode,
            final(self).auth.session_ttl_seconds == old(self).auth.session_ttl_seconds,
            final(self).auth.oidc == old(self).auth.oidc,
            final(self).library.roots@.len() == old(self).library.roots@.len(),
            forall|k: int|
                0 <= k < final(self).library.roots@.len() ==> {
                    &&& (#[trigger] final(self).library.roots@[k]).system_id
                        == old(self).library.roots@[k].system_id
                    &&& final(self).library.roots@[k].path@ == old(self).library.roots@[k].path@
                    &&& views(final(self).library.roots@[k].extensions@)
                        == normalized_extensions(views(old(self).library.roots@[k].extensions@))
                },
            exists|absolute: Seq<bool>|
                absolute.len() == old(self).library.roots@.len() && (forall|k: int|
                    0 <= k < absolute.len() && !may_be_absolute(old(self).library.roots@[k].path@)
                        ==> !absolute[k]) && match #[trigger] roots_verdict(
                    old(self).library.roots@,
                    absolute,
                ) {
                    Err(e) => r == Err::<(), ConfigError>(ConfigError::Library(e)),
                    Ok(()) => exists|again: Seq<bool>|
                        again.len() == absolute.len() && r == #[trigger] config_verdict(*final(self), again)
                        && forall|k: int| 0 <= k < again.len() && !may_be_absolute(final(self).library.roots@[k].path@)
                            ==> !again[k],
                },
    {
        match self.library.normalize_and_validate() {
            Err(e) => Err(ConfigError::Library(e)),
            Ok(()) => self.validate(),
        }
    }
}

impl ScanRoot {
    /// Checks a root whose normalized extensions number `count`.
    fn check_count(&self, path_is_absolute: bool, count: usize) -> (r: Result<(), ScanRootError>)
        ensures
            r == scan_root_verdict(self.system_id, path_is_absolute, count as nat),
    {
        if self.system_id <= 0 {
            Err(ScanRootError::NonPositiveSystemId)
        } else if !path_is_absolute {
            Err(ScanRootError::RelativePath)
        } else if count == 0 {
            Err(ScanRootError::NoExtension)
        } else {
            Ok(())
        }
    }
}

/// The verdict of the roots up to `k` stands for all of them once it is an error, and
/// only the first `k` readings of absoluteness matter to it.
proof fn lemma_roots_verdict_extend(roots: Seq<ScanRoot>, absolute: Seq<bool>, k: int)
    requires
        0 <= k <= roots.len(),
        roots_verdict(roots.subrange(0, k), absolute) is Err,
    ensures
        roots_verdict(roots, absolute) == roots_verdict(roots.subrange(0, k), absolute),
    decreases roots.len() - k,
{
    if k < roots.len() {
        assert(roots.subrange(0, k + 1).drop_last() =~= roots.subrange(0, k));
        lemma_roots_verdict_extend(roots, absolute, k + 1);
    } else {
        assert(roots.subrange(0, k) =~= roots);
    }
}

proof fn lemma_roots_verdict_agree(roots: Seq<ScanRoot>, a: Seq<bool>, b: Seq<bool>)
    requires
        roots.len() <= a.len(),
        roots.len() <= b.len(),
        forall|k: int| 0 <= k < roots.len() ==> a[k] == b[k],
    ensures
        roots_verdict(roots, a) == roots_verdict(roots, b),
    decreases roots.len(),
{
    if roots.len() > 0 {
        lemma_roots_verdict_agree(roots.drop_last(), a, b);
    }
}

} // verus!
