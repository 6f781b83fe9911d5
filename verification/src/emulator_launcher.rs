//! Emulator profiles per system and the command that launches a ROM with one.

use vstd::prelude::*;
use vstd::string::*;
use crate::text::{replace_all, replace_text, signed_decimal, str_eq, trim, trimmed};
use std::collections::HashMap;

verus! {

/// The emulator profiles of a configuration file.
#[derive(Debug, Clone)]
pub struct EmulatorConfig {
    pub profiles: Vec<EmulatorProfile>,
}

impl Default for EmulatorConfig {
    fn default() -> (r: Self)
        ensures
            r.profiles@.len() == 0,
    {
        EmulatorConfig { profiles: Vec::new() }
    }
}

/// How to launch the ROMs of one system; the argument `{rom}` stands for the ROM's path.
#[derive(Debug, Clone)]
pub struct EmulatorProfile {
    pub system_id: i64,
    pub executable: String,
    pub arguments: Vec<String>,
}

/// A program and its arguments, run without a shell.
#[derive(Debug, Clone, PartialEq, Eq)]
pub struct LaunchCommand {
    pub executable: String,
    pub arguments: Vec<String>,
}

/// Why a configuration or a launch is refused.
#[derive(Debug, Clone, PartialEq, Eq)]
pub enum LauncherError {
    NonPositiveSystemId,
    MissingExecutable { system_id: i64 },
    MissingRomPlaceholder { system_id: i64 },
    DuplicateProfile,
    NoEmulator { system_id: i64 },
    RomNotFound { path: String },
}

pub open spec fn launcher_error_text(e: LauncherError) -> Seq<char> {
    match e {
        LauncherError::NonPositiveSystemId => "system_id émulateur doit être positif"@,
        LauncherError::MissingExecutable { system_id } => "exécutable émulateur absent pour le système "@
            + signed_decimal(system_id as int),
        LauncherError::MissingRomPlaceholder { system_id } => "le profil émulateur du système "@
            + signed_decimal(system_id as int) + " doit contenir l'argument "@ + ROM_PLACEHOLDER@,
        LauncherError::DuplicateProfile => "profil émulateur dupliqué pour le système"@,
        LauncherError::NoEmulator { system_id } => "aucun émulateur configuré pour le système "@
            + signed_decimal(system_id as int),
        LauncherError::RomNotFound { path } => "ROM locale introuvable : "@ + path@,
    }
}

impl LauncherError {
    /// The message shown to the user; the one on a missing placeholder names it.
    pub fn message(&self) -> (s: String)
        ensures
            s@ == launcher_error_text(*self),
            *self is MissingRomPlaceholder ==> crate::text::contains_text(s@, ROM_PLACEHOLDER@),
    {
        match self {
            LauncherError::NonPositiveSystemId => String::from_str(
                "system_id émulateur doit être positif",
            ),
            LauncherError::MissingExecutable { system_id } => {
                let mut s = String::from_str("exécutable émulateur absent pour le système ");
                crate::text::push_signed_decimal(&mut s, *system_id);
                s
            },
            LauncherError::MissingRomPlaceholder { system_id } => {
                let mut s = String::from_str("le profil émulateur du système ");
                crate::text::push_signed_decimal(&mut s, *system_id);
                s.append(" doit contenir l'argument ");
                let at = Ghost(s@.len());
                s.append(ROM_PLACEHOLDER);
                proof {
                    reveal_strlit("{rom}");
                    assert(s@.subrange(at@ as int, at@ + ROM_PLACEHOLDER@.len() as int) =~= ROM_PLACEHOLDER@);
                    assert(crate::text::occurs_at(s@, ROM_PLACEHOLDER@, at@ as int));
                }
                s
            },
            LauncherError::DuplicateProfile => String::from_str(
                "profil émulateur dupliqué pour le système",
            ),
            LauncherError::NoEmulator { system_id } => {
                let mut s = String::from_str("aucun émulateur configuré pour le système ");
                crate::text::push_signed_decimal(&mut s, *system_id);
                s
            },
            LauncherError::RomNotFound { path } => {
                let mut s = String::from_str("ROM locale introuvable : ");
                s.append(path.as_str());
                s
            },
        }
    }
}

/// The argument that a profile's ROM path replaces.
pub const ROM_PLACEHOLDER: &'static str = "{rom}";

/// Some argument is exactly the ROM placeholder.
pub open spec fn has_rom_placeholder(arguments: Seq<String>) -> bool {
    exists|i: int| 0 <= i < arguments.len() && arguments[i]@ == ROM_PLACEHOLDER@
}

/// The first problem of a profile, given the profiles accepted before it.
pub open spec fn profile_verdict(p: EmulatorProfile, earlier: Seq<EmulatorProfile>) -> Result<
    (),
    LauncherError,
> {
    if p.system_id <= 0 {
        Err(LauncherError::NonPositiveSystemId)
    } else if trimmed(p.executable@).len() == 0 {
        Err(LauncherError::MissingExecutable { system_id: p.system_id })
    } else if !has_rom_placeholder(p.arguments@) {
        Err(LauncherError::MissingRomPlaceholder { system_id: p.system_id })
    } else if exists|j: int| 0 <= j < earlier.len() && earlier[j].system_id == p.system_id {
        Err(LauncherError::DuplicateProfile)
    } else {
        Ok(())
    }
}

/// The first problem of a configuration, its profiles being checked in order.
pub open spec fn config_verdict(profiles: Seq<EmulatorProfile>) -> Result<(), LauncherError>
    decreases profiles.len(),
{
    if profiles.len() == 0 {
        Ok(())
    } else {
        match config_verdict(profiles.drop_last()) {
            Err(e) => Err(e),
            Ok(()) => profile_verdict(profiles.last(), profiles.drop_last()),
        }
    }
}

/// Each profile is valid and no two profiles serve the same system.
pub open spec fn valid_profiles(profiles: Seq<EmulatorProfile>) -> bool {
    &&& forall|i: int|
        0 <= i < profiles.len() ==> {
            &&& (#[trigger] profiles[i]).system_id > 0
            &&& trimmed(profiles[i].executable@).len() > 0
            &&& has_rom_placeholder(profiles[i].arguments@)
        }
    &&& forall|i: int, j: int|
        0 <= i < j < profiles.len() ==> (#[trigger] profiles[i]).system_id != (#[trigger] profiles[j]).system_id
}

proof fn lemma_config_verdict_ok(profiles: Seq<EmulatorProfile>)
    ensures
        config_verdict(profiles) is Ok <==> valid_profiles(profiles),
    decreases profiles.len(),
{
    if profiles.len() > 0 {
        let init = profiles.drop_last();
        let last = profiles.last();
        let n = profiles.len() as int;
        lemma_config_verdict_ok(init);
        assert(profiles[n - 1] == last);
        assert forall|i: int| 0 <= i < init.len() implies #[trigger] init[i] == profiles[i] by {}
        if valid_profiles(profiles) {
            assert forall|i: int| 0 <= i < init.len() implies {
                &&& (#[trigger] init[i]).system_id > 0
                &&& trimmed(init[i].executable@).len() > 0
                &&& has_rom_placeholder(init[i].arguments@)
            } by {
                assert(init[i] == profiles[i]);
            }
            assert forall|i: int, j: int|
                0 <= i < j < init.len() implies (#[trigger] init[i]).system_id != (#[trigger] init[j]).system_id by {
                assert(init[i] == profiles[i] && init[j] == profiles[j]);
            }
            assert(valid_profiles(init));
            assert(last.system_id > 0);
            assert(trimmed(last.executable@).len() > 0);
            assert(has_rom_placeholder(last.arguments@));
            assert(!(exists|j: int| 0 <= j < init.len() && init[j].system_id == last.system_id)) by {
                if exists|j: int| 0 <= j < init.len() && init[j].system_id == last.system_id {
                    let j = choose|j: int| 0 <= j < init.len() && init[j].system_id == last.system_id;
                    assert(profiles[j].system_id != profiles[n - 1].system_id);
                }
            }
            assert(profile_verdict(last, init) is Ok);
        }
        if config_verdict(profiles) is Ok {
            assert(config_verdict(init) is Ok);
            assert(profile_verdict(last, init) is Ok);
            assert forall|i: int| 0 <= i < profiles.len() implies {
                &&& (#[trigger] profiles[i]).system_id > 0
                &&& trimmed(profiles[i].executable@).len() > 0
                &&& has_rom_placeholder(profiles[i].arguments@)
            } by {
                if i < n - 1 {
                    assert(init[i] == profiles[i]);
                }
            }
            assert forall|i: int, j: int|
                0 <= i < j < profiles.len() implies (#[trigger] profiles[i]).system_id != (#[trigger] profiles[j]).system_id by {
                if j == n - 1 {
                    assert(init[i] == profiles[i]);
                    if profiles[i].system_id == last.system_id {
                        assert(exists|k: int| 0 <= k < init.len() && init[k].system_id == last.system_id);
                    }
                } else {
                    assert(init[i] == profiles[i] && init[j] == profiles[j]);
                }
            }
        }
    }
}

/// The profiles of a configuration by system, each profile under its own system id.
pub open spec fn profiles_by_system(profiles: Seq<EmulatorProfile>) -> Map<i64, EmulatorProfile>
    decreases profiles.len(),
{
    if profiles.len() == 0 {
        Map::empty()
    } else {
        profiles_by_system(profiles.drop_last()).insert(profiles.last().system_id, profiles.last())
    }
}

/// Every profile of the map is valid and stands under its own system id.
pub open spec fn valid_profile_map(m: Map<i64, EmulatorProfile>) -> bool {
    forall|id: i64|
        #[trigger] m.contains_key(id) ==> {
            &&& m[id].system_id == id
            &&& id > 0
            &&& trimmed(m[id].executable@).len() > 0
            &&& has_rom_placeholder(m[id].arguments@)
        }
}

/// Valid profiles give a valid map, holding each profile under its system id, and nothing
/// else.
pub proof fn lemma_profiles_by_system(profiles: Seq<EmulatorProfile>)
    requires
        valid_profiles(profiles),
    ensures
        valid_profile_map(profiles_by_system(profiles)),
        forall|k: int|
            0 <= k < profiles.len() ==> profiles_by_system(profiles).contains_key(
                (#[trigger] profiles[k]).system_id,
            ) && profiles_by_system(profiles)[profiles[k].system_id] == profiles[k],
        forall|id: i64|
            #[trigger] profiles_by_system(profiles).contains_key(id) ==> exists|k: int|
                0 <= k < profiles.len() && profiles[k].system_id == id,
    decreases profiles.len(),
{
    if profiles.len() > 0 {
        let init = profiles.drop_last();
        let n = profiles.len() as int;
        assert forall|i: int| 0 <= i < init.len() implies {
            &&& (#[trigger] init[i]).system_id > 0
            &&& trimmed(init[i].executable@).len() > 0
            &&& has_rom_placeholder(init[i].arguments@)
        } by {
            assert(init[i] == profiles[i]);
        }
        assert forall|i: int, j: int|
            0 <= i < j < init.len() implies (#[trigger] init[i]).system_id != (#[trigger] init[j]).system_id by {
            assert(init[i] == profiles[i] && init[j] == profiles[j]);
        }
        lemma_profiles_by_system(init);
        assert(profiles[n - 1] == profiles.last());
        assert forall|k: int| 0 <= k < profiles.len() implies profiles_by_system(profiles).contains_key(
            (#[trigger] profiles[k]).system_id,
        ) && profiles_by_system(profiles)[profiles[k].system_id] == profiles[k] by {
            if k < n - 1 {
                assert(init[k] == profiles[k]);
                assert(profiles[k].system_id != profiles[n - 1].system_id);
            }
        }
        assert forall|id: i64| #[trigger] profiles_by_system(profiles).contains_key(id) implies exists|k: int|
            0 <= k < profiles.len() && profiles[k].system_id == id by {
            if id != profiles.last().system_id {
                assert(profiles_by_system(init).contains_key(id));
                let k = choose|k: int| 0 <= k < init.len() && init[k].system_id == id;
                assert(init[k] == profiles[k]);
            } else {
                assert(profiles[n - 1].system_id == id);
            }
        }
        assert forall|id: i64| #[trigger] profiles_by_system(profiles).contains_key(id) implies {
            &&& profiles_by_system(profiles)[id].system_id == id
            &&& id > 0
            &&& trimmed(profiles_by_system(profiles)[id].executable@).len() > 0
            &&& has_rom_placeholder(profiles_by_system(profiles)[id].arguments@)
        } by {
            if id != profiles.last().system_id {
                assert(profiles_by_system(init).contains_key(id));
            } else {
                assert(profiles[n - 1].system_id > 0);
            }
        }
    }
}

/// The launcher of a valid configuration: its profiles by system.
#[derive(Debug, Clone)]
pub struct EmulatorLauncher {
    profiles: HashMap<i64, EmulatorProfile>,
}

impl EmulatorLauncher {
    pub closed spec fn spec_profiles(&self) -> Map<i64, EmulatorProfile> {
        self.profiles@
    }

    pub open spec fn wf(&self) -> bool {
        valid_profile_map(self.spec_profiles())
    }

    /// Accepts a configuration whose profiles are all valid and serve distinct systems;
    /// otherwise reports the first problem met, profile by profile.
    pub fn from_config(config: EmulatorConfig) -> (r: Result<EmulatorLauncher, LauncherError>)
        ensures
            r is Ok <==> config_verdict(config.profiles@) is Ok,
            r matches Err(e) ==> config_verdict(config.profiles@) == Err::<(), LauncherError>(e),
            r matches Ok(launcher) ==> launcher.wf() && launcher.spec_profiles()
                == profiles_by_system(config.profiles@),
    {
        let n = config.profiles.len();
        let mut i: usize = 0;
        while i < n
            invariant
                n == config.profiles@.len(),
                i <= n,
                config_verdict(config.profiles@.subrange(0, i as int)) is Ok,
            decreases n - i,
        {
            let ghost prefix = config.profiles@.subrange(0, i as int);
            assert(config.profiles@.subrange(0, i + 1).drop_last() =~= prefix);
            assert(config.profiles@.subrange(0, i + 1).last() == config.profiles@[i as int]);
            let profile = &config.profiles[i];
            if profile.system_id <= 0 {
                proof { lemma_verdict_prefix_err(config.profiles@, i as int + 1); }
                return Err(LauncherError::NonPositiveSystemId);
            }
            if trim(profile.executable.as_str()).unicode_len() == 0 {
                proof { lemma_verdict_prefix_err(config.profiles@, i as int + 1); }
                return Err(LauncherError::MissingExecutable { system_id: profile.system_id });
            }
            if !Self::has_placeholder(&profile.arguments) {
                proof { lemma_verdict_prefix_err(config.profiles@, i as int + 1); }
                return Err(LauncherError::MissingRomPlaceholder { system_id: profile.system_id });
            }
            let mut j: usize = 0;
            while j < i
                invariant
                    i < n,
                    n == config.profiles@.len(),
                    j <= i,
                    prefix == config.profiles@.subrange(0, i as int),
                    config_verdict(prefix) is Ok,
                    config.profiles@[i as int].system_id > 0,
                    trimmed(config.profiles@[i as int].executable@).len() > 0,
                    has_rom_placeholder(config.profiles@[i as int].arguments@),
                    config.profiles@.subrange(0, i + 1).drop_last() == prefix,
                    config.profiles@.subrange(0, i + 1).last() == config.profiles@[i as int],
                    forall|k: int| 0 <= k < j ==> config.profiles@[k].system_id != config.profiles@[i as int].system_id,
                decreases i - j,
            {
                if config.profiles[j].system_id == config.profiles[i].system_id {
                    proof {
                        assert(prefix[j as int] == config.profiles@[j as int]);
                        lemma_verdict_prefix_err(config.profiles@, i as int + 1);
                    }
                    return Err(LauncherError::DuplicateProfile);
                }
                j = j + 1;
            }
            assert(!(exists|k: int| 0 <= k < prefix.len() && prefix[k].system_id == config.profiles@[i as int].system_id)) by {
                if exists|k: int| 0 <= k < prefix.len() && prefix[k].system_id == config.profiles@[i as int].system_id {
                    let k = choose|k: int| 0 <= k < prefix.len() && prefix[k].system_id == config.profiles@[i as int].system_id;
                    assert(prefix[k] == config.profiles@[k]);
                }
            }
            i = i + 1;
        }
        assert(config.profiles@.subrange(0, n as int) =~= config.profiles@);
        proof {
            lemma_config_verdict_ok(config.profiles@);
            lemma_profiles_by_system(config.profiles@);
        }
        broadcast use vstd::std_specs::hash::group_hash_axioms;
        let ghost original = config.profiles@;
        let mut rest = config.profiles;
        let mut profiles: HashMap<i64, EmulatorProfile> = HashMap::new();
        let mut i: usize = 0;
        assert(rest@ =~= original.subrange(0, n as int));
        assert(original.subrange(0, 0) =~= Seq::<EmulatorProfile>::empty());
        while i < n
            invariant
                n == original.len(),
                i <= n,
                rest@ == original.subrange(i as int, n as int),
                profiles@ == profiles_by_system(original.subrange(0, i as int)),
            decreases n - i,
        {
            let profile = rest.remove(0);
            assert(profile == original[i as int]);
            assert(rest@ =~= original.subrange(i + 1, n as int));
            assert(original.subrange(0, i + 1).drop_last() =~= original.subrange(0, i as int));
            profiles.insert(profile.system_id, profile);
            i = i + 1;
        }
        assert(original.subrange(0, n as int) =~= original);
        Ok(EmulatorLauncher { profiles })
    }

    fn has_placeholder(arguments: &Vec<String>) -> (r: bool)
        ensures
            r == has_rom_placeholder(arguments@),
    {
        let n = arguments.len();
        let mut i: usize = 0;
        while i < n
            invariant
                n == arguments@.len(),
                i <= n,
                forall|k: int| 0 <= k < i ==> arguments@[k]@ != ROM_PLACEHOLDER@,
            decreases n - i,
        {
            if str_eq(arguments[i].as_str(), ROM_PLACEHOLDER) {
                return true;
            }
            i = i + 1;
        }
        false
    }

    /// The command that launches the ROM at `rom_path` with the profile of `system_id`,
    /// every `{rom}` in its arguments replaced by the path; `rom_is_file` says whether the
    /// path names an existing file.
    pub fn command_for(&self, system_id: i64, rom_path: &str, rom_is_file: bool) -> (r: Result<
        LaunchCommand,
        LauncherError,
    >)
        requires
            self.wf(),
        ensures
            !self.spec_profiles().contains_key(system_id) ==> r == Err::<LaunchCommand, LauncherError>(
                LauncherError::NoEmulator { system_id },
            ),
            self.spec_profiles().contains_key(system_id) && !rom_is_file ==> (r matches Err(
                LauncherError::RomNotFound { path },
            ) && path@ == rom_path@),
            self.spec_profiles().contains_key(system_id) && rom_is_file ==> (r matches Ok(command) && {
                let profile = self.spec_profiles()[system_id];
                &&& command.executable@ == profile.executable@
                &&& command.arguments@.len() == profile.arguments@.len()
                &&& forall|a: int|
                    0 <= a < command.arguments@.len() ==> #[trigger] command.arguments@[a]@ == replace_all(
                        profile.arguments@[a]@,
                        ROM_PLACEHOLDER@,
                        rom_path@,
                    )
            }),
    {
        broadcast use vstd::std_specs::hash::group_hash_axioms;
        let profile = match self.profiles.get(&system_id) {
            None => {
                return Err(LauncherError::NoEmulator { system_id });
            },
            Some(profile) => profile,
        };
        if !rom_is_file {
            return Err(LauncherError::RomNotFound { path: String::from_str(rom_path) });
        }
        let m = profile.arguments.len();
        let mut arguments: Vec<String> = Vec::new();
        let mut a: usize = 0;
        proof { reveal_strlit("{rom}"); }
        while a < m
            invariant
                m == profile.arguments@.len(),
                a <= m,
                arguments@.len() == a,
                ROM_PLACEHOLDER@.len() > 0,
                forall|b: int| 0 <= b < a ==> #[trigger] arguments@[b]@ == replace_all(
                    profile.arguments@[b]@,
                    ROM_PLACEHOLDER@,
                    rom_path@,
                ),
            decreases m - a,
        {
            arguments.push(replace_text(profile.arguments[a].as_str(), ROM_PLACEHOLDER, rom_path));
            a = a + 1;
        }
        Ok(LaunchCommand { executable: profile.executable.clone(), arguments })
    }
}

proof fn lemma_verdict_prefix_err(profiles: Seq<EmulatorProfile>, k: int)
    requires
        0 < k <= profiles.len(),
        config_verdict(profiles.subrange(0, k - 1)) is Ok,
        profile_verdict(profiles[k - 1], profiles.subrange(0, k - 1)) is Err,
    ensures
        config_verdict(profiles) == profile_verdict(profiles[k - 1], profiles.subrange(0, k - 1)),
    decreases profiles.len() - k,
{
    assert(profiles.subrange(0, k).drop_last() =~= profiles.subrange(0, k - 1));
    lemma_verdict_err_extends(profiles, k);
}

proof fn lemma_verdict_err_extends(profiles: Seq<EmulatorProfile>, k: int)
    requires
        0 <= k <= profiles.len(),
        config_verdict(profiles.subrange(0, k)) is Err,
    ensures
        config_verdict(profiles) == config_verdict(profiles.subrange(0, k)),
    decreases profiles.len() - k,
{
    if k < profiles.len() {
        assert(profiles.subrange(0, k + 1).drop_last() =~= profiles.subrange(0, k));
        lemma_verdict_err_extends(profiles, k + 1);
    } else {
        assert(profiles.subrange(0, k) =~= profiles);
    }
}

/// The placeholder argument of every command is the ROM's path itself.
pub proof fn lemma_placeholder_becomes_rom_path(rom_path: Seq<char>)
    ensures
        replace_all(ROM_PLACEHOLDER@, ROM_PLACEHOLDER@, rom_path) == rom_path,
{
    reveal_strlit("{rom}");
    crate::text::lemma_replace_whole(ROM_PLACEHOLDER@, rom_path);
}

/// Where the emulator profiles of a data directory are kept: the file `emulators.toml`
/// in that directory.
pub fn default_config_path(data_directory: &str) -> (r: String)
    ensures
        !crate::paths::is_verbatim(data_directory@) ==> crate::paths::is_joined(
            r@,
            data_directory@,
            EMULATOR_CONFIG_FILE@,
        ),
{
    proof {
        reveal_strlit("emulators.toml");
        assert(!EMULATOR_CONFIG_FILE@.contains(':'));
        assert(!crate::paths::may_be_absolute(EMULATOR_CONFIG_FILE@));
    }
    crate::paths::path_join(data_directory, EMULATOR_CONFIG_FILE)
}

pub const EMULATOR_CONFIG_FILE: &'static str = "emulators.toml";

} // verus!
