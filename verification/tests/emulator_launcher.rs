use monolith::emulator_launcher::{
    default_config_path, EmulatorConfig, EmulatorLauncher, EmulatorProfile, LauncherError,
};

fn mega_drive() -> EmulatorProfile {
    EmulatorProfile {
        system_id: 11,
        executable: "C:\\RetroArch\\retroarch.exe".into(),
        arguments: vec![
            "-L".into(),
            "C:\\RetroArch\\cores\\genesis_plus_gx_libretro.dll".into(),
            "{rom}".into(),
        ],
    }
}

#[test]
fn mega_drive_profile_builds_a_retroarch_command_without_shell() {
    let launcher = EmulatorLauncher::from_config(EmulatorConfig {
        profiles: vec![mega_drive()],
    })
    .unwrap();

    let rom_path = "/tmp/test-rom/Global Gladiators.zip";
    let command = launcher.command_for(11, rom_path, true).unwrap();

    assert_eq!(command.executable, "C:\\RetroArch\\retroarch.exe");
    assert_eq!(
        command.arguments,
        vec![
            "-L",
            "C:\\RetroArch\\cores\\genesis_plus_gx_libretro.dll",
            rom_path,
        ]
    );
}

#[test]
fn launcher_rejects_profile_without_rom_placeholder() {
    let error = EmulatorLauncher::from_config(EmulatorConfig {
        profiles: vec![EmulatorProfile {
            system_id: 11,
            executable: "retroarch.exe".into(),
            arguments: vec!["--menu".into()],
        }],
    })
    .unwrap_err();

    assert!(error.message().contains("{rom}"));
}

#[test]
fn placeholder_inside_an_argument_is_replaced() {
    let launcher = EmulatorLauncher::from_config(EmulatorConfig {
        profiles: vec![EmulatorProfile {
            system_id: 3,
            executable: "emu".into(),
            arguments: vec!["{rom}".into(), "--file={rom}".into(), "--again={rom}{rom}".into()],
        }],
    })
    .unwrap();
    let command = launcher.command_for(3, "/r.bin", true).unwrap();
    assert_eq!(command.arguments, vec!["/r.bin", "--file=/r.bin", "--again=/r.bin/r.bin"]);
}

#[test]
fn unknown_system_has_no_emulator() {
    let launcher = EmulatorLauncher::from_config(EmulatorConfig { profiles: vec![mega_drive()] }).unwrap();
    assert_eq!(
        launcher.command_for(12, "/tmp/x.zip", true).unwrap_err(),
        LauncherError::NoEmulator { system_id: 12 }
    );
}

#[test]
fn missing_rom_file_is_refused() {
    let launcher = EmulatorLauncher::from_config(EmulatorConfig { profiles: vec![mega_drive()] }).unwrap();
    assert_eq!(
        launcher.command_for(11, "/tmp/absent.zip", false).unwrap_err(),
        LauncherError::RomNotFound { path: "/tmp/absent.zip".into() }
    );
}

#[test]
fn configuration_errors_are_reported() {
    let mut bad_id = mega_drive();
    bad_id.system_id = 0;
    assert_eq!(
        EmulatorLauncher::from_config(EmulatorConfig { profiles: vec![bad_id] }).unwrap_err(),
        LauncherError::NonPositiveSystemId
    );

    let mut no_exe = mega_drive();
    no_exe.executable = "   ".into();
    assert_eq!(
        EmulatorLauncher::from_config(EmulatorConfig { profiles: vec![no_exe] }).unwrap_err(),
        LauncherError::MissingExecutable { system_id: 11 }
    );

    assert_eq!(
        EmulatorLauncher::from_config(EmulatorConfig { profiles: vec![mega_drive(), mega_drive()] })
            .unwrap_err(),
        LauncherError::DuplicateProfile
    );
}

#[test]
fn empty_configuration_is_accepted() {
    let launcher = EmulatorLauncher::from_config(EmulatorConfig::default()).unwrap();
    assert!(launcher.command_for(11, "/tmp/x.zip", true).is_err());
}

#[test]
fn default_configuration_lives_in_the_data_directory() {
    assert_eq!(default_config_path("/data"), "/data/emulators.toml");
}
