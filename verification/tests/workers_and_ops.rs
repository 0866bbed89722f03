use minimuxer::afc::{
    entry_path, interpret_file_info, is_dot_entry, make_entry, should_descend, AfcFileManager,
};
use minimuxer::device::{fetch_failure, fetch_step, fetch_udid, FetchAction, FetchState};
use minimuxer::heartbeat::{beat_step, heartbeat_echo, BeatAction, BeatEvent, HeartbeatState};
use minimuxer::install::{
    bundle_dir, install_ipa, install_options, ipa_path, remove_app, stage_ops, staging_dir,
    yeet_app_afc, AfcOp,
};
use minimuxer::jit::{
    attach_commands, attach_debugger, debug_app, legacy_debug_steps, modern_debug_commands,
    DebugStep, LegacyDebugStage, ModernDebugStage,
};
use minimuxer::mounter::{
    dmg_dir_path, is_macosx_dir, legacy_dmg_path, legacy_sig_path, mounter_step,
    parse_major_version, plan_legacy_download, personalized_paths, tmp_dir_path,
    uses_personalized_path, zip_path, MountAction, MountEvent, MounterState,
};
use minimuxer::provision::{dump_profiles, install_provisioning_profile, remove_provisioning_profile};
use minimuxer::pval::PValue;
use minimuxer::{describe_error, ready, Errors};

#[test]
fn ready_needs_every_gated_flag() {
    assert!(ready(true, true, true, false, true));
    assert!(ready(true, true, true, true, true));
    assert!(!ready(false, true, true, true, true));
    assert!(!ready(true, false, true, true, true));
    assert!(!ready(true, true, false, true, true));
    // Not started means not ready, whatever the other flags say.
    assert!(!ready(true, true, true, true, false));
}

#[test]
fn heartbeat_flag_follows_round_trips() {
    let mut state = HeartbeatState::new();
    assert!(!state.last_beat_successful);
    assert_eq!(beat_step(&mut state, BeatEvent::RoundTrip), BeatAction::KeepBeating);
    assert!(state.last_beat_successful);
    assert_eq!(beat_step(&mut state, BeatEvent::ReceiveFailed), BeatAction::Reconnect);
    assert!(!state.last_beat_successful);
    assert_eq!(beat_step(&mut state, BeatEvent::RoundTrip), BeatAction::KeepBeating);
    assert_eq!(beat_step(&mut state, BeatEvent::SendFailed), BeatAction::Reconnect);
    assert!(!state.last_beat_successful);
    assert_eq!(beat_step(&mut state, BeatEvent::DeviceUnavailable), BeatAction::SleepAndRetry);
    assert_eq!(beat_step(&mut state, BeatEvent::ClientFailed), BeatAction::SleepAndRetry);
}

#[test]
fn heartbeat_reply_echoes_the_received_plist() {
    let received = PValue::Dict(vec![
        ("Command".to_string(), PValue::Str("Marco".to_string())),
        ("Interval".to_string(), PValue::Int(10)),
    ]);
    let reply = heartbeat_echo(received);
    match reply {
        PValue::Dict(entries) => {
            assert_eq!(entries.len(), 2);
            assert_eq!(entries[0].0, "Command");
            assert!(matches!(&entries[0].1, PValue::Str(s) if s == "Marco"));
            assert_eq!(entries[1].0, "Interval");
            assert!(matches!(entries[1].1, PValue::Int(10)));
        }
        _ => panic!("the echo changed the plist"),
    }
}

#[test]
fn fetch_budget_gives_up_after_twenty_attempts() {
    let mut state = FetchState::new();
    let mut attempts = 0;
    loop {
        attempts += 1;
        match fetch_step(&mut state, false) {
            FetchAction::SleepAndRetry => continue,
            FetchAction::GiveUp => break,
            FetchAction::Done => panic!("no device was offered"),
        }
    }
    assert_eq!(attempts, 20);
    assert_eq!(fetch_failure(), Errors::NoDevice);
    let mut fresh = FetchState::new();
    assert_eq!(fetch_step(&mut fresh, true), FetchAction::Done);
}

#[test]
fn udid_is_reported_only_after_start() {
    assert_eq!(fetch_udid(false, Some("ABC".to_string())), None);
    assert_eq!(fetch_udid(true, Some("ABC".to_string())), Some("ABC".to_string()));
    assert_eq!(fetch_udid(true, None), None);
}

#[test]
fn mounter_retries_on_failures_and_finishes_only_mounted() {
    let mut state = MounterState::new();
    let failures = [
        MountEvent::DeviceUnavailable,
        MountEvent::LockdownFailed,
        MountEvent::VersionUnreadable,
        MountEvent::MounterUnavailable,
        MountEvent::LookupFailed,
        MountEvent::DownloadFailed,
        MountEvent::UploadFailed,
        MountEvent::TunnelFailed,
        MountEvent::MountFailed,
    ];
    for ev in failures {
        assert_eq!(mounter_step(&mut state, ev), MountAction::Retry);
        assert!(!state.dmg_mounted);
    }
    assert_eq!(mounter_step(&mut state, MountEvent::Mounted), MountAction::Finish);
    assert!(state.dmg_mounted);
    let mut other = MounterState::new();
    assert_eq!(mounter_step(&mut other, MountEvent::AlreadyMounted), MountAction::Finish);
    assert!(other.dmg_mounted);
}

#[test]
fn legacy_mount_first_iteration_downloads_and_mounts() {
    // The device reports iOS 16.3: the legacy path is taken.
    let major = parse_major_version("16.3").unwrap();
    assert_eq!(major, 16);
    assert!(!uses_personalized_path(major));

    let dmg_dir = dmg_dir_path("/docs");
    assert_eq!(dmg_dir, "/docs/DMG");

    // First iteration: nothing cached, so the index names the archive and the
    // plan puts the artifacts at the version-named paths.
    let index = "{\"16.3\": \"https://example.invalid/ios16.3.zip\"}";
    let plan = plan_legacy_download(&dmg_dir, "16.3", false, index).unwrap().unwrap();
    assert_eq!(plan.url, "https://example.invalid/ios16.3.zip");
    assert_eq!(plan.zip_file, "/docs/DMG/dmg.zip");
    assert_eq!(plan.unpack_dir, "/docs/DMG/tmp");
    assert_eq!(plan.dmg_file, "/docs/DMG/16.3.dmg");
    assert_eq!(plan.sig_file, "/docs/DMG/16.3.dmg.signature");

    // Upload and mount succeed: the flag is set and the loop finishes.
    let mut state = MounterState::new();
    assert_eq!(mounter_step(&mut state, MountEvent::Mounted), MountAction::Finish);
    assert!(state.dmg_mounted);

    // Second iteration of the existence check: the image is cached, nothing to
    // download, and a mounted image is observed.
    assert_eq!(plan_legacy_download(&dmg_dir, "16.3", true, index).unwrap(), None);
    assert_eq!(
        mounter_step(&mut state, MountEvent::AlreadyMounted),
        MountAction::Finish
    );
}

#[test]
fn unknown_version_is_a_download_failure() {
    let index = "{\"16.3\": \"https://example.invalid/a.zip\"}";
    let r = plan_legacy_download("/docs/DMG", "15.1", false, index);
    assert_eq!(r.unwrap_err(), Errors::DownloadImage);
    let r = plan_legacy_download("/docs/DMG", "16.3", false, "not json");
    assert_eq!(r.unwrap_err(), Errors::DownloadImage);
}

#[test]
fn version_gate_and_parsing() {
    assert_eq!(parse_major_version("17.0.1"), Some(17));
    assert!(uses_personalized_path(17));
    assert_eq!(parse_major_version("16.7.8"), Some(16));
    assert_eq!(parse_major_version(""), None);
    assert_eq!(parse_major_version("x.2"), None);
    assert_eq!(parse_major_version("300.1"), None);
}

#[test]
fn mount_paths_are_built_under_the_image_directory() {
    let dmg = legacy_dmg_path("/d/DMG", "16.3");
    assert_eq!(dmg, "/d/DMG/16.3.dmg");
    assert_eq!(legacy_sig_path(&dmg), "/d/DMG/16.3.dmg.signature");
    assert_eq!(zip_path("/d/DMG"), "/d/DMG/dmg.zip");
    assert_eq!(tmp_dir_path("/d/DMG"), "/d/DMG/tmp");
    let (img, tc, man) = personalized_paths("/d/DMG");
    assert_eq!(img, "/d/DMG/Image.dmg");
    assert_eq!(tc, "/d/DMG/Image.dmg.trustcache");
    assert_eq!(man, "/d/DMG/BuildManifest.plist");
    assert!(is_macosx_dir("/d/DMG/tmp/__MACOSX"));
    assert!(!is_macosx_dir("/d/DMG/tmp/Developer"));
}

#[test]
fn attach_debugger_sends_padded_attach_then_detach() {
    let commands = attach_commands(305419896);
    assert_eq!(commands, vec!["vAttach;12345678".to_string(), "D".to_string()]);
    let commands = attach_commands(5);
    assert_eq!(commands, vec!["vAttach;00000005".to_string(), "D".to_string()]);
}

#[test]
fn attach_debugger_maps_each_failure() {
    assert_eq!(attach_debugger(7, false, true, true, true, true), Err(Errors::NoConnection));
    assert_eq!(attach_debugger(7, true, false, true, true, true), Err(Errors::NoDevice));
    assert_eq!(attach_debugger(7, true, true, false, true, true), Err(Errors::CreateDebug));
    assert_eq!(attach_debugger(7, true, true, true, false, true), Err(Errors::Attach));
    assert_eq!(attach_debugger(7, true, true, true, true, false), Err(Errors::Detach));
    assert_eq!(attach_debugger(7, true, true, true, true, true), Ok(()));
}

#[test]
fn legacy_debug_conversation_is_exact() {
    let steps = legacy_debug_steps("/containers/app", "/bundle/App.app/App");
    assert_eq!(steps.len(), 5);
    match &steps[0] {
        DebugStep::Command(c) => assert_eq!(c, "QSetMaxPacketSize: 1024"),
        _ => panic!("expected a command"),
    }
    match &steps[1] {
        DebugStep::Command(c) => assert_eq!(c, "QSetWorkingDir: /containers/app"),
        _ => panic!("expected a command"),
    }
    match &steps[2] {
        DebugStep::SetArgv(a) => {
            assert_eq!(a.len(), 2);
            assert_eq!(a[0], "/bundle/App.app/App");
            assert_eq!(a[1], "/bundle/App.app/App");
        },
        _ => panic!("expected argv"),
    }
    match &steps[3] {
        DebugStep::Command(c) => assert_eq!(c, "qLaunchSuccess"),
        _ => panic!("expected a command"),
    }
    match &steps[4] {
        DebugStep::Command(c) => assert_eq!(c, "D"),
        _ => panic!("expected a command"),
    }
}

#[test]
fn modern_debug_conversation_attaches_and_detaches_four_times() {
    let commands = modern_debug_commands(0x1A3);
    assert_eq!(
        commands,
        vec![
            "vAttach;1A3".to_string(),
            "D".to_string(),
            "D".to_string(),
            "D".to_string(),
            "D".to_string(),
        ]
    );
    let commands = modern_debug_commands(5);
    assert_eq!(commands[0], "vAttach;05");
}

#[test]
fn debug_app_gates_on_the_major_version() {
    assert_eq!(debug_app(false, true, true, Some(16), None, None), Err(Errors::NoConnection));
    assert_eq!(debug_app(true, false, true, Some(16), None, None), Err(Errors::NoDevice));
    assert_eq!(debug_app(true, true, false, Some(16), None, None), Err(Errors::CreateLockdown));
    assert_eq!(debug_app(true, true, true, None, None, None), Err(Errors::GetLockdownValue));
    assert_eq!(debug_app(true, true, true, Some(16), None, None), Ok(()));
    assert_eq!(
        debug_app(true, true, true, Some(16), Some(LegacyDebugStage::LookupApps), None),
        Err(Errors::LookupApps)
    );
    assert_eq!(
        debug_app(true, true, true, Some(16), Some(LegacyDebugStage::FindContainer), None),
        Err(Errors::FindApp)
    );
    assert_eq!(debug_app(true, true, true, Some(17), None, None), Ok(()));
    assert_eq!(
        debug_app(true, true, true, Some(17), None, Some(ModernDebugStage::XpcHandshake)),
        Err(Errors::XpcHandshake)
    );
    assert_eq!(
        debug_app(true, true, true, Some(17), None, Some(ModernDebugStage::SendAttachCommands)),
        Err(Errors::Attach)
    );
}

#[test]
fn staging_creates_only_missing_directories() {
    let ops = stage_ops("com.app", vec![9, 9], false, false);
    assert_eq!(ops.len(), 3);
    assert!(matches!(&ops[0], AfcOp::Mkdir(p) if p == "./PublicStaging"));
    assert!(matches!(&ops[1], AfcOp::Mkdir(p) if p == "./PublicStaging/com.app"));
    assert!(
        matches!(&ops[2], AfcOp::Write(p, b) if p == "./PublicStaging/com.app/app.ipa" && b == &vec![9u8, 9])
    );

    // A second run with both directories present writes and creates nothing.
    let ops = stage_ops("com.app", vec![7], true, true);
    assert_eq!(ops.len(), 1);
    assert!(
        matches!(&ops[0], AfcOp::Write(p, b) if p == "./PublicStaging/com.app/app.ipa" && b == &vec![7u8])
    );

    assert_eq!(staging_dir(), "./PublicStaging");
    assert_eq!(bundle_dir("com.app"), "./PublicStaging/com.app");
    assert_eq!(ipa_path("com.app"), "./PublicStaging/com.app/app.ipa");
}

#[test]
fn install_and_remove_map_their_failures() {
    assert_eq!(yeet_app_afc(false, true, true, true), Err(Errors::NoConnection));
    assert_eq!(yeet_app_afc(true, false, true, true), Err(Errors::NoDevice));
    assert_eq!(yeet_app_afc(true, true, false, true), Err(Errors::CreateAfc));
    assert_eq!(yeet_app_afc(true, true, true, false), Err(Errors::RwAfc));
    assert_eq!(yeet_app_afc(true, true, true, true), Ok(()));

    assert_eq!(install_ipa(true, true, false, None), Err(Errors::CreateInstproxy));
    assert_eq!(
        install_ipa(true, true, true, Some("verification failed".to_string())),
        Err(Errors::InstallApp("verification failed".to_string()))
    );
    assert_eq!(install_ipa(true, true, true, None), Ok(()));

    assert_eq!(remove_app(true, true, true, false), Err(Errors::UninstallApp));
    assert_eq!(remove_app(true, true, true, true), Ok(()));
}

#[test]
fn install_options_carry_the_bundle_identifier() {
    let opts = install_options("com.app");
    match opts {
        PValue::Dict(entries) => {
            assert_eq!(entries.len(), 1);
            assert_eq!(entries[0].0, "CFBundleIdentifier");
            assert!(matches!(&entries[0].1, PValue::Str(s) if s == "com.app"));
        },
        _ => panic!("expected a dictionary"),
    }
}

#[test]
fn provisioning_ops_map_their_failures() {
    assert_eq!(
        install_provisioning_profile(true, true, false, true),
        Err(Errors::CreateMisagent)
    );
    assert_eq!(
        install_provisioning_profile(true, true, true, false),
        Err(Errors::ProfileInstall)
    );
    assert_eq!(install_provisioning_profile(true, true, true, true), Ok(()));
    assert_eq!(remove_provisioning_profile(true, true, true, false), Err(Errors::ProfileRemove));
    assert_eq!(remove_provisioning_profile(false, true, true, true), Err(Errors::NoConnection));
    assert_eq!(remove_provisioning_profile(true, true, true, true), Ok(()));
    assert_eq!(dump_profiles(true, true, true, false), Err(Errors::ProfileRemove));
    assert_eq!(dump_profiles(true, true, true, true), Ok(()));
}

#[test]
fn afc_manager_maps_its_failures() {
    assert_eq!(AfcFileManager::remove(false, true, true, true), Err(Errors::NoConnection));
    assert_eq!(AfcFileManager::remove(true, false, true, true), Err(Errors::NoDevice));
    assert_eq!(AfcFileManager::remove(true, true, false, true), Err(Errors::CreateAfc));
    assert_eq!(AfcFileManager::remove(true, true, true, false), Err(Errors::RwAfc));
    assert_eq!(AfcFileManager::remove(true, true, true, true), Ok(()));
    assert_eq!(AfcFileManager::create_directory(true, true, true, false), Err(Errors::RwAfc));
    assert_eq!(AfcFileManager::create_directory(true, true, true, true), Ok(()));
    assert_eq!(AfcFileManager::write_file(true, true, true, true, false, true), Err(Errors::RwAfc));
    assert_eq!(AfcFileManager::write_file(true, true, true, true, true, true), Ok(()));
}

#[test]
fn stat_replies_are_interpreted_like_the_device_sends_them() {
    let info = vec![
        ("st_ifmt".to_string(), "S_IFDIR".to_string()),
        ("st_size".to_string(), "4096".to_string()),
    ];
    assert_eq!(interpret_file_info(&info), (true, Some(4096)));
    let info = vec![
        ("st_ifmt".to_string(), "S_IFREG".to_string()),
        ("st_size".to_string(), "17".to_string()),
    ];
    assert_eq!(interpret_file_info(&info), (false, Some(17)));
    let info = vec![("st_ifmt".to_string(), "S_IFREG".to_string())];
    assert_eq!(interpret_file_info(&info), (false, None));

    let info = vec![("st_size".to_string(), "123".to_string())];
    assert_eq!(AfcFileManager::file_size(&info), Ok(123));
    let info = vec![("st_other".to_string(), "1".to_string())];
    assert_eq!(AfcFileManager::file_size(&info), Err(Errors::RwAfc));
}

#[test]
fn directory_entries_keep_their_shape() {
    assert!(is_dot_entry("."));
    assert!(is_dot_entry(".."));
    assert!(!is_dot_entry(".hidden"));
    assert_eq!(entry_path("/var/", "app", true), "/var/app/");
    assert_eq!(entry_path("/var/", "log.txt", false), "/var/log.txt");
    assert!(should_descend(true, 2));
    assert!(!should_descend(true, 3));
    assert!(!should_descend(false, 0));
    let child = make_entry("/var/app/", "data.bin", false, Some(9), Vec::new());
    let entry = make_entry("/var/", "app", true, None, vec![child]);
    assert_eq!(entry.path(), "/var/app/");
    assert_eq!(entry.parent(), "/var/");
    assert!(!entry.is_file());
    assert_eq!(entry.size(), None);
    assert_eq!(entry.children().len(), 1);
    assert_eq!(entry.children()[0].path(), "/var/app/data.bin");
    assert!(entry.children()[0].is_file());
    assert_eq!(entry.children()[0].size(), Some(9));
}

#[test]
fn error_descriptions_name_each_kind() {
    assert_eq!(describe_error(Errors::NoDevice), "NoDevice");
    assert_eq!(describe_error(Errors::PairingFile), "PairingFile");
    assert_eq!(describe_error(Errors::Mount), "Mount");
    assert_eq!(
        describe_error(Errors::InstallApp("bad signature".to_string())),
        "InstallApp(\"bad signature\")"
    );
    // The message is escaped exactly as the standard Debug formatting writes it.
    let tricky = "a\"b\\c\n".to_string();
    assert_eq!(
        describe_error(Errors::InstallApp(tricky.clone())),
        format!("InstallApp({tricky:?})")
    );
}
