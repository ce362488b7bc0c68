use aether_desktop::models::settings::{
    aether_startup_timeout, AetherIpMode, AetherLaunchOptions, AetherProtocol, AetherScanMode,
    AetherSettings, AppSettings, QuickReconnectOption, AETHER_RESTORE_TIMEOUT_SECS,
};
use aether_desktop::settings::storage::{
    is_lastconn_persistence_file, plan_snapshot_entries, LastconnEntryState, SettingsStorage,
};
use std::time::Duration;

fn turbo_settings(scan_mode: AetherScanMode) -> AetherSettings {
    AetherSettings {
        executable_path: "C:\\Aether\\aether.exe".to_string(),
        host: "127.0.0.1".to_string(),
        port: 1819,
        protocol: AetherProtocol::Wireguard,
        ip_mode: AetherIpMode::Ipv4,
        scan_mode,
        quick_reconnect: true,
        additional_arguments: vec![],
        launch_arguments: vec![],
    }
}

#[test]
fn test_a_normal_connect_includes_quick_reconnect_when_configured() {
    let settings = turbo_settings(AetherScanMode::Turbo);
    let args = settings.build_cli_arguments(None);
    assert!(args.contains(&"--quick-reconnect".to_string()));
    assert!(args.contains(&"--turbo".to_string()));
    assert!(!args.contains(&"--thorough".to_string()));
}

#[test]
fn test_b_optimization_launch_does_not_include_quick_reconnect() {
    let settings = turbo_settings(AetherScanMode::Turbo);
    let opt_options = AetherLaunchOptions {
        quick_reconnect: QuickReconnectOption::ForceFreshScan,
        scan_mode_override: Some(AetherScanMode::Thorough),
    };
    let args = settings.build_cli_arguments_with_options(None, &opt_options);
    assert!(!args.contains(&"--quick-reconnect".to_string()));
}

#[test]
fn test_c_optimization_launch_forces_thorough_without_mutating_saved_settings() {
    let settings = turbo_settings(AetherScanMode::Turbo);
    let opt_options = AetherLaunchOptions {
        quick_reconnect: QuickReconnectOption::ForceFreshScan,
        scan_mode_override: Some(AetherScanMode::Thorough),
    };
    let args = settings.build_cli_arguments_with_options(None, &opt_options);
    assert!(args.contains(&"--thorough".to_string()));
    assert!(!args.contains(&"--turbo".to_string()));
    assert_eq!(settings.scan_mode, AetherScanMode::Turbo);
    assert_eq!(settings.quick_reconnect, true);
}

#[test]
fn test_d_after_optimization_normal_connect_again_includes_quick_reconnect() {
    let settings = turbo_settings(AetherScanMode::Balanced);
    let opt_options = AetherLaunchOptions {
        quick_reconnect: QuickReconnectOption::ForceFreshScan,
        scan_mode_override: Some(AetherScanMode::Thorough),
    };
    let opt_args = settings.build_cli_arguments_with_options(None, &opt_options);
    assert!(!opt_args.contains(&"--quick-reconnect".to_string()));
    assert!(opt_args.contains(&"--thorough".to_string()));

    let normal_args = settings.build_cli_arguments(None);
    assert!(normal_args.contains(&"--quick-reconnect".to_string()));
    assert!(normal_args.contains(&"--balanced".to_string()));
    assert!(!normal_args.contains(&"--thorough".to_string()));
}

#[test]
fn test_deadline_mapping_strictly_exceeds_upstream_budgets() {
    assert!(aether_startup_timeout(&AetherScanMode::Turbo) > Duration::from_secs(45));
    assert_eq!(aether_startup_timeout(&AetherScanMode::Turbo), Duration::from_secs(60));

    assert!(aether_startup_timeout(&AetherScanMode::Balanced) > Duration::from_secs(120));
    assert_eq!(aether_startup_timeout(&AetherScanMode::Balanced), Duration::from_secs(150));

    assert!(aether_startup_timeout(&AetherScanMode::Thorough) > Duration::from_secs(300));
    assert_eq!(aether_startup_timeout(&AetherScanMode::Thorough), Duration::from_secs(340));

    assert!(aether_startup_timeout(&AetherScanMode::Stealth) > Duration::from_secs(180));
    assert_eq!(aether_startup_timeout(&AetherScanMode::Stealth), Duration::from_secs(210));

    assert!(aether_startup_timeout(&AetherScanMode::Ironclad) > Duration::from_secs(180));
    assert_eq!(aether_startup_timeout(&AetherScanMode::Ironclad), Duration::from_secs(210));

    assert_eq!(Duration::from_secs(AETHER_RESTORE_TIMEOUT_SECS), Duration::from_secs(25));
}

#[test]
fn test_d_restore_quick_reconnect_timeout_is_bounded_to_restore_window() {
    let restore_options = AetherLaunchOptions::force_quick_reconnect();
    let startup_deadline = if restore_options.quick_reconnect == QuickReconnectOption::ForceEnabled
    {
        Duration::from_secs(AETHER_RESTORE_TIMEOUT_SECS)
    } else {
        aether_startup_timeout(&AetherScanMode::Thorough)
    };
    assert_eq!(startup_deadline, Duration::from_secs(25));
    assert!(startup_deadline < Duration::from_secs(60));
}

#[test]
fn test_a_identity_and_config_files_never_included_in_snapshot() {
    let dir = vec![
        ("aether.toml".to_string(), true),
        ("identity.json".to_string(), true),
        ("client.key".to_string(), true),
        ("lastconn.json".to_string(), true),
    ];
    let entries = plan_snapshot_entries(&dir);
    for entry in &entries {
        match entry {
            LastconnEntryState::Existed { file_name } => {
                assert_ne!(file_name, "aether.toml");
                assert_ne!(file_name, "identity.json");
                assert_ne!(file_name, "client.key");
                assert_eq!(file_name, "lastconn.json");
            }
            LastconnEntryState::Absent { file_name } => {
                assert_ne!(file_name, "aether.toml");
                assert_ne!(file_name, "identity.json");
                assert_ne!(file_name, "client.key");
            }
        }
    }
}

#[test]
fn snapshot_plan_lists_absent_known_names_after_existing_files() {
    let dir = vec![
        ("lastconn.json".to_string(), true),
        ("last_endpoint".to_string(), false),
        ("notes.txt".to_string(), true),
    ];
    let entries = plan_snapshot_entries(&dir);
    let names: Vec<(bool, String)> = entries
        .iter()
        .map(|e| match e {
            LastconnEntryState::Existed { file_name } => (true, file_name.clone()),
            LastconnEntryState::Absent { file_name } => (false, file_name.clone()),
        })
        .collect();
    assert_eq!(
        names,
        vec![
            (true, "lastconn.json".to_string()),
            (false, "lastconn".to_string()),
            (false, "last_connection.json".to_string()),
            (false, "last_connection".to_string()),
            (false, "last_endpoint.json".to_string()),
            (false, "lastconn.bin".to_string()),
            (false, "lastconn.dat".to_string()),
            (false, "endpoints.json".to_string()),
        ]
    );
}

#[test]
fn lastconn_file_classification() {
    assert!(is_lastconn_persistence_file("lastconn.json"));
    assert!(is_lastconn_persistence_file("LASTCONN"));
    assert!(is_lastconn_persistence_file("endpoints.json"));
    assert!(is_lastconn_persistence_file("my_last_endpoint.cache"));
    assert!(!is_lastconn_persistence_file("aether.toml"));
    assert!(!is_lastconn_persistence_file("lastconn.toml"));
    assert!(!is_lastconn_persistence_file("lastconn_key.json"));
    assert!(!is_lastconn_persistence_file("identity_lastconn"));
    assert!(!is_lastconn_persistence_file("config_lastconn"));
    assert!(!is_lastconn_persistence_file("notes.txt"));
}

#[test]
fn migration_fills_host_port_and_drops_legacy_arguments() {
    let mut s = AppSettings::default();
    s.aether.host = String::new();
    s.aether.port = 0;
    s.aether.launch_arguments = vec!["--legacy".to_string()];
    assert!(SettingsStorage::migrate_loaded(&mut s));
    assert_eq!(s.aether.host, "127.0.0.1");
    assert_eq!(s.aether.port, 1819);
    assert!(s.aether.launch_arguments.is_empty());
    assert!(!SettingsStorage::migrate_loaded(&mut s));
}

#[test]
fn storage_paths_end_with_their_file_names() {
    assert!(SettingsStorage::get_config_file_path(None).ends_with("config.json"));
    assert!(SettingsStorage::get_singbox_config_path(None).ends_with("sing-box-config.json"));
    assert!(SettingsStorage::get_aether_config_path().ends_with("aether.toml"));
}

#[test]
fn configuration_directory_follows_the_override() {
    let dir = "/tmp/aether_isolated_config";
    assert_eq!(SettingsStorage::get_config_dir(Some(dir)), dir);
    let file = SettingsStorage::get_config_file_path(Some(dir));
    assert!(file.starts_with(dir) && file.ends_with("config.json"));
    let singbox = SettingsStorage::get_singbox_config_path(Some(dir));
    assert!(singbox.starts_with(dir) && singbox.ends_with("sing-box-config.json"));
    let default_dir = SettingsStorage::get_config_dir(None);
    assert!(default_dir == "./config" || default_dir.ends_with("AetherDesktop"));
}
