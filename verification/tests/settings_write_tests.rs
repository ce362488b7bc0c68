use aether_desktop::commands::settings_write::{
    reset_step, save_step, settings_write_begin, SettingsRole, SettingsWriteCommand,
    SettingsWriteEvent, SettingsWriteStage,
};

#[test]
fn disconnected_save_only_persists() {
    let (mut rec, stage, cmd) = settings_write_begin(false);
    assert!(matches!(cmd, SettingsWriteCommand::ConfigureStartup));
    let (stage, cmd) = save_step(&mut rec, stage, SettingsWriteEvent::StartupConfigured(Ok(())));
    assert!(matches!(cmd, SettingsWriteCommand::Persist));
    let (stage, cmd) = save_step(&mut rec, stage, SettingsWriteEvent::Persisted(Ok(())));
    assert_eq!(stage, SettingsWriteStage::Done);
    match cmd {
        SettingsWriteCommand::Finish { revert_startup, reapply_previous, note, result } => {
            assert!(!revert_startup);
            assert!(!reapply_previous);
            assert_eq!(note.unwrap().message, "Settings saved successfully to storage");
            assert!(result.is_ok());
        }
        other => panic!("unexpected {:?}", other),
    }
}

#[test]
fn disconnected_failed_write_reverts_startup() {
    let (mut rec, stage, _) = settings_write_begin(false);
    let (stage, _) = save_step(&mut rec, stage, SettingsWriteEvent::StartupConfigured(Ok(())));
    let (_, cmd) = save_step(&mut rec, stage, SettingsWriteEvent::Persisted(Err("disk full".to_string())));
    match cmd {
        SettingsWriteCommand::Finish { revert_startup, result, .. } => {
            assert!(revert_startup);
            assert_eq!(result.unwrap_err(), "disk full");
        }
        other => panic!("unexpected {:?}", other),
    }
}

#[test]
fn connected_save_applies_live_first() {
    let (mut rec, stage, cmd) = settings_write_begin(true);
    assert!(matches!(cmd, SettingsWriteCommand::ApplyLive(SettingsRole::Candidate)));
    let (stage, _) = save_step(&mut rec, stage, SettingsWriteEvent::LiveApplied(Ok(())));
    let (stage, _) = save_step(&mut rec, stage, SettingsWriteEvent::StartupConfigured(Ok(())));
    let (_, cmd) = save_step(&mut rec, stage, SettingsWriteEvent::Persisted(Ok(())));
    match cmd {
        SettingsWriteCommand::Finish { note, result, .. } => {
            assert_eq!(note.unwrap().message, "Settings validated, live applied, and persisted atomically");
            assert!(result.is_ok());
        }
        other => panic!("unexpected {:?}", other),
    }
}

#[test]
fn connected_save_whose_live_apply_fails_changes_nothing() {
    let (mut rec, stage, _) = settings_write_begin(true);
    let (stage, cmd) = save_step(&mut rec, stage, SettingsWriteEvent::LiveApplied(Err("rolled back".to_string())));
    assert_eq!(stage, SettingsWriteStage::Done);
    match cmd {
        SettingsWriteCommand::Finish { revert_startup, reapply_previous, result, .. } => {
            assert!(!revert_startup);
            assert!(!reapply_previous);
            assert_eq!(result.unwrap_err(), "rolled back");
        }
        other => panic!("unexpected {:?}", other),
    }
}

#[test]
fn connected_persist_failure_restores_the_runtime() {
    let (mut rec, stage, _) = settings_write_begin(true);
    let (stage, _) = save_step(&mut rec, stage, SettingsWriteEvent::LiveApplied(Ok(())));
    let (stage, _) = save_step(&mut rec, stage, SettingsWriteEvent::StartupConfigured(Ok(())));
    let (stage, cmd) = save_step(&mut rec, stage, SettingsWriteEvent::Persisted(Err("denied".to_string())));
    match cmd {
        SettingsWriteCommand::RollbackRuntime { note } => {
            assert_eq!(note.level, "ERROR");
            assert_eq!(note.message, "Settings persistence failed: denied. Initiating runtime rollback...");
        }
        other => panic!("unexpected {:?}", other),
    }
    let (_, cmd) = save_step(&mut rec, stage, SettingsWriteEvent::LiveApplied(Ok(())));
    match cmd {
        SettingsWriteCommand::Finish { result, .. } => assert_eq!(
            result.unwrap_err(),
            "Settings persistence failed (denied). Runtime restored successfully to previous configuration."
        ),
        other => panic!("unexpected {:?}", other),
    }
}

#[test]
fn connected_persist_failure_with_failed_restore_is_critical() {
    let (mut rec, stage, _) = settings_write_begin(true);
    let (stage, _) = save_step(&mut rec, stage, SettingsWriteEvent::LiveApplied(Ok(())));
    let (stage, _) = save_step(&mut rec, stage, SettingsWriteEvent::StartupConfigured(Err("registry".to_string())));
    let (_, cmd) = save_step(&mut rec, stage, SettingsWriteEvent::LiveApplied(Err("router down".to_string())));
    match cmd {
        SettingsWriteCommand::Finish { result, .. } => assert_eq!(
            result.unwrap_err(),
            "CRITICAL: Settings persistence failed (registry) AND runtime rollback also failed (router down)."
        ),
        other => panic!("unexpected {:?}", other),
    }
}

#[test]
fn reset_failure_reverts_startup_and_runtime() {
    let (mut rec, stage, _) = settings_write_begin(true);
    let (stage, _) = reset_step(&mut rec, stage, SettingsWriteEvent::LiveApplied(Ok(())));
    let (stage, _) = reset_step(&mut rec, stage, SettingsWriteEvent::StartupConfigured(Ok(())));
    let (_, cmd) = reset_step(&mut rec, stage, SettingsWriteEvent::Persisted(Err("locked".to_string())));
    match cmd {
        SettingsWriteCommand::Finish { revert_startup, reapply_previous, result, .. } => {
            assert!(revert_startup);
            assert!(reapply_previous);
            assert_eq!(result.unwrap_err(), "locked");
        }
        other => panic!("unexpected {:?}", other),
    }
}

#[test]
fn reset_success_warns() {
    let (mut rec, stage, _) = settings_write_begin(false);
    let (stage, _) = reset_step(&mut rec, stage, SettingsWriteEvent::StartupConfigured(Ok(())));
    let (_, cmd) = reset_step(&mut rec, stage, SettingsWriteEvent::Persisted(Ok(())));
    match cmd {
        SettingsWriteCommand::Finish { note, result, .. } => {
            let n = note.unwrap();
            assert_eq!(n.level, "WARN");
            assert_eq!(n.message, "Reset settings to factory defaults");
            assert!(result.is_ok());
        }
        other => panic!("unexpected {:?}", other),
    }
}
