use aether_desktop::models::settings::AppSettings;
use aether_desktop::process::live_apply::{
    live_apply_begin, live_apply_step, ActiveRouter, LiveApplyCommand, LiveApplyEvent,
    LiveApplyPlan, LiveApplyStage,
};

fn candidate_settings() -> AppSettings {
    let mut s = AppSettings::default();
    s.sing_box.executable_path = "C:\\new\\sing-box.exe".to_string();
    s.sing_box.interface_name = "new-tun".to_string();
    s.sing_box.tun_address = "172.20.0.1/30".to_string();
    s
}

fn running() -> ActiveRouter {
    ActiveRouter {
        executable_path: Some("C:\\old\\sing-box.exe".to_string()),
        interface_name: Some("old-tun".to_string()),
    }
}

fn step(
    active: &mut ActiveRouter,
    plan: &mut LiveApplyPlan,
    stage: LiveApplyStage,
    ev: LiveApplyEvent,
) -> (LiveApplyStage, LiveApplyCommand) {
    live_apply_step(active, plan, stage, ev)
}

#[test]
fn plan_uses_the_running_router_as_the_old_one() {
    let (plan, stage, cmd) = live_apply_begin(&running(), &candidate_settings());
    assert_eq!(plan.old_executable, "C:\\old\\sing-box.exe");
    assert_eq!(plan.old_interface, "old-tun");
    assert_eq!(plan.candidate_executable, "C:\\new\\sing-box.exe");
    assert_eq!(plan.candidate_interface, "new-tun");
    assert_eq!(plan.candidate_tun_address, "172.20.0.1/30");
    assert_eq!(stage, LiveApplyStage::WritingCandidate);
    assert!(matches!(cmd, LiveApplyCommand::WriteCandidate));

    let never = ActiveRouter { executable_path: None, interface_name: None };
    let (plan2, _, _) = live_apply_begin(&never, &candidate_settings());
    assert_eq!(plan2.old_executable, "C:\\new\\sing-box.exe");
    assert_eq!(plan2.old_interface, "new-tun");
}

#[test]
fn verified_candidate_is_committed() {
    let mut active = running();
    let (mut plan, stage, _) = live_apply_begin(&active, &candidate_settings());
    let (stage, cmd) = step(&mut active, &mut plan, stage, LiveApplyEvent::CandidateWritten(Ok(())));
    match cmd {
        LiveApplyCommand::ValidateCandidate { executable } => assert_eq!(executable, "C:\\new\\sing-box.exe"),
        other => panic!("unexpected {:?}", other),
    }
    let (stage, cmd) = step(&mut active, &mut plan, stage, LiveApplyEvent::CandidateValidated(Ok(())));
    assert!(matches!(cmd, LiveApplyCommand::BackupActive));
    let (stage, cmd) = step(&mut active, &mut plan, stage, LiveApplyEvent::BackedUp(Ok(())));
    assert!(matches!(cmd, LiveApplyCommand::ReplaceActive));
    let (stage, cmd) = step(&mut active, &mut plan, stage, LiveApplyEvent::Replaced(Ok(())));
    match cmd {
        LiveApplyCommand::StopRouter { note, pause_ms } => {
            assert_eq!(pause_ms, 150);
            assert_eq!(note.message, "Applying validated candidate routing configuration...");
        }
        other => panic!("unexpected {:?}", other),
    }
    let (stage, _) = step(&mut active, &mut plan, stage, LiveApplyEvent::Stopped);
    let (stage, cmd) = step(&mut active, &mut plan, stage, LiveApplyEvent::Spawned(Ok(())));
    match cmd {
        LiveApplyCommand::Verify { interface_name, tun_address } => {
            assert_eq!(interface_name, "new-tun");
            assert_eq!(tun_address, "172.20.0.1/30");
        }
        other => panic!("unexpected {:?}", other),
    }
    let (stage, cmd) = step(&mut active, &mut plan, stage, LiveApplyEvent::Verified(Ok(())));
    assert_eq!(stage, LiveApplyStage::Done);
    match cmd {
        LiveApplyCommand::Finish { remove_candidate, remove_backup, note, result } => {
            assert!(!remove_candidate);
            assert!(remove_backup);
            assert_eq!(note.unwrap().message, "Updated routing configuration applied and fully verified successfully");
            assert!(result.is_ok());
        }
        other => panic!("unexpected {:?}", other),
    }
    assert_eq!(active.executable_path.as_deref(), Some("C:\\new\\sing-box.exe"));
    assert_eq!(active.interface_name.as_deref(), Some("new-tun"));
}

#[test]
fn invalid_candidate_keeps_existing_routing() {
    let mut active = running();
    let (mut plan, stage, _) = live_apply_begin(&active, &candidate_settings());
    let (stage, _) = step(&mut active, &mut plan, stage, LiveApplyEvent::CandidateWritten(Ok(())));
    let (stage, cmd) = step(
        &mut active,
        &mut plan,
        stage,
        LiveApplyEvent::CandidateValidated(Err("unknown field".to_string())),
    );
    assert_eq!(stage, LiveApplyStage::Done);
    match cmd {
        LiveApplyCommand::Finish { remove_candidate, remove_backup, note, result } => {
            assert!(remove_candidate);
            assert!(!remove_backup);
            assert_eq!(note.unwrap().message, "Candidate config invalid: unknown field. Existing routing unchanged.");
            assert_eq!(result.unwrap_err(), "Configuration check failed: unknown field. Existing routing kept active.");
        }
        other => panic!("unexpected {:?}", other),
    }
    assert_eq!(active.executable_path.as_deref(), Some("C:\\old\\sing-box.exe"));
}

fn replaced(active: &mut ActiveRouter) -> (LiveApplyPlan, LiveApplyStage) {
    let (mut plan, stage, _) = live_apply_begin(active, &candidate_settings());
    let (stage, _) = step(active, &mut plan, stage, LiveApplyEvent::CandidateWritten(Ok(())));
    let (stage, _) = step(active, &mut plan, stage, LiveApplyEvent::CandidateValidated(Ok(())));
    let (stage, _) = step(active, &mut plan, stage, LiveApplyEvent::BackedUp(Ok(())));
    let (stage, _) = step(active, &mut plan, stage, LiveApplyEvent::Replaced(Ok(())));
    let (stage, _) = step(active, &mut plan, stage, LiveApplyEvent::Stopped);
    (plan, stage)
}

#[test]
fn failed_launch_rolls_back_to_the_old_router() {
    let mut active = running();
    let (mut plan, stage) = replaced(&mut active);
    let (stage, cmd) = step(&mut active, &mut plan, stage, LiveApplyEvent::Spawned(Err("access denied".to_string())));
    match cmd {
        LiveApplyCommand::StopRouter { note, pause_ms } => {
            assert_eq!(pause_ms, 0);
            assert_eq!(note.level, "ERROR");
            assert_eq!(note.message, "Failed to spawn router with candidate config: access denied. Initiating rollback...");
        }
        other => panic!("unexpected {:?}", other),
    }
    let (stage, cmd) = step(&mut active, &mut plan, stage, LiveApplyEvent::Stopped);
    assert!(matches!(cmd, LiveApplyCommand::CheckBackupExists));
    let (stage, cmd) = step(&mut active, &mut plan, stage, LiveApplyEvent::BackupExists(true));
    assert!(matches!(cmd, LiveApplyCommand::RestoreBackup { .. }));
    let (stage, cmd) = step(&mut active, &mut plan, stage, LiveApplyEvent::Restored(Ok(())));
    match cmd {
        LiveApplyCommand::Spawn { executable } => assert_eq!(executable, "C:\\old\\sing-box.exe"),
        other => panic!("unexpected {:?}", other),
    }
    let (stage, cmd) = step(&mut active, &mut plan, stage, LiveApplyEvent::Spawned(Ok(())));
    match cmd {
        LiveApplyCommand::Verify { interface_name, .. } => assert_eq!(interface_name, "old-tun"),
        other => panic!("unexpected {:?}", other),
    }
    let (_, cmd) = step(&mut active, &mut plan, stage, LiveApplyEvent::Verified(Ok(())));
    match cmd {
        LiveApplyCommand::Finish { result, remove_backup, .. } => {
            assert!(remove_backup);
            assert_eq!(
                result.unwrap_err(),
                "New routing configuration failed (access denied); rolled back to previous working configuration successfully."
            );
        }
        other => panic!("unexpected {:?}", other),
    }
    assert_eq!(active.executable_path.as_deref(), Some("C:\\old\\sing-box.exe"));
    assert_eq!(active.interface_name.as_deref(), Some("old-tun"));
}

#[test]
fn failed_verification_without_backup_is_critical() {
    let mut active = running();
    let (mut plan, stage) = replaced(&mut active);
    let (stage, _) = step(&mut active, &mut plan, stage, LiveApplyEvent::Spawned(Ok(())));
    let (stage, _) = step(&mut active, &mut plan, stage, LiveApplyEvent::Verified(Err("no TUN".to_string())));
    let (stage, _) = step(&mut active, &mut plan, stage, LiveApplyEvent::Stopped);
    let (_, cmd) = step(&mut active, &mut plan, stage, LiveApplyEvent::BackupExists(false));
    match cmd {
        LiveApplyCommand::Finish { result, .. } => assert_eq!(
            result.unwrap_err(),
            "CRITICAL: Failed to start new router (no TUN) and no backup config existed for rollback."
        ),
        other => panic!("unexpected {:?}", other),
    }
}

#[test]
fn failed_rollback_verification_reports_both_failures() {
    let mut active = running();
    let (mut plan, stage) = replaced(&mut active);
    let (stage, _) = step(&mut active, &mut plan, stage, LiveApplyEvent::Spawned(Ok(())));
    let (stage, _) = step(&mut active, &mut plan, stage, LiveApplyEvent::Verified(Err("egress mismatch".to_string())));
    let (stage, _) = step(&mut active, &mut plan, stage, LiveApplyEvent::Stopped);
    let (stage, _) = step(&mut active, &mut plan, stage, LiveApplyEvent::BackupExists(true));
    let (stage, _) = step(&mut active, &mut plan, stage, LiveApplyEvent::Restored(Ok(())));
    let (stage, _) = step(&mut active, &mut plan, stage, LiveApplyEvent::Spawned(Ok(())));
    let (_, cmd) = step(&mut active, &mut plan, stage, LiveApplyEvent::Verified(Err("dead".to_string())));
    match cmd {
        LiveApplyCommand::Finish { result, note, .. } => {
            assert_eq!(note.unwrap().message, "CRITICAL: Rollback router failed health verification: dead");
            assert_eq!(
                result.unwrap_err(),
                "CRITICAL: New routing configuration failed (egress mismatch) AND rollback router health verification also failed (dead)."
            );
        }
        other => panic!("unexpected {:?}", other),
    }
    assert_eq!(active.executable_path.as_deref(), Some("C:\\old\\sing-box.exe"));
}

#[test]
fn failed_restore_is_critical() {
    let mut active = running();
    let (mut plan, stage) = replaced(&mut active);
    let (stage, _) = step(&mut active, &mut plan, stage, LiveApplyEvent::Spawned(Err("x".to_string())));
    let (stage, _) = step(&mut active, &mut plan, stage, LiveApplyEvent::Stopped);
    let (stage, _) = step(&mut active, &mut plan, stage, LiveApplyEvent::BackupExists(true));
    let (_, cmd) = step(&mut active, &mut plan, stage, LiveApplyEvent::Restored(Err("locked".to_string())));
    match cmd {
        LiveApplyCommand::Finish { result, .. } => assert_eq!(
            result.unwrap_err(),
            "CRITICAL: Failed to atomically restore backup config (locked) during rollback after error: x"
        ),
        other => panic!("unexpected {:?}", other),
    }
}
