use aether_desktop::models::settings::{AetherLaunchOptions, AetherScanMode, QuickReconnectOption};
use aether_desktop::models::state::ConnectionState;
use aether_desktop::process::orchestrator::{
    cancel_connection, connect_entry, connect_step, evaluate_gateway_optimization,
    evaluate_prelaunch_tun_conflict, optimize_entry, AetherObservation, ConnectCommand,
    ConnectContext, ConnectEvent, ConnectStage, GatewayOptimizationDecision, Lifecycle,
    OptimizeEntry,
};

fn lifecycle(state: ConnectionState) -> Lifecycle {
    Lifecycle { state, aether_managed: false, active_aether_ip: None, last_error: None }
}

fn context() -> ConnectContext {
    ConnectContext {
        attempt_id: 7,
        host: "127.0.0.1".to_string(),
        port: 1819,
        scan_mode: AetherScanMode::Balanced,
        options: AetherLaunchOptions::default(),
        interface_name: "singbox-tun".to_string(),
        tun_address: "172.19.0.1/30".to_string(),
    }
}

#[test]
fn gateway_decision_thresholds() {
    let (d, req, delta, max_j) = evaluate_gateway_optimization(100, 5, 80, 12);
    assert_eq!(d, GatewayOptimizationDecision::KeptFaster);
    assert_eq!(req, 10);
    assert_eq!(delta, 20);
    assert_eq!(max_j, 15);
    assert_eq!(d.as_str(), "KeptFaster");
    assert!(d.is_keep());

    let (d, req, delta, _) = evaluate_gateway_optimization(400, 5, 385, 5);
    assert_eq!(d, GatewayOptimizationDecision::NotEnoughLatencyImprovement);
    assert_eq!(req, 20);
    assert_eq!(delta, 15);
    assert!(!d.is_keep());

    let (d, _, _, max_j) = evaluate_gateway_optimization(100, 20, 50, 41);
    assert_eq!(d, GatewayOptimizationDecision::CandidateTooUnstable);
    assert_eq!(max_j, 40);
    assert_eq!(d.as_str(), "CandidateTooUnstable");

    let (d, _, delta, _) = evaluate_gateway_optimization(50, 0, 70, 0);
    assert_eq!(d, GatewayOptimizationDecision::NotEnoughLatencyImprovement);
    assert_eq!(delta, -20);
}

#[test]
fn prelaunch_tun_conflict() {
    assert!(evaluate_prelaunch_tun_conflict(true, true, "singbox-tun", "172.19.0.1/30", None).is_ok());
    assert!(evaluate_prelaunch_tun_conflict(false, false, "singbox-tun", "172.19.0.1/30", None).is_ok());
    assert_eq!(
        evaluate_prelaunch_tun_conflict(false, true, "singbox-tun", "172.19.0.1/30", Some("'x' (Wintun)"))
            .unwrap_err(),
        "An existing 'singbox-tun' interface is already active in the network stack (adapter: 'x' (Wintun)). Another Aether Desktop or sing-box instance may still be running. Close the other instance and retry."
    );
}

#[test]
fn test_e_duplicate_optimize_cannot_create_multiple_lifecycle_operations() {
    match optimize_entry(false, ConnectionState::Disconnected, false) {
        OptimizeEntry::Refused(m) => assert_eq!(m, "Connection operation already in progress"),
        other => panic!("expected a refusal, got {:?}", other),
    }
}

#[test]
fn test_f_optimize_rejected_while_other_operation_is_active() {
    match optimize_entry(false, ConnectionState::Connected, true) {
        OptimizeEntry::Refused(m) => assert_eq!(m, "Connection operation already in progress"),
        other => panic!("expected a refusal, got {:?}", other),
    }
}

#[test]
fn optimize_entry_routes_by_state() {
    assert!(matches!(optimize_entry(true, ConnectionState::Connected, true), OptimizeEntry::ConnectedFlow));
    assert!(matches!(optimize_entry(true, ConnectionState::Error, false), OptimizeEntry::InitialScanFlow));
    match optimize_entry(true, ConnectionState::Connected, false) {
        OptimizeEntry::Refused(m) => assert!(m.starts_with("Gateway optimization requires an Aether instance managed by Aether Desktop.")),
        other => panic!("expected a refusal, got {:?}", other),
    }
    assert!(matches!(optimize_entry(true, ConnectionState::TestingRouting, true), OptimizeEntry::Refused(_)));
}

#[test]
fn connect_entry_gate() {
    let mut cancel = true;
    assert_eq!(connect_entry(false, ConnectionState::Disconnected, &mut cancel).unwrap_err(), "Connection operation already in progress");
    assert!(!cancel);
    assert_eq!(connect_entry(true, ConnectionState::Error, &mut cancel).unwrap(), ConnectionState::StartingAether);
    assert_eq!(connect_entry(true, ConnectionState::Connected, &mut cancel).unwrap_err(), "Connection already in progress or connected");
}

#[test]
fn test_cancel_during_startup() {
    let mut lc = lifecycle(ConnectionState::StartingAether);
    let mut cancel = false;
    cancel_connection(&mut lc, &mut cancel);
    assert!(cancel);
    assert_eq!(lc.state, ConnectionState::Disconnected);
}

#[test]
fn test_cancel_during_verification() {
    let mut lc = lifecycle(ConnectionState::TestingRouting);
    let mut cancel = false;
    cancel_connection(&mut lc, &mut cancel);
    assert!(cancel);
    assert_eq!(lc.state, ConnectionState::Disconnected);
}

#[test]
fn managed_connect_sequence_reaches_connected() {
    let ctx = context();
    let mut lc = lifecycle(ConnectionState::StartingAether);
    let (st, cmd) = connect_step(&ctx, &mut lc, ConnectStage::Done, ConnectEvent::Begin);
    assert_eq!(st, ConnectStage::AwaitPortProbe);
    assert!(matches!(cmd, ConnectCommand::ProbePort));
    let (st, cmd) = connect_step(&ctx, &mut lc, st, ConnectEvent::PortProbed(false));
    assert_eq!(st, ConnectStage::AwaitSpawn);
    assert!(matches!(cmd, ConnectCommand::SpawnAether(_)));
    let (st, cmd) = connect_step(&ctx, &mut lc, st, ConnectEvent::Spawned(Ok(())));
    assert_eq!(lc.state, ConnectionState::ScanningAether);
    assert!(lc.aether_managed);
    match cmd {
        ConnectCommand::PollAether { deadline_secs } => assert_eq!(deadline_secs, 150),
        other => panic!("unexpected command {:?}", other),
    }
    let (st, _) = connect_step(&ctx, &mut lc, st, ConnectEvent::AetherPolled(AetherObservation::NotReady));
    let (st, cmd) = connect_step(&ctx, &mut lc, st, ConnectEvent::AetherPolled(AetherObservation::Ready("1.2.3.4".to_string())));
    assert_eq!(lc.active_aether_ip.as_deref(), Some("1.2.3.4"));
    assert!(matches!(cmd, ConnectCommand::CheckElevation));
    let (st, _) = connect_step(&ctx, &mut lc, st, ConnectEvent::Elevation(true));
    let (st, cmd) = connect_step(&ctx, &mut lc, st, ConnectEvent::TunChecked { singbox_running: false, tun_preexists: false, matched: None, cancelled: false });
    assert_eq!(lc.state, ConnectionState::StartingRouter);
    assert!(matches!(cmd, ConnectCommand::StartRouter));
    let (st, _) = connect_step(&ctx, &mut lc, st, ConnectEvent::RouterStarted { result: Ok(()), cancelled: false });
    assert_eq!(lc.state, ConnectionState::TestingRouting);
    let (st, cmd) = connect_step(&ctx, &mut lc, st, ConnectEvent::Verified { result: Ok(()), cancelled: false });
    assert_eq!(st, ConnectStage::Done);
    assert_eq!(lc.state, ConnectionState::Connected);
    match cmd {
        ConnectCommand::Finish(o) => {
            assert!(o.result.is_ok());
            assert!(!o.stop_aether && !o.stop_singbox && !o.force_shutdown);
        }
        other => panic!("unexpected command {:?}", other),
    }
}

#[test]
fn foreign_port_owner_is_refused() {
    let ctx = context();
    let mut lc = lifecycle(ConnectionState::StartingAether);
    let (st, _) = connect_step(&ctx, &mut lc, ConnectStage::Done, ConnectEvent::Begin);
    let (st, _) = connect_step(&ctx, &mut lc, st, ConnectEvent::PortProbed(true));
    let (st, cmd) = connect_step(&ctx, &mut lc, st, ConnectEvent::OwnerFound(Some((42, "nginx.exe".to_string()))));
    assert_eq!(st, ConnectStage::Done);
    assert_eq!(lc.state, ConnectionState::Error);
    let expected = "[Attempt #7] Port 127.0.0.1:1819 is in use by another process ('nginx.exe', PID: 42), which is not Aether. Resolve port conflict.";
    assert_eq!(lc.last_error.as_deref(), Some(expected));
    match cmd {
        ConnectCommand::Finish(o) => assert_eq!(o.result.unwrap_err(), expected),
        other => panic!("unexpected command {:?}", other),
    }
}

#[test]
fn existing_aether_is_reused() {
    let ctx = context();
    let mut lc = lifecycle(ConnectionState::StartingAether);
    lc.aether_managed = true;
    let (st, _) = connect_step(&ctx, &mut lc, ConnectStage::Done, ConnectEvent::Begin);
    let (st, _) = connect_step(&ctx, &mut lc, st, ConnectEvent::PortProbed(true));
    let (st, cmd) = connect_step(&ctx, &mut lc, st, ConnectEvent::OwnerFound(Some((9, "Aether.exe".to_string()))));
    assert!(matches!(cmd, ConnectCommand::QueryExistingTrace));
    let (_, cmd) = connect_step(&ctx, &mut lc, st, ConnectEvent::ExistingTrace(Ok("5.6.7.8".to_string())));
    assert!(matches!(cmd, ConnectCommand::CheckElevation));
    assert!(!lc.aether_managed);
    assert_eq!(lc.active_aether_ip.as_deref(), Some("5.6.7.8"));
}

#[test]
fn cancellation_during_verification_tears_down() {
    let ctx = context();
    let mut lc = lifecycle(ConnectionState::TestingRouting);
    lc.active_aether_ip = Some("1.1.1.1".to_string());
    let (st, cmd) = connect_step(&ctx, &mut lc, ConnectStage::AwaitVerification, ConnectEvent::Verified { result: Err("x".to_string()), cancelled: true });
    assert_eq!(st, ConnectStage::Done);
    assert_eq!(lc.state, ConnectionState::Disconnected);
    assert!(lc.active_aether_ip.is_none());
    match cmd {
        ConnectCommand::Finish(o) => {
            assert!(o.force_shutdown && o.stop_singbox);
            assert_eq!(o.result.unwrap_err(), "Connection cancelled by user");
        }
        other => panic!("unexpected command {:?}", other),
    }
}

#[test]
fn deadline_failure_stops_managed_aether() {
    let mut ctx = context();
    ctx.options = AetherLaunchOptions { quick_reconnect: QuickReconnectOption::ForceEnabled, scan_mode_override: None };
    let mut lc = lifecycle(ConnectionState::ScanningAether);
    lc.aether_managed = true;
    let (_, cmd) = connect_step(&ctx, &mut lc, ConnectStage::AwaitAetherReady, ConnectEvent::AetherPolled(AetherObservation::DeadlinePassed));
    assert_eq!(lc.state, ConnectionState::Error);
    match cmd {
        ConnectCommand::Finish(o) => {
            assert!(o.stop_aether);
            assert_eq!(
                o.result.unwrap_err(),
                "[Attempt #7] Aether started, but local proxy on 127.0.0.1:1819 did not become ready within 25s deadline (Scan Mode: Balanced). View Diagnostics for details."
            );
        }
        other => panic!("unexpected command {:?}", other),
    }
}

#[test]
fn test_reconnect_after_cancel() {
    let mut lc = lifecycle(ConnectionState::Disconnected);
    let mut cancel = false;
    cancel_connection(&mut lc, &mut cancel);
    assert!(cancel);
    assert_eq!(lc.state, ConnectionState::Disconnected);
    let next = connect_entry(true, lc.state, &mut cancel);
    assert!(!cancel);
    assert_eq!(next.unwrap(), ConnectionState::StartingAether);
}
