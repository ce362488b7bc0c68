use aether_desktop::models::health::{CloudflareTrace, LatencyProfile};
use aether_desktop::models::state::ConnectionState;
use aether_desktop::process::optimizer::{
    optimize_begin, optimize_step, FreshScanObservation, OptimizeCommand, OptimizeEvent,
    OptimizeRecord, OptimizeStage,
};
use aether_desktop::process::orchestrator::{Lifecycle, OptimizeEntry};

fn profile(median: u64, jitter: u64, colo: &str, ip: &str) -> LatencyProfile {
    LatencyProfile {
        total_samples: 5,
        successful_samples: 5,
        samples_ms: vec![median; 5],
        median_ms: median,
        min_ms: median,
        max_ms: median,
        jitter_mad_ms: jitter,
        latest_trace: Some(CloudflareTrace {
            ip: ip.to_string(),
            warp: "off".to_string(),
            colo: colo.to_string(),
            loc: "DE".to_string(),
            latency_ms: median,
        }),
    }
}

fn connected() -> Lifecycle {
    Lifecycle { state: ConnectionState::Connected, aether_managed: true, active_aether_ip: Some("1.1.1.1".to_string()), last_error: None }
}

fn run_to_candidate(rec: &mut OptimizeRecord, lc: &mut Lifecycle) -> OptimizeStage {
    let (st, cmd) = optimize_begin(OptimizeEntry::ConnectedFlow);
    assert!(matches!(cmd, OptimizeCommand::MeasureBaseline));
    let (st, _) = optimize_step(rec, lc, st, OptimizeEvent::BaselineMeasured(Ok(profile(100, 5, "FRA", "1.1.1.1"))));
    let (st, _) = optimize_step(rec, lc, st, OptimizeEvent::SnapshotPrepared(Ok(())));
    assert_eq!(lc.state, ConnectionState::ScanningAether);
    let (st, cmd) = optimize_step(rec, lc, st, OptimizeEvent::TeardownConfirmed(Ok(())));
    assert!(matches!(cmd, OptimizeCommand::SpawnFreshScan { stop_managed_first: true, .. }));
    let (st, cmd) = optimize_step(rec, lc, st, OptimizeEvent::FreshSpawned(Ok(())));
    match cmd {
        OptimizeCommand::PollFreshScan { deadline_secs } => assert_eq!(deadline_secs, 340),
        other => panic!("unexpected command {:?}", other),
    }
    let (st, _) = optimize_step(rec, lc, st, OptimizeEvent::FreshPolled(FreshScanObservation::Ready("2.2.2.2".to_string())));
    let (st, cmd) = optimize_step(rec, lc, st, OptimizeEvent::ScanKind { cached_reuse: false });
    assert!(matches!(cmd, OptimizeCommand::MeasureCandidate));
    st
}

#[test]
fn faster_candidate_is_kept() {
    let mut rec = OptimizeRecord::new(3);
    let mut lc = connected();
    let st = run_to_candidate(&mut rec, &mut lc);
    let (st, cmd) = optimize_step(&mut rec, &mut lc, st, OptimizeEvent::CandidateMeasured(Ok(profile(70, 4, "AMS", "2.2.2.2"))));
    assert!(matches!(cmd, OptimizeCommand::StartRouter));
    let (st, _) = optimize_step(&mut rec, &mut lc, st, OptimizeEvent::RouterStarted(Ok(())));
    let (st, cmd) = optimize_step(&mut rec, &mut lc, st, OptimizeEvent::Verified(Ok(())));
    assert_eq!(st, OptimizeStage::Done);
    assert_eq!(lc.state, ConnectionState::Connected);
    match cmd {
        OptimizeCommand::Finish(o) => {
            assert!(o.commit_snapshot);
            let r = o.result.unwrap();
            assert!(r.success);
            assert_eq!(r.decision, "KeptFaster");
            assert_eq!(r.latency_delta_ms, Some(30));
            assert_eq!(r.previous_pop.as_deref(), Some("FRA"));
            assert_eq!(r.new_pop.as_deref(), Some("AMS"));
            assert_eq!(r.message, "New faster gateway kept (Median: 70 ms, Jitter: 4 ms, improved by 30 ms vs previous 100 ms).");
        }
        other => panic!("unexpected command {:?}", other),
    }
}

#[test]
fn slower_candidate_rolls_back_and_reports_failure() {
    let mut rec = OptimizeRecord::new(3);
    let mut lc = connected();
    let st = run_to_candidate(&mut rec, &mut lc);
    let (st, cmd) = optimize_step(&mut rec, &mut lc, st, OptimizeEvent::CandidateMeasured(Ok(profile(95, 4, "AMS", "2.2.2.2"))));
    assert_eq!(st, OptimizeStage::AwaitRestore);
    assert_eq!(lc.state, ConnectionState::StartingAether);
    assert!(matches!(cmd, OptimizeCommand::RollbackTeardownAndRestore { stop_aether: true }));
    let (st, cmd) = optimize_step(&mut rec, &mut lc, st, OptimizeEvent::SnapshotRestored(Ok(())));
    assert!(matches!(cmd, OptimizeCommand::Reconnect(_)));
    let (_, cmd) = optimize_step(&mut rec, &mut lc, st, OptimizeEvent::Reconnected(Ok(())));
    match cmd {
        OptimizeCommand::Finish(o) => {
            assert!(!o.commit_snapshot);
            let r = o.result.unwrap();
            assert!(!r.success);
            assert_eq!(r.decision, "NotEnoughLatencyImprovement");
            assert_eq!(r.latency_delta_ms, Some(5));
            assert_eq!(r.message, "Candidate path (Median: 95 ms) was not meaningfully faster than previous path (Median: 100 ms, required improvement: 10 ms). Restoring previous gateway.");
        }
        other => panic!("unexpected command {:?}", other),
    }
}

#[test]
fn test_h_snapshot_restore_failure_is_fatal_to_rollback() {
    let mut rec = OptimizeRecord::new(1);
    let mut lc = connected();
    let (st, _) = optimize_begin(OptimizeEntry::ConnectedFlow);
    let (st, _) = optimize_step(&mut rec, &mut lc, st, OptimizeEvent::BaselineMeasured(Ok(profile(50, 5, "FRA", "1.1.1.1"))));
    let (st, _) = optimize_step(&mut rec, &mut lc, st, OptimizeEvent::SnapshotPrepared(Ok(())));
    let (st, _) = optimize_step(&mut rec, &mut lc, st, OptimizeEvent::TeardownConfirmed(Ok(())));
    let (st, _) = optimize_step(&mut rec, &mut lc, st, OptimizeEvent::FreshSpawned(Err("Simulated scan failure".to_string())));
    assert_eq!(st, OptimizeStage::AwaitRestore);
    let (_, cmd) = optimize_step(&mut rec, &mut lc, st, OptimizeEvent::SnapshotRestored(Err("backup missing".to_string())));
    match cmd {
        OptimizeCommand::Finish(o) => {
            let err = o.result.unwrap_err();
            assert!(err.contains("Fatal: Failed to restore native lastconn persistence snapshot"));
            assert_eq!(lc.state, ConnectionState::Error);
            assert_eq!(lc.last_error.as_deref(), Some(err.as_str()));
        }
        other => panic!("unexpected command {:?}", other),
    }
}

#[test]
fn test_c_rollback_snapshot_preparation_fails_leaves_connected_session_intact() {
    let mut rec = OptimizeRecord::new(2);
    let mut lc = connected();
    let (st, _) = optimize_begin(OptimizeEntry::ConnectedFlow);
    let (st, _) = optimize_step(&mut rec, &mut lc, st, OptimizeEvent::BaselineMeasured(Ok(profile(50, 5, "FRA", "1.1.1.1"))));
    let (_, cmd) = optimize_step(&mut rec, &mut lc, st, OptimizeEvent::SnapshotPrepared(Err("read-only".to_string())));
    assert_eq!(lc.state, ConnectionState::Connected);
    match cmd {
        OptimizeCommand::Finish(o) => assert_eq!(
            o.result.unwrap_err(),
            "[Optimize #2] Rollback snapshot preparation failed: read-only. Aborting optimization without disrupting active connection."
        ),
        other => panic!("unexpected command {:?}", other),
    }
}

#[test]
fn test_g_tun_teardown_failure_aborts_before_fresh_scan() {
    let mut rec = OptimizeRecord::new(4);
    let mut lc = connected();
    let (st, _) = optimize_begin(OptimizeEntry::ConnectedFlow);
    let (st, _) = optimize_step(&mut rec, &mut lc, st, OptimizeEvent::BaselineMeasured(Ok(profile(50, 5, "FRA", "1.1.1.1"))));
    let (st, _) = optimize_step(&mut rec, &mut lc, st, OptimizeEvent::SnapshotPrepared(Ok(())));
    let (st, cmd) = optimize_step(&mut rec, &mut lc, st, OptimizeEvent::TeardownConfirmed(Err("still present".to_string())));
    assert_eq!(st, OptimizeStage::AwaitRestore);
    assert!(matches!(cmd, OptimizeCommand::RollbackTeardownAndRestore { .. }));
    let (st, _) = optimize_step(&mut rec, &mut lc, st, OptimizeEvent::SnapshotRestored(Ok(())));
    let (_, cmd) = optimize_step(&mut rec, &mut lc, st, OptimizeEvent::Reconnected(Err("boom".to_string())));
    match cmd {
        OptimizeCommand::Finish(o) => assert_eq!(
            o.result.unwrap_err(),
            "Optimization rollback failed (TUN teardown could not be confirmed before fresh scan: still present) AND restoration of previous connection also failed (boom)"
        ),
        other => panic!("unexpected command {:?}", other),
    }
}

#[test]
fn disconnected_flow_connects_through_fresh_scan() {
    let mut rec = OptimizeRecord::new(5);
    let mut lc = Lifecycle { state: ConnectionState::Disconnected, aether_managed: false, active_aether_ip: None, last_error: None };
    let (st, cmd) = optimize_begin(OptimizeEntry::InitialScanFlow);
    assert!(matches!(cmd, OptimizeCommand::ProbePort));
    let (st, cmd) = optimize_step(&mut rec, &mut lc, st, OptimizeEvent::PortProbed(false));
    assert!(matches!(cmd, OptimizeCommand::AwaitTeardownThenConnect(_)));
    assert_eq!(lc.state, ConnectionState::StartingAether);
    let (st, _) = optimize_step(&mut rec, &mut lc, st, OptimizeEvent::InitialConnected(Ok(())));
    let (_, cmd) = optimize_step(&mut rec, &mut lc, st, OptimizeEvent::SamplesMeasured(Some(profile(33, 2, "WAW", "3.3.3.3"))));
    match cmd {
        OptimizeCommand::Finish(o) => {
            let r = o.result.unwrap();
            assert_eq!(r.decision, "InitialConnected");
            assert_eq!(r.message, "Connected via fresh Thorough scan (Median: 33 ms, Jitter: 2 ms).");
            assert_eq!(r.new_ip.as_deref(), Some("3.3.3.3"));
        }
        other => panic!("unexpected command {:?}", other),
    }
    let mut rec2 = OptimizeRecord::new(6);
    let (st2, _) = optimize_begin(OptimizeEntry::InitialScanFlow);
    let (_, cmd2) = optimize_step(&mut rec2, &mut lc, st2, OptimizeEvent::PortProbed(true));
    match cmd2 {
        OptimizeCommand::Finish(o) => assert!(o.result.unwrap_err().contains("Port 1819 is in use by an external process")),
        other => panic!("unexpected command {:?}", other),
    }
}
