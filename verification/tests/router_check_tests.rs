use aether_desktop::health::probe::DetectedAdapterInfo;
use aether_desktop::process::router_check::{
    router_check_begin, router_check_step, RouterCheckCommand, RouterCheckContext,
    RouterCheckEvent, RouterCheckStage,
};

fn ctx() -> RouterCheckContext {
    RouterCheckContext {
        interface_name: "singbox_tun".to_string(),
        tun_address: Some("172.19.0.1/30".to_string()),
        max_duration_ms: 6000,
        stabilization_ms: 400,
        stabilization_interval_ms: 100,
    }
}

fn tun_adapter() -> DetectedAdapterInfo {
    DetectedAdapterInfo {
        friendly_name: "singbox_tun".to_string(),
        description: "sing-box Tunnel".to_string(),
        adapter_name: "{A}".to_string(),
        if_index: 12,
        is_up: true,
        ip_addresses: vec!["172.19.0.1".to_string()],
    }
}

/// A simulated world: a clock, a process that may die, and an adapter that appears after a
/// number of polls.
struct World {
    now: u64,
    alive_answers: Vec<bool>,
    tun_answers: Vec<bool>,
    egress: Result<(), String>,
}

impl World {
    fn answer(&mut self, cmd: &RouterCheckCommand) -> RouterCheckEvent {
        match cmd {
            RouterCheckCommand::CheckAlive => {
                let a = if self.alive_answers.is_empty() { true } else { self.alive_answers.remove(0) };
                RouterCheckEvent::Alive(a)
            }
            RouterCheckCommand::ReadClock => RouterCheckEvent::Clock(self.now),
            RouterCheckCommand::CheckTun => {
                let found = if self.tun_answers.is_empty() { true } else { self.tun_answers.remove(0) };
                RouterCheckEvent::Tun {
                    found,
                    matched: if found { Some(tun_adapter()) } else { None },
                    adapters: vec![tun_adapter()],
                }
            }
            RouterCheckCommand::Sleep(ms) => {
                self.now += ms;
                RouterCheckEvent::Slept
            }
            RouterCheckCommand::RunEgress { .. } => RouterCheckEvent::Egress(self.egress.clone()),
            RouterCheckCommand::Finish { .. } => panic!("already finished"),
        }
    }
}

fn run(world: &mut World) -> (Option<String>, Result<String, String>) {
    let c = ctx();
    let (mut rec, mut stage, mut cmd) = router_check_begin(&c, world.now);
    for _ in 0..1000 {
        if let RouterCheckCommand::Finish { warning, result } = cmd {
            assert_eq!(stage, RouterCheckStage::Done);
            return (warning, result);
        }
        let ev = world.answer(&cmd);
        let (s, c2) = router_check_step(&c, &mut rec, stage, ev);
        stage = s;
        cmd = c2;
    }
    panic!("router check did not finish");
}

#[test]
fn router_check_passes_after_stabilization_and_egress() {
    let mut w = World { now: 1000, alive_answers: vec![], tun_answers: vec![false, false, true], egress: Ok(()) };
    let (warning, result) = run(&mut w);
    assert!(warning.is_none());
    assert_eq!(
        result.unwrap(),
        "'singbox_tun' (Description: 'sing-box Tunnel', Index: 12, IP: [\"172.19.0.1\"])"
    );
    // two discovery pauses and four stabilization pauses
    assert_eq!(w.now, 1000 + 200 + 400);
}

#[test]
fn router_check_fails_when_the_process_is_gone_at_start() {
    let mut w = World { now: 0, alive_answers: vec![false], tun_answers: vec![], egress: Ok(()) };
    let (_, result) = run(&mut w);
    assert_eq!(result.unwrap_err(), "sing-box process exited before TUN discovery");
}

#[test]
fn router_check_reports_missing_adapter_with_the_listing() {
    let mut w = World { now: 0, alive_answers: vec![], tun_answers: vec![false; 100], egress: Ok(()) };
    let (warning, result) = run(&mut w);
    assert_eq!(
        result.unwrap_err(),
        "TUN network adapter 'singbox_tun' (IP: '172.19.0.1/30') not detected in network stack"
    );
    assert_eq!(
        warning.unwrap(),
        "TUN network adapter not detected. Expected: name='singbox_tun', IP='172.19.0.1/30'. Detected adapters in network stack:\n  - 'singbox_tun' (sing-box Tunnel) [Index: 12, Up: true, IPs: 172.19.0.1]"
    );
}

#[test]
fn adapter_flicker_restarts_discovery() {
    // found, then gone during stabilization, then found again for good
    let mut w = World {
        now: 0,
        alive_answers: vec![],
        tun_answers: vec![true, false, true],
        egress: Ok(()),
    };
    let (_, result) = run(&mut w);
    assert!(result.is_ok());
}

#[test]
fn death_during_stabilization_is_confirmed_before_failing() {
    // initial, loop, found, stabilization alive=false, confirmation alive=false
    let mut w = World {
        now: 0,
        alive_answers: vec![true, true, true, false, false],
        tun_answers: vec![],
        egress: Ok(()),
    };
    let (_, result) = run(&mut w);
    assert_eq!(result.unwrap_err(), "sing-box process exited during TUN stabilization window");
}

#[test]
fn egress_failure_is_the_result() {
    let mut w = World {
        now: 0,
        alive_answers: vec![],
        tun_answers: vec![],
        egress: Err("Stage 2 DNS Failure".to_string()),
    };
    let (_, result) = run(&mut w);
    assert_eq!(result.unwrap_err(), "Stage 2 DNS Failure");
}

#[test]
fn death_after_egress_fails_the_check() {
    // initial, loop, found, 4 stabilization checks, pre-egress, post-egress=false
    let mut answers = vec![true; 8];
    answers.push(false);
    let mut w = World { now: 0, alive_answers: answers, tun_answers: vec![], egress: Ok(()) };
    let (_, result) = run(&mut w);
    assert_eq!(result.unwrap_err(), "sing-box process exited during routing verification");
}
