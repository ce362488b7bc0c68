use aether_desktop::health::probe::{
    assemble_health, direct_trace_endpoints, dns_candidate_domains, dns_lookup_result,
    egress_begin, egress_step, endpoint_trace_result, find_tun_adapter,
    latency_profile_from_attempts, socks_proxy_url, socks_trace_endpoints, sweep_result,
    tun_network_present,
    DetectedAdapterInfo, DnsLookup, EgressCommand, EgressEvent, EgressStage, EndpointResponse,
    HealthObservations, HealthProber, RequestErrorFacts, TeardownObservation, TeardownPoll,
    TraceProbeKind,
};
use aether_desktop::models::health::{CloudflareTrace, LatencyProfile};

fn trace(ip: &str, colo: &str, latency: u64) -> CloudflareTrace {
    CloudflareTrace {
        ip: ip.to_string(),
        warp: "off".to_string(),
        colo: colo.to_string(),
        loc: "DE".to_string(),
        latency_ms: latency,
    }
}

fn facts(timeout: bool, connect: bool, chain: &[&str], display: &str) -> RequestErrorFacts {
    RequestErrorFacts {
        is_connect: connect,
        is_timeout: timeout,
        is_request: false,
        is_builder: false,
        status: None,
        chain: chain.iter().map(|s| s.to_string()).collect(),
        display: display.to_string(),
    }
}

fn adapter(name: &str, desc: &str, up: bool, ips: &[&str]) -> DetectedAdapterInfo {
    DetectedAdapterInfo {
        friendly_name: name.to_string(),
        description: desc.to_string(),
        adapter_name: "{GUID}".to_string(),
        if_index: 7,
        is_up: up,
        ip_addresses: ips.iter().map(|s| s.to_string()).collect(),
    }
}

#[test]
fn trace_body_keeps_the_last_value_of_each_key() {
    let body = "fl=1\nip=162.159.1.2\nwarp=on\ncolo=FRA\nloc=DE\nip = 104.28.0.9 \n";
    let t = HealthProber::parse_trace_body(body, 33).unwrap();
    assert_eq!(t.ip, "104.28.0.9");
    assert_eq!(t.warp, "on");
    assert_eq!(t.colo, "FRA");
    assert_eq!(t.loc, "DE");
    assert_eq!(t.latency_ms, 33);
}

#[test]
fn trace_body_without_address_is_refused() {
    let r = HealthProber::parse_trace_body("colo=AMS\r\nwarp=off\r\n", 10);
    assert_eq!(
        r.unwrap_err(),
        "Invalid Cloudflare trace response: missing IP address"
    );
}

#[test]
fn request_errors_are_classified_by_flags_and_chain() {
    assert_eq!(
        HealthProber::classify_reqwest_error(&facts(true, false, &[], "x")),
        "Timeout"
    );
    assert_eq!(
        HealthProber::classify_reqwest_error(&facts(false, false, &["operation timed out"], "x")),
        "Timeout"
    );
    assert_eq!(
        HealthProber::classify_reqwest_error(&facts(false, true, &["invalid peer certificate: UnknownIssuer"], "x")),
        "TLS Handshake / Certificate Error"
    );
    assert_eq!(
        HealthProber::classify_reqwest_error(&facts(false, false, &["http2 error: stream reset"], "x")),
        "HTTP2 Protocol Error"
    );
    assert_eq!(
        HealthProber::classify_reqwest_error(&facts(false, false, &["gzip: corrupt input"], "x")),
        "Decompression Error"
    );
    assert_eq!(
        HealthProber::classify_reqwest_error(&facts(false, false, &["socks connect failed"], "x")),
        "SOCKS Connect / Transport Error"
    );
    assert_eq!(
        HealthProber::classify_reqwest_error(&facts(false, true, &["refused"], "x")),
        "SOCKS Connect / Transport Error"
    );
    assert_eq!(
        HealthProber::classify_reqwest_error(&facts(false, false, &["broken pipe"], "x")),
        "Network / Transport Error"
    );
}

#[test]
fn request_error_report_lists_flags_and_chain() {
    let mut e = facts(true, true, &["a", "b"], "error sending request");
    e.status = Some("502 Bad Gateway".to_string());
    assert_eq!(
        HealthProber::format_reqwest_error("Request failed", &e),
        "Request failed [is_connect: true, is_timeout: true, status: 502 Bad Gateway] (Source chain: a -> b): error sending request"
    );
    let plain = facts(false, false, &[], "boom");
    assert_eq!(HealthProber::format_reqwest_error("P", &plain), "P: boom");
}

#[test]
fn endpoint_answers_become_traces_or_reports() {
    let kind = TraceProbeKind::Socks { proxy_url: "socks5h://127.0.0.1:1819".to_string() };
    let ok = endpoint_trace_result(
        &kind,
        "https://1.1.1.1/cdn-cgi/trace",
        EndpointResponse::Body { body: "ip=1.2.3.4\ncolo=WAW\n".to_string(), latency_ms: 90 },
    )
    .unwrap();
    assert_eq!(ok.ip, "1.2.3.4");
    assert_eq!(ok.colo, "WAW");
    assert_eq!(ok.latency_ms, 90);

    let status = endpoint_trace_result(
        &kind,
        "http://1.1.1.1/cdn-cgi/trace",
        EndpointResponse::StatusError("403 Forbidden".to_string()),
    );
    assert_eq!(
        status.unwrap_err(),
        "Endpoint 'http://1.1.1.1/cdn-cgi/trace' returned HTTP error status 403 Forbidden"
    );

    let parse = endpoint_trace_result(
        &kind,
        "e",
        EndpointResponse::Body { body: "hello\tworld".to_string(), latency_ms: 5 },
    );
    assert_eq!(
        parse.unwrap_err(),
        "Failed to parse trace response body from 'e': Invalid Cloudflare trace response: missing IP address (body_preview: 'hello\\tworld')"
    );

    let failed = endpoint_trace_result(
        &kind,
        "e",
        EndpointResponse::RequestFailed { error: facts(false, false, &[], "dns error"), elapsed: "6.01".to_string() },
    );
    assert_eq!(
        failed.unwrap_err(),
        "Request to 'e' via socks5h://127.0.0.1:1819 failed after 6.01s: dns error"
    );

    let direct = endpoint_trace_result(
        &TraceProbeKind::DirectHostname,
        "e",
        EndpointResponse::BodyError(facts(false, false, &[], "eof")),
    );
    assert_eq!(direct.unwrap_err(), "Failed to read response body from 'e': eof");
}

#[test]
fn long_bodies_are_previewed_by_their_first_120_bytes() {
    let body = "x".repeat(130);
    let r = endpoint_trace_result(
        &TraceProbeKind::DirectIpLiteral,
        "e",
        EndpointResponse::Body { body, latency_ms: 1 },
    );
    let expected = format!(
        "Failed to parse trace response body from 'e': Invalid Cloudflare trace response: missing IP address (body_preview: '{}...')",
        "x".repeat(120)
    );
    assert_eq!(r.unwrap_err(), expected);
}

#[test]
fn endpoint_lists_and_proxy_url() {
    assert_eq!(
        socks_trace_endpoints(),
        vec![
            "https://www.cloudflare.com/cdn-cgi/trace",
            "https://1.1.1.1/cdn-cgi/trace",
            "http://www.cloudflare.com/cdn-cgi/trace",
            "http://1.1.1.1/cdn-cgi/trace",
        ]
    );
    assert_eq!(direct_trace_endpoints()[1], "http://www.cloudflare.com/cdn-cgi/trace");
    assert_eq!(socks_proxy_url("127.0.0.1", 1819), "socks5h://127.0.0.1:1819");
}

#[test]
fn latency_profile_needs_four_successes() {
    let attempts = vec![
        Ok(trace("1.1.1.1", "FRA", 40)),
        Err("boom".to_string()),
        Ok(trace("1.1.1.1", "FRA", 50)),
        Ok(trace("1.1.1.1", "FRA", 30)),
        Ok(trace("1.1.1.1", "AMS", 60)),
    ];
    let p: LatencyProfile = latency_profile_from_attempts(attempts, 5).unwrap();
    assert_eq!(p.samples_ms, vec![40, 50, 30, 60]);
    assert_eq!(p.median_ms, 45);
    assert_eq!(p.min_ms, 30);
    assert_eq!(p.max_ms, 60);
    assert_eq!(p.jitter_mad_ms, 10);
    assert_eq!(p.successful_samples, 4);
    assert_eq!(p.total_samples, 5);
    assert_eq!(p.latest_trace.unwrap().colo, "AMS");

    let few = vec![Ok(trace("1.1.1.1", "FRA", 40)), Err("refused".to_string())];
    assert_eq!(
        latency_profile_from_attempts(few, 8).unwrap_err(),
        "Insufficient valid latency samples (1/8 succeeded, minimum 4 required): refused"
    );
}

#[test]
fn dns_candidates_and_lookups() {
    let d = dns_candidate_domains("example.org");
    assert_eq!(d[0], "example.org");
    assert_eq!(d[1], "www.cloudflare.com");
    assert_eq!(d[2], "cloudflare.com");
    let ok = dns_lookup_result(
        "a.b",
        DnsLookup::Resolved(vec!["1.1.1.1".to_string(), "1.1.1.1".to_string(), "1.0.0.1".to_string()]),
    )
    .unwrap();
    assert_eq!(ok, vec!["1.1.1.1".to_string(), "1.0.0.1".to_string()]);
    assert_eq!(
        dns_lookup_result("a.b", DnsLookup::Resolved(vec![])).unwrap_err(),
        "Resolver returned 0 addresses for 'a.b'"
    );
    assert_eq!(
        dns_lookup_result(
            "a.b",
            DnsLookup::Failed { elapsed: "0.40".to_string(), error: "no such host".to_string() }
        )
        .unwrap_err(),
        "Windows system DNS lookup failed for 'a.b' after 0.40s: no such host"
    );
}

#[test]
fn egress_passes_through_all_three_stages() {
    let (mut rec, stage, cmd) = egress_begin(Some("104.28.0.9".to_string()));
    assert!(matches!(cmd, EgressCommand::ProbeSystemEgress { pause_first: false }));
    let (stage, cmd) = egress_step(&mut rec, stage, EgressEvent::SystemEgress(Err("t/o".to_string())));
    assert!(matches!(cmd, EgressCommand::ProbeSystemEgress { pause_first: true }));
    let (stage, cmd) =
        egress_step(&mut rec, stage, EgressEvent::SystemEgress(Ok(trace("104.28.0.9", "FRA", 20))));
    assert!(matches!(cmd, EgressCommand::ResolveSystemDns { pause_first: false }));
    let (stage, cmd) = egress_step(
        &mut rec,
        stage,
        EgressEvent::SystemDns { result: Ok(vec!["1.1.1.1".to_string()]), elapsed: "0.10".to_string() },
    );
    assert!(matches!(cmd, EgressCommand::ProbeHostname { pause_first: false }));
    let (stage, cmd) =
        egress_step(&mut rec, stage, EgressEvent::HostnameTrace(Ok(trace("104.28.0.9", "FRA", 25))));
    assert_eq!(stage, EgressStage::Done);
    match cmd {
        EgressCommand::Finish(Ok(t)) => assert_eq!(t.latency_ms, 25),
        other => panic!("unexpected {:?}", other),
    }
}

#[test]
fn egress_mismatch_stops_at_stage_one() {
    let (mut rec, stage, _) = egress_begin(Some("104.28.0.9".to_string()));
    let (stage, cmd) =
        egress_step(&mut rec, stage, EgressEvent::SystemEgress(Ok(trace("81.2.3.4", "FRA", 20))));
    assert_eq!(stage, EgressStage::Done);
    match cmd {
        EgressCommand::Finish(Err(m)) => assert_eq!(
            m,
            "Stage 1 Egress Mismatch: System egress IP (81.2.3.4) does not match Aether SOCKS egress IP (104.28.0.9). Traffic is not traversing Aether outbound."
        ),
        other => panic!("unexpected {:?}", other),
    }
}

#[test]
fn egress_dns_gives_up_after_four_attempts() {
    let (mut rec, mut stage, _) = egress_begin(None);
    let (s, _) = egress_step(&mut rec, stage, EgressEvent::SystemEgress(Ok(trace("9.9.9.9", "X", 1))));
    stage = s;
    let mut last = None;
    for _ in 0..4 {
        let (s, c) = egress_step(
            &mut rec,
            stage,
            EgressEvent::SystemDns { result: Err("timeout".to_string()), elapsed: "1.20".to_string() },
        );
        stage = s;
        last = Some(c);
    }
    assert_eq!(stage, EgressStage::Done);
    match last.unwrap() {
        EgressCommand::Finish(Err(m)) => assert_eq!(
            m,
            "Stage 2 DNS Failure after 1.20s: Windows system DNS resolution failed under TUN strict_route: timeout"
        ),
        other => panic!("unexpected {:?}", other),
    }
}

#[test]
fn tun_adapter_is_found_by_name_address_or_wintun_description() {
    let adapters = vec![
        adapter("Ethernet", "Intel", true, &["192.168.1.4"]),
        adapter("Local Area Connection", "WireGuard Tunnel", true, &["172.19.0.1"]),
        adapter("singbox_tun0", "sing-box", true, &[]),
    ];
    assert_eq!(find_tun_adapter("singbox_tun", None, &adapters), Some(2));
    assert_eq!(find_tun_adapter("other", Some("172.19.0.1/30"), &adapters), Some(1));
    assert_eq!(find_tun_adapter("other", None, &adapters), None);
    let names = vec!["Wi-Fi".to_string(), "SingBox_Tun".to_string()];
    assert!(tun_network_present("singbox_tun", &names));
    assert!(!tun_network_present("aether_tun", &names));
}

#[test]
fn health_report_of_a_connected_session() {
    let obs = HealthObservations {
        aether_socks_open: true,
        aether_trace: Some(Ok(trace("104.28.0.9", "FRA", 48))),
        tun_exists: true,
        matched_adapter: Some(adapter("singbox_tun", "sing-box", true, &["172.19.0.1"])),
        secondary_open: false,
        secondary_trace: None,
        now_ms: 1700000000000,
    };
    let h = assemble_health(
        "127.0.0.1", 1819, "127.0.0.1", 1080, false, "singbox_tun", true, true, true, obs,
    );
    assert!(h.aether_process.ok);
    assert_eq!(h.aether_process.message, "Running (Managed)");
    assert_eq!(h.aether_socks.message, "Listening on 127.0.0.1:1819");
    assert_eq!(h.aether_tunnel.message, "Connected \u{b7} POP: FRA \u{b7} 48 ms");
    assert_eq!(h.aether_tunnel.latency_ms, Some(48));
    assert_eq!(h.tun_interface.message, "Adapter 'singbox_tun' active \u{b7} IP: 172.19.0.1");
    assert_eq!(h.secondary_proxy.message, "Disabled in settings");
    assert_eq!(h.routing.message, "TUN Routing Active");
    assert_eq!(h.internet.message, "Active");
    assert_eq!(h.last_checked_epoch_ms, 1700000000000);
    assert_eq!(h.cloudflare_trace.unwrap().colo, "FRA");
}

#[test]
fn health_report_of_a_broken_session() {
    let obs = HealthObservations {
        aether_socks_open: false,
        aether_trace: None,
        tun_exists: false,
        matched_adapter: None,
        secondary_open: false,
        secondary_trace: None,
        now_ms: 5,
    };
    let h = assemble_health(
        "127.0.0.1", 1819, "10.0.0.2", 1080, true, "singbox_tun", false, false, true, obs,
    );
    assert!(!h.aether_process.ok);
    assert_eq!(h.aether_socks.message, "Port 127.0.0.1:1819 closed or unreachable");
    assert_eq!(h.aether_tunnel.message, "Unavailable (SOCKS port closed)");
    assert_eq!(h.singbox_process.message, "Exited unexpectedly");
    assert_eq!(h.tun_interface.message, "Adapter 'singbox_tun' not found in network stack");
    assert_eq!(h.secondary_proxy.message, "10.0.0.2:1080 unreachable");
    assert_eq!(h.routing.message, "Degraded / Tunnel Interface Missing");
    assert_eq!(h.internet.message, "No verified internet route");
    assert!(h.cloudflare_trace.is_none());
}

/// Runs a teardown wait against a simulated clock, polling every `poll_ms`.
fn simulate_teardown(
    timeout_ms: u64,
    poll_ms: u64,
    mut present: impl FnMut() -> bool,
) -> Result<(), String> {
    let mut elapsed = 0u64;
    loop {
        match HealthProber::teardown_poll(timeout_ms, TeardownObservation::Clock { elapsed_ms: elapsed }) {
            TeardownPoll::TimedOut => {
                let secs = format!("{:.1}", timeout_ms as f32 / 1000.0);
                return Err(HealthProber::teardown_timeout_error(&secs));
            }
            TeardownPoll::CheckAdapter => {}
            other => panic!("unexpected {:?}", other),
        }
        match HealthProber::teardown_poll(timeout_ms, TeardownObservation::Adapter { present: present() }) {
            TeardownPoll::Released => return Ok(()),
            TeardownPoll::Sleep => elapsed += poll_ms,
            other => panic!("unexpected {:?}", other),
        }
    }
}

#[test]
fn test_e_tun_teardown_wait_succeeds_when_adapter_is_released() {
    let mut attempts = 0u32;
    let res = simulate_teardown(500, 20, || {
        let current = attempts;
        attempts += 1;
        current < 2
    });
    assert!(res.is_ok());
    assert!(attempts >= 2);
}

#[test]
fn test_f_tun_teardown_wait_times_out_when_adapter_remains() {
    let res = simulate_teardown(60, 15, || true);
    assert!(res.is_err());
    assert!(res.unwrap_err().contains("TUN teardown timed out"));
}

#[test]
fn named_teardown_timeout_message() {
    assert_eq!(
        HealthProber::interface_teardown_error("singbox_tun", "3.0"),
        "TUN interface 'singbox_tun' was not released by Windows within 3.0s"
    );
}

#[test]
fn tun_adapter_name_must_match_exactly() {
    let adapters = vec![adapter("aether-tun 2", "Ethernet adapter", true, &[])];
    assert_eq!(find_tun_adapter("aether-tun", None, &adapters), None);
    assert_eq!(find_tun_adapter("", None, &adapters), None);
    let exact = vec![adapter("Aether-TUN", "Ethernet adapter", true, &[])];
    assert_eq!(find_tun_adapter("aether-tun", None, &exact), Some(0));
}

#[test]
fn elevation_is_read_from_the_integrity_label() {
    let high = "Mandatory Label\\High Mandatory Level Label S-1-16-12288";
    let medium = "Mandatory Label\\Medium Mandatory Level Label S-1-16-8192";
    assert!(HealthProber::elevated_from_group_listing(high));
    assert!(HealthProber::elevated_from_group_listing("System S-1-16-16384"));
    assert!(!HealthProber::elevated_from_group_listing(medium));
}

#[test]
fn sweep_takes_the_first_trace_or_the_last_failure() {
    let trace = |ip: &str| CloudflareTrace {
        ip: ip.to_string(),
        warp: "off".to_string(),
        colo: "FRA".to_string(),
        loc: "DE".to_string(),
        latency_ms: 20,
    };
    let r = sweep_result(vec![Err("a".to_string()), Ok(trace("1.1.1.1")), Ok(trace("2.2.2.2"))]);
    assert_eq!(r.unwrap().ip, "1.1.1.1");
    let r = sweep_result(vec![Err("a".to_string()), Err("b".to_string())]);
    assert_eq!(r.unwrap_err(), "b");
    assert_eq!(sweep_result(vec![]).unwrap_err(), "");
}
