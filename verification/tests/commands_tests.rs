use aether_desktop::commands::secondary_test::{
    readiness_step, secondary_test_config, ChildStatus, ReadinessStep, TestEngine,
};
use aether_desktop::commands::{
    append_subscription_chunk, build_xray_test_config, check_subscription_response,
    check_subscription_url, logs_with_crlf, ping_all_precheck, profile_ping,
    sort_pings_by_index, subscription_request_error, subscription_update_from_body,
    SecondaryProfilePing, MAX_SUBSCRIPTION_BYTES,
};
use aether_desktop::models::health::CloudflareTrace;
use aether_desktop::models::singbox::OutboundConfig;

fn ping(index: usize) -> SecondaryProfilePing {
    profile_ping(index, Err(format!("e{}", index)))
}

#[test]
fn subscription_urls_must_be_http() {
    assert_eq!(
        check_subscription_url("  https://Example.com/sub?token=1  ").unwrap(),
        "https://example.com/sub?token=1"
    );
    assert_eq!(
        check_subscription_url("ftp://example.com/sub").unwrap_err(),
        "Subscription URL must use HTTP or HTTPS."
    );
    assert_eq!(
        check_subscription_url("not a url").unwrap_err(),
        "Enter a valid HTTP or HTTPS subscription URL."
    );
}

#[test]
fn subscription_response_checks() {
    assert!(check_subscription_response(200, Some(100)).is_ok());
    assert!(check_subscription_response(204, None).is_ok());
    assert_eq!(
        check_subscription_response(404, None).unwrap_err(),
        "Subscription server returned HTTP 404."
    );
    assert_eq!(
        check_subscription_response(200, Some(4 * 1024 * 1024 + 1)).unwrap_err(),
        "Subscription response exceeds the 4 MiB limit."
    );
    assert!(check_subscription_response(200, Some(4 * 1024 * 1024)).is_ok());
    assert_eq!(subscription_request_error(true), "Subscription request timed out.");
    assert_eq!(subscription_request_error(false), "Subscription request failed.");
}

#[test]
fn subscription_body_is_capped_at_four_mebibytes() {
    let mut body = vec![0u8; MAX_SUBSCRIPTION_BYTES - 2];
    assert!(append_subscription_chunk(&mut body, &[1, 2]).is_ok());
    assert_eq!(body.len(), MAX_SUBSCRIPTION_BYTES);
    assert_eq!(body[MAX_SUBSCRIPTION_BYTES - 1], 2);
    assert_eq!(
        append_subscription_chunk(&mut body, &[3]).unwrap_err(),
        "Subscription response exceeds the 4 MiB limit."
    );
    assert_eq!(body.len(), MAX_SUBSCRIPTION_BYTES);
}

#[test]
fn subscription_body_must_be_utf8() {
    assert_eq!(
        subscription_update_from_body(vec![0xff, 0xfe]).unwrap_err(),
        "Subscription response is not valid UTF-8 text."
    );
    let body = b"trojan://secret@example.net:443?security=tls#Paris\nhttp://nope\n".to_vec();
    let update = subscription_update_from_body(body).unwrap();
    assert_eq!(update.profiles.len(), 1);
    assert_eq!(update.profiles[0].name, "Paris");
    assert_eq!(update.skipped, 1);
}

#[test]
fn ping_all_bounds_and_results() {
    assert_eq!(
        ping_all_precheck(0).unwrap_err(),
        "Update the subscription before running Ping All."
    );
    assert_eq!(ping_all_precheck(201).unwrap_err(), "Ping All supports at most 200 profiles.");
    assert!(ping_all_precheck(200).is_ok());

    let t = CloudflareTrace {
        ip: "1.2.3.4".to_string(),
        warp: "off".to_string(),
        colo: "LHR".to_string(),
        loc: "GB".to_string(),
        latency_ms: 77,
    };
    let ok = profile_ping(3, Ok(t));
    assert!(ok.ok);
    assert_eq!(ok.latency_ms, Some(77));
    assert_eq!(ok.colo.as_deref(), Some("LHR"));
    assert!(ok.error.is_none());
    let bad = ping(5);
    assert!(!bad.ok);
    assert_eq!(bad.error.as_deref(), Some("e5"));

    let sorted = sort_pings_by_index(vec![ping(4), ping(1), ping(3), ping(0)]);
    let order: Vec<usize> = sorted.iter().map(|p| p.index).collect();
    assert_eq!(order, vec![0, 1, 3, 4]);
}

#[test]
fn exported_logs_use_windows_line_endings() {
    assert_eq!(logs_with_crlf("a\nb\n"), "a\r\nb\r\n");
    assert_eq!(logs_with_crlf("a\r\nb\n"), "a\r\nb\n");
}

#[test]
fn xray_test_config_of_a_reality_link() {
    let link = "vless://123e4567-e89b-12d3-a456-426614174000@example.com:8443?security=reality&sni=cdn.example.com&pbk=KEY&sid=ab&type=ws&path=%2Fws&host=h.example.com&flow=xtls-rprx-vision";
    let c = build_xray_test_config(link, 20808).unwrap();
    assert_eq!(c.local_port, 20808);
    assert_eq!(c.address, "example.com");
    assert_eq!(c.port, 8443);
    assert_eq!(c.id, "123e4567-e89b-12d3-a456-426614174000");
    assert_eq!(c.flow.as_deref(), Some("xtls-rprx-vision"));
    assert_eq!(c.network, "ws");
    assert_eq!(c.security, "reality");
    let r = c.reality.unwrap();
    assert_eq!(r.server_name, "cdn.example.com");
    assert_eq!(r.public_key, "KEY");
    assert_eq!(r.fingerprint, "chrome");
    assert!(build_xray_test_config("trojan://x@y:1", 1).is_none());
    assert!(build_xray_test_config("vless://id@host:1?security=reality", 1).is_none());
}

#[test]
fn secondary_test_config_serves_the_profile_locally() {
    let c = secondary_test_config("trojan://secret@example.net:443?security=tls#X", 30123).unwrap();
    assert_eq!(c.listen_port, 30123);
    assert_eq!(c.listen, "127.0.0.1");
    assert_eq!(c.inbound_tag, "secondary-test");
    assert_eq!(c.final_outbound, "v2ray");
    assert_eq!(c.dns_server, "8.8.8.8");
    assert_eq!(c.dns_server_port, 53);
    match c.outbound {
        OutboundConfig::Trojan(t) => {
            assert_eq!(t.server, "example.net");
            assert_eq!(t.tag, "v2ray");
        }
        other => panic!("unexpected {:?}", other),
    }
    assert!(secondary_test_config("http://example.com", 1).is_err());
}

#[test]
fn readiness_wait_of_a_test_process() {
    assert!(matches!(
        readiness_step(TestEngine::SingBox, 0, ChildStatus::Running, true),
        ReadinessStep::Ready
    ));
    assert!(matches!(
        readiness_step(TestEngine::SingBox, 38, ChildStatus::Running, false),
        ReadinessStep::PollAgain
    ));
    match readiness_step(TestEngine::SingBox, 39, ChildStatus::Running, false) {
        ReadinessStep::GiveUp(m) => assert_eq!(
            m,
            "The built-in secondary proxy stopped before its local test port became ready."
        ),
        other => panic!("unexpected {:?}", other),
    }
    match readiness_step(TestEngine::Xray, 2, ChildStatus::Exited, true) {
        ReadinessStep::GiveUp(m) => assert_eq!(m, "Xray stopped before its local test port became ready."),
        other => panic!("unexpected {:?}", other),
    }
    match readiness_step(TestEngine::SingBox, 2, ChildStatus::InspectFailed("denied".to_string()), false) {
        ReadinessStep::GiveUp(m) => assert_eq!(m, "Unable to inspect the secondary test process: denied"),
        other => panic!("unexpected {:?}", other),
    }
}
