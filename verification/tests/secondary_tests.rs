use aether_desktop::models::singbox::{OutboundConfig, Transport};
use aether_desktop::routing::secondary::{
    parse_share_link, parse_subscription_payload, shadowsocks_from_parts, trojan_from_url,
    vless_from_url, vmess_from_members, JsonField, UrlParts,
};
use base64::Engine;

#[test]
fn parses_vless_reality_link() {
    let link = "vless://123e4567-e89b-12d3-a456-426614174000@example.com:443?encryption=none&security=reality&sni=cdn.example.com&fp=chrome&pbk=public-key&sid=abcd&type=grpc&serviceName=tunnel";
    let outbound = parse_share_link(link).unwrap();
    match outbound {
        OutboundConfig::Vless(v) => {
            assert_eq!(v.tag, "v2ray");
            let tls = v.tls.expect("tls");
            assert_eq!(tls.reality.expect("reality").public_key, "public-key");
            match v.transport {
                Some(Transport::Grpc { service_name }) => assert_eq!(service_name, "tunnel"),
                other => panic!("expected grpc transport, got {:?}", other),
            }
        }
        other => panic!("expected a vless outbound, got {:?}", other),
    }
}

#[test]
fn parses_vmess_websocket_link() {
    let payload = "{\"v\":\"2\",\"ps\":\"test\",\"add\":\"example.com\",\"port\":\"443\",\"id\":\"123e4567-e89b-12d3-a456-426614174000\",\"aid\":\"0\",\"scy\":\"auto\",\"net\":\"ws\",\"host\":\"cdn.example.com\",\"path\":\"/proxy\",\"tls\":\"tls\",\"sni\":\"cdn.example.com\"}";
    let encoded = base64::engine::general_purpose::STANDARD_NO_PAD.encode(payload);
    let outbound = parse_share_link(&format!("vmess://{encoded}")).unwrap();
    match outbound {
        OutboundConfig::Vmess(v) => {
            assert_eq!(v.server, "example.com");
            assert_eq!(v.server_port, 443);
            assert_eq!(v.security, "auto");
            assert_eq!(v.packet_encoding.as_deref(), Some("xudp"));
            match v.transport {
                Some(Transport::WebSocket { path, host_header }) => {
                    assert_eq!(path, "/proxy");
                    assert_eq!(host_header.as_deref(), Some("cdn.example.com"));
                }
                other => panic!("expected a websocket transport, got {:?}", other),
            }
        }
        other => panic!("expected a vmess outbound, got {:?}", other),
    }
}

#[test]
fn parses_base64_subscription_and_preserves_profile_names() {
    let links = "vless://123e4567-e89b-12d3-a456-426614174000@example.com:443?encryption=none&security=tls#London\n\
trojan://secret@example.net:443?security=tls#Amsterdam";
    let encoded = base64::engine::general_purpose::STANDARD_NO_PAD.encode(links);
    let parsed = parse_subscription_payload(&encoded).unwrap();

    assert_eq!(parsed.profiles.len(), 2);
    assert_eq!(parsed.skipped, 0);
    assert_eq!(parsed.profiles[0].name, "London");
    assert_eq!(parsed.profiles[1].name, "Amsterdam");
}

#[test]
fn subscription_skips_unsupported_profiles() {
    let payload = "hysteria2://secret@example.com:443#Unsupported\n\
vless://123e4567-e89b-12d3-a456-426614174000@example.com:443?encryption=none&security=tls#Supported";
    let parsed = parse_subscription_payload(payload).unwrap();

    assert_eq!(parsed.profiles.len(), 1);
    assert_eq!(parsed.skipped, 1);
    assert_eq!(parsed.profiles[0].name, "Supported");
}

#[test]
fn share_link_errors() {
    assert_eq!(
        parse_share_link("   ").unwrap_err(),
        "Paste a VLESS, VMess, Trojan, or Shadowsocks share link."
    );
    assert_eq!(
        parse_share_link("vless://a@b:1\nvless://c@d:2").unwrap_err(),
        "Paste one secondary proxy share link at a time."
    );
    assert_eq!(
        parse_share_link("http://example.com").unwrap_err(),
        "Unsupported config. Use a vless://, vmess://, trojan://, or ss:// share link."
    );
    assert_eq!(
        parse_share_link("vless://not-a-uuid@example.com:443").unwrap_err(),
        "VLESS link contains an invalid UUID."
    );
    assert_eq!(
        parse_share_link("vless://123e4567-e89b-12d3-a456-426614174000@example.com").unwrap_err(),
        "VLESS link is missing its server port."
    );
    assert_eq!(
        parse_share_link(
            "vless://123e4567-e89b-12d3-a456-426614174000@example.com:443?encryption=aes"
        )
        .unwrap_err(),
        "Only VLESS encryption=none is supported by sing-box."
    );
    assert_eq!(
        parse_share_link(
            "vless://123e4567-e89b-12d3-a456-426614174000@example.com:443?security=reality"
        )
        .unwrap_err(),
        "Reality config is missing its public key (pbk)."
    );
    assert_eq!(
        parse_share_link("trojan://@example.com:443").unwrap_err(),
        "Trojan link is missing its password."
    );
    assert_eq!(
        parse_share_link("trojan://pw@example.com:443?security=xtls").unwrap_err(),
        "Unsupported TLS security mode 'xtls'."
    );
    assert_eq!(
        parse_share_link("trojan://pw@example.com:443?type=kcp").unwrap_err(),
        "Transport 'kcp' is not supported. Use TCP, WebSocket, HTTP, HTTPUpgrade, or gRPC."
    );
    assert_eq!(
        parse_share_link("trojan://pw@example.com:443?headerType=http").unwrap_err(),
        "TCP header type 'http' is not supported by sing-box share-link import."
    );
    assert_eq!(
        parse_share_link("vmess://!!!").unwrap_err(),
        "VMess link does not contain valid base64 JSON."
    );
}

#[test]
fn parses_shadowsocks_links() {
    let creds = base64::engine::general_purpose::STANDARD_NO_PAD.encode("aes-128-gcm:pass");
    let link = format!("ss://{creds}@example.org:8388?plugin=obfs-local;obfs=http#Home");
    match parse_share_link(&link).unwrap() {
        OutboundConfig::Shadowsocks(s) => {
            assert_eq!(s.tag, "v2ray");
            assert_eq!(s.server, "example.org");
            assert_eq!(s.server_port, 8388);
            assert_eq!(s.method, "aes-128-gcm");
            assert_eq!(s.password, "pass");
            assert_eq!(s.plugin.as_deref(), Some("obfs-local"));
            assert_eq!(s.plugin_opts.as_deref(), Some("obfs=http"));
        }
        other => panic!("expected a shadowsocks outbound, got {:?}", other),
    }
    let legacy = base64::engine::general_purpose::STANDARD
        .encode("chacha20-ietf-poly1305:secret@10.0.0.1:443");
    match parse_share_link(&format!("ss://{legacy}")).unwrap() {
        OutboundConfig::Shadowsocks(s) => {
            assert_eq!(s.method, "chacha20-ietf-poly1305");
            assert_eq!(s.password, "secret");
            assert_eq!(s.server, "10.0.0.1");
            assert_eq!(s.server_port, 443);
            assert_eq!(s.plugin, None);
        }
        other => panic!("expected a shadowsocks outbound, got {:?}", other),
    }
    assert_eq!(
        parse_share_link("ss://YWJj").unwrap_err(),
        "Shadowsocks link is missing its server address."
    );
}

#[test]
fn tls_settings_of_a_trojan_link() {
    let link = "trojan://pw@example.com:443?sni=&servername=alt.example.com&alpn=h2,%20h3,,http/1.1&allowInsecure=TRUE&fp=firefox";
    match parse_share_link(link).unwrap() {
        OutboundConfig::Trojan(t) => {
            let tls = t.tls.expect("tls");
            assert!(tls.enabled);
            assert_eq!(tls.server_name.as_deref(), Some("example.com"));
            assert!(tls.insecure);
            assert_eq!(tls.alpn, vec!["h2".to_string(), "h3".to_string(), "http/1.1".to_string()]);
            assert_eq!(tls.utls.expect("utls").fingerprint, "firefox");
            assert!(tls.reality.is_none());
        }
        other => panic!("expected a trojan outbound, got {:?}", other),
    }
}

#[test]
fn subscription_deduplicates_and_names_endpoints() {
    let payload = "# comment\n\
- vless://123e4567-e89b-12d3-a456-426614174000@example.com:443?security=tls\n\
vless://123e4567-e89b-12d3-a456-426614174000@example.com:443?security=tls\n\
\n\
not a link";
    let parsed = parse_subscription_payload(payload).unwrap();
    assert_eq!(parsed.profiles.len(), 1);
    assert_eq!(parsed.skipped, 0);
    assert_eq!(parsed.profiles[0].name, "VLESS \u{b7} example.com:443");
}

#[test]
fn subscription_errors() {
    assert_eq!(
        parse_subscription_payload("  \u{feff} ").unwrap_err(),
        "Subscription returned an empty response."
    );
    assert_eq!(
        parse_subscription_payload("!!!not base64!!!").unwrap_err(),
        "Subscription is neither a share-link list nor valid base64."
    );
    assert_eq!(
        parse_subscription_payload("hysteria2://x@y:1").unwrap_err(),
        "Unsupported config. Use a vless://, vmess://, trojan://, or ss:// share link."
    );
    assert_eq!(
        parse_subscription_payload("just://text").unwrap_err(),
        "Unsupported config. Use a vless://, vmess://, trojan://, or ss:// share link."
    );
}

#[test]
fn subscription_refuses_more_than_two_hundred_profiles() {
    let mut payload = String::new();
    for i in 0..201 {
        payload.push_str(&format!("trojan://pw{i}@example.com:443\n"));
    }
    assert_eq!(
        parse_subscription_payload(&payload).unwrap_err(),
        "Subscription contains 201 supported profiles; maximum is 200."
    );
}

fn url(username: &str, host: &str, port: u16, query: &[(&str, &str)]) -> UrlParts {
    UrlParts {
        scheme: "vless".to_string(),
        serialization: String::new(),
        username: username.to_string(),
        host: Some(host.to_string()),
        port: Some(port),
        query: query.iter().map(|(k, v)| (k.to_string(), v.to_string())).collect(),
        fragment: None,
    }
}

#[test]
fn parsed_vless_url_imports_its_reality_settings() {
    let u = url(
        "123e4567-e89b-12d3-a456-426614174000",
        "example.com",
        443,
        &[
            ("encryption", "none"),
            ("security", "reality"),
            ("sni", "cdn.example.com"),
            ("fp", "chrome"),
            ("pbk", "public-key"),
            ("sid", "abcd"),
            ("type", "grpc"),
            ("serviceName", "tunnel"),
        ],
    );
    match vless_from_url(&u).unwrap() {
        OutboundConfig::Vless(v) => {
            assert_eq!(v.server, "example.com");
            assert_eq!(v.server_port, 443);
            assert_eq!(v.uuid, "123e4567-e89b-12d3-a456-426614174000");
            assert_eq!(v.tls.expect("tls").reality.expect("reality").public_key, "public-key");
            assert!(matches!(v.transport, Some(Transport::Grpc { .. })));
        }
        other => panic!("expected a vless outbound, got {:?}", other),
    }
    let bad = url("not-a-uuid", "example.com", 443, &[]);
    assert_eq!(vless_from_url(&bad).unwrap_err(), "VLESS link contains an invalid UUID.");
}

#[test]
fn parsed_trojan_url_needs_a_password() {
    let u = url("", "example.com", 443, &[]);
    assert_eq!(trojan_from_url(&u).unwrap_err(), "Trojan link is missing its password.");
}

#[test]
fn shadowsocks_link_reads_its_credentials() {
    let link = "ss://YWVzLTI1Ni1nY206c2VjcmV0@1.2.3.4:8388#name";
    match shadowsocks_from_parts(link, &Vec::new()).unwrap() {
        OutboundConfig::Shadowsocks(s) => {
            assert_eq!(s.server, "1.2.3.4");
            assert_eq!(s.server_port, 8388);
            assert_eq!(s.method, "aes-256-gcm");
            assert_eq!(s.password, "secret");
        }
        other => panic!("expected a shadowsocks outbound, got {:?}", other),
    }
}

#[test]
fn vmess_members_import_as_an_outbound() {
    let members = vec![
        ("add".to_string(), JsonField::Text("example.com".to_string())),
        ("aid".to_string(), JsonField::Number(Some(0))),
        ("id".to_string(), JsonField::Text("123e4567-e89b-12d3-a456-426614174000".to_string())),
        ("port".to_string(), JsonField::Number(Some(443))),
    ];
    match vmess_from_members(&members).unwrap() {
        OutboundConfig::Vmess(v) => {
            assert_eq!(v.server, "example.com");
            assert_eq!(v.server_port, 443);
            assert_eq!(v.alter_id, 0);
        }
        other => panic!("expected a vmess outbound, got {:?}", other),
    }
    let missing = vec![("id".to_string(), JsonField::Text("x".to_string()))];
    assert_eq!(vmess_from_members(&missing).unwrap_err(), "Invalid VMess JSON: missing field `add`");
}
