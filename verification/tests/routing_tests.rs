use aether_desktop::models::app_rule::{ApplicationRule, RouteDestination, RulePriority, RuleSource};
use aether_desktop::models::settings::{
    AppSettings, CompatibilityRule, CompatibilityScope, NetworkProtocol,
};
use aether_desktop::routing::generator::{IpAddress, SingBoxConfigGenerator};
use aether_desktop::routing::presets::{
    generals_stun_turn_port_list, get_default_rules, loop_prevention_process_names,
};

fn rule(name: &str, process: &str, dest: RouteDestination, priority: RulePriority) -> ApplicationRule {
    ApplicationRule::new(name, process, dest, None, RuleSource::User, priority, None)
}

fn settings_with(rules: Vec<ApplicationRule>) -> AppSettings {
    let mut s = AppSettings::default();
    s.application_rules = rules;
    s
}

fn route(s: &AppSettings, process: Option<&str>, port: Option<u16>, private: bool) -> String {
    let c = SingBoxConfigGenerator::generate(s);
    SingBoxConfigGenerator::resolve_route(&c, process, port, private).to_string()
}

fn route_net(s: &AppSettings, process: Option<&str>, port: Option<u16>, net: &str) -> String {
    let c = SingBoxConfigGenerator::generate(s);
    SingBoxConfigGenerator::resolve_route_with_network(&c, process, port, Some(net), false).to_string()
}

fn dota_sdr(dest: RouteDestination, enabled: bool) -> CompatibilityRule {
    CompatibilityRule {
        id: "dota2-valve-sdr".to_string(),
        name: "Dota 2 Valve SDR".to_string(),
        description: "Valve SDR relays".to_string(),
        enabled,
        process_names: Some(vec!["dota2.exe".to_string()]),
        ports: None,
        port_ranges: Some(vec!["27000:27250".to_string()]),
        network: Some(NetworkProtocol::Udp),
        destination: dest,
        scope: CompatibilityScope::AppScoped,
    }
}

#[test]
fn scenario_high_priority_rule_precedes_the_stun_turn_fallback() {
    let s = settings_with(vec![rule("Discord", "Discord.exe", RouteDestination::Aether, RulePriority::High)]);
    assert_eq!(route(&s, Some("Discord.exe"), Some(3478), false), "aether");
    assert_eq!(route(&s, Some("discord.exe"), Some(5349), false), "aether");
}

#[test]
fn scenario_normal_rule_yields_to_the_stun_turn_fallback() {
    let s = settings_with(vec![rule("Spotify", "Spotify.exe", RouteDestination::SecondaryProxy, RulePriority::Normal)]);
    assert_eq!(route(&s, Some("Spotify.exe"), Some(443), false), "v2ray");
    assert_eq!(route(&s, Some("Spotify.exe"), Some(3478), false), "direct");
    let high = settings_with(vec![rule("Spotify", "Spotify.exe", RouteDestination::SecondaryProxy, RulePriority::High)]);
    assert_eq!(route(&high, Some("Spotify.exe"), Some(3478), false), "v2ray");
}

#[test]
fn scenario_unassigned_traffic() {
    let s = settings_with(vec![]);
    assert_eq!(route(&s, Some("generals.exe"), Some(3478), false), "direct");
    assert_eq!(route(&s, Some("generals.exe"), Some(5349), false), "direct");
    assert_eq!(route(&s, Some("random.exe"), Some(443), false), "aether");
    assert_eq!(route(&s, None, Some(80), false), "aether");
}

#[test]
fn scenario_private_lan_goes_direct() {
    let s = settings_with(vec![]);
    assert_eq!(route(&s, Some("random.exe"), Some(445), true), "direct");
    let mut off = settings_with(vec![]);
    off.compatibility.private_ip_bypass = false;
    assert_eq!(route(&off, Some("random.exe"), Some(445), true), "aether");
}

#[test]
fn scenario_proxy_binaries_never_loop() {
    let s = settings_with(vec![rule("Xray", "xray.exe", RouteDestination::SecondaryProxy, RulePriority::High)]);
    for p in ["aether.exe", "xray.exe", "v2ray.exe", "v2rayN.exe", "V2RAY.EXE"] {
        assert_eq!(route(&s, Some(p), Some(443), false), "direct", "{}", p);
    }
}

#[test]
fn scenario_dns_is_hijacked_before_private_lan() {
    let s = settings_with(vec![]);
    assert_eq!(route(&s, Some("random.exe"), Some(53), true), "dns-hijack");
}

#[test]
fn scenario_dota_valve_sdr_compatibility() {
    let mut s = settings_with(vec![rule("Dota 2", "dota2.exe", RouteDestination::Aether, RulePriority::Normal)]);
    s.compatibility.custom_compatibility_rules = vec![dota_sdr(RouteDestination::SecondaryProxy, true)];
    assert_eq!(route_net(&s, Some("dota2.exe"), Some(27015), "udp"), "v2ray");
    assert_eq!(route_net(&s, Some("dota2.exe"), Some(27015), "tcp"), "aether");
    assert_eq!(route_net(&s, Some("dota2.exe"), Some(27500), "udp"), "aether");
    assert_eq!(route_net(&s, Some("other.exe"), Some(27015), "udp"), "aether");

    s.compatibility.custom_compatibility_rules = vec![dota_sdr(RouteDestination::SecondaryProxy, false)];
    assert_eq!(route_net(&s, Some("dota2.exe"), Some(27015), "udp"), "aether");

    s.compatibility.custom_compatibility_rules = vec![dota_sdr(RouteDestination::Direct, true)];
    assert_eq!(route_net(&s, Some("dota2.exe"), Some(27100), "udp"), "direct");
}

#[test]
fn scenario_steam_companions_follow_steam() {
    let s = settings_with(vec![rule("Steam", "steam.exe", RouteDestination::SecondaryProxy, RulePriority::Normal)]);
    assert_eq!(route(&s, Some("steam.exe"), Some(443), false), "v2ray");
    assert_eq!(route(&s, Some("steamwebhelper.exe"), Some(443), false), "v2ray");
    assert_eq!(route(&s, Some("steamservice.exe"), Some(443), false), "v2ray");
    let none = settings_with(vec![]);
    assert_eq!(route(&none, Some("steamwebhelper.exe"), Some(443), false), "aether");
}

#[test]
fn disabled_rules_are_ignored() {
    let mut r = rule("Chrome", "chrome.exe", RouteDestination::Direct, RulePriority::Normal);
    r.enabled = false;
    let s = settings_with(vec![r]);
    assert_eq!(route(&s, Some("chrome.exe"), Some(443), false), "aether");
}

#[test]
fn default_presets_route_as_seeded() {
    let s = settings_with(get_default_rules());
    assert_eq!(route(&s, Some("dota2.exe"), Some(443), false), "direct");
    assert_eq!(route(&s, Some("chrome.exe"), Some(443), false), "v2ray");
    assert_eq!(route(&s, Some("Discord.exe"), Some(3478), false), "v2ray");
    assert_eq!(get_default_rules().len(), 10);
    assert!(get_default_rules().iter().all(|r| r.source == RuleSource::Preset && r.enabled));
}

#[test]
fn preset_lists() {
    assert_eq!(generals_stun_turn_port_list(), vec![3478, 5349]);
    let names = loop_prevention_process_names();
    assert!(names.contains(&"aether.exe".to_string()));
    assert!(names.contains(&"v2rayN.exe".to_string()));
}

#[test]
fn generated_config_uses_the_settings() {
    let s = settings_with(vec![]);
    let c = SingBoxConfigGenerator::generate(&s);
    assert_eq!(c.route.final_outbound, "aether");
    assert_eq!(SingBoxConfigGenerator::outbound_tag_for_destination(&RouteDestination::SecondaryProxy), "v2ray");
    assert_eq!(SingBoxConfigGenerator::outbound_tag_for_destination(&RouteDestination::Direct), "direct");
}

#[test]
fn rule_process_names_are_normalized() {
    let r = rule("X", "game", RouteDestination::Direct, RulePriority::Normal);
    assert_eq!(r.process_name, "game.exe");
    assert!(r.matches_process("GAME.exe"));
    let keep = rule("Y", "Tool.EXE", RouteDestination::Direct, RulePriority::Normal);
    assert_eq!(keep.process_name, "Tool.EXE");
}

#[test]
fn private_loopback_and_link_local_addresses_are_private() {
    let v4 = |a, b, c, d| SingBoxConfigGenerator::is_private_ip(&IpAddress::V4(a, b, c, d));
    assert!(v4(10, 1, 2, 3));
    assert!(v4(172, 16, 0, 1));
    assert!(v4(172, 31, 255, 255));
    assert!(!v4(172, 32, 0, 1));
    assert!(v4(192, 168, 1, 1));
    assert!(!v4(192, 169, 1, 1));
    assert!(v4(127, 0, 0, 1));
    assert!(v4(169, 254, 10, 10));
    assert!(!v4(8, 8, 8, 8));
    let v6 = |s: [u16; 8]| SingBoxConfigGenerator::is_private_ip(&IpAddress::V6(s));
    assert!(v6([0, 0, 0, 0, 0, 0, 0, 1]));
    assert!(v6([0xfe80, 0, 0, 0, 0, 0, 0, 1]));
    assert!(v6([0xfebf, 0, 0, 0, 0, 0, 0, 1]));
    assert!(!v6([0xfec0, 0, 0, 0, 0, 0, 0, 1]));
    assert!(!v6([0x2001, 0xdb8, 0, 0, 0, 0, 0, 1]));
    assert!(!v6([0, 0, 0, 0, 0, 0, 0, 0]));
}

#[test]
fn route_to_an_address_uses_its_privacy() {
    let s = AppSettings::default();
    let c = SingBoxConfigGenerator::generate(&s);
    let lan = Some(IpAddress::V4(192, 168, 0, 10));
    let wan = Some(IpAddress::V4(1, 1, 1, 1));
    assert_eq!(SingBoxConfigGenerator::resolve_route_with_ip(&c, Some("random.exe"), Some(445), lan), "direct");
    assert_eq!(SingBoxConfigGenerator::resolve_route_with_ip(&c, Some("random.exe"), Some(445), wan), "aether");
    assert_eq!(SingBoxConfigGenerator::resolve_route_with_ip(&c, Some("random.exe"), Some(445), None), "aether");
}

#[test]
fn normal_application_rules_come_before_the_private_bypass() {
    let s = settings_with(vec![
        rule("Chrome", "chrome.exe", RouteDestination::SecondaryProxy, RulePriority::Normal),
        rule("Dota", "dota2.exe", RouteDestination::Direct, RulePriority::Normal),
        rule("Tool", "tool.exe", RouteDestination::Aether, RulePriority::Normal),
    ]);
    assert_eq!(route(&s, Some("chrome.exe"), Some(443), true), "v2ray");
    assert_eq!(route(&s, Some("chrome.exe"), Some(443), false), "v2ray");
    assert_eq!(route(&s, Some("dota2.exe"), Some(27015), true), "direct");
    assert_eq!(route(&s, Some("tool.exe"), Some(8080), true), "aether");
    assert_eq!(route(&s, Some("chrome.exe"), Some(3478), false), "direct");
}
