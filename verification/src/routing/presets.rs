//! Loop-prevention processes, compatibility ports and the seeded preset rules.
use vstd::prelude::*;
use crate::models::app_rule::{
    normalized_process_name, ApplicationRule, RouteDestination, RuleSource, RulePriority,
};

verus! {

/// Proxy binaries that must never be routed into the tunnel (forwarding loops).
pub open spec fn loop_prevention_processes() -> Seq<Seq<char>> {
    seq!["xray.exe"@, "v2ray.exe"@, "v2rayN.exe"@, "aether.exe"@]
}

/// The loop-prevention process names.
pub fn loop_prevention_process_names() -> (r: Vec<String>)
    ensures
        r.deep_view() == loop_prevention_processes(),
{
    let mut r: Vec<String> = Vec::new();
    r.push("xray.exe".to_string());
    r.push("v2ray.exe".to_string());
    r.push("v2rayN.exe".to_string());
    r.push("aether.exe".to_string());
    assert(r.deep_view() =~= loop_prevention_processes());
    r
}

/// STUN/TURN ports of the Generals Online compatibility fallback.
pub open spec fn generals_stun_turn_ports() -> Seq<u16> {
    seq![3478u16, 5349u16]
}

/// The STUN/TURN fallback ports.
pub fn generals_stun_turn_port_list() -> (r: Vec<u16>)
    ensures
        r@ == generals_stun_turn_ports(),
{
    let mut r: Vec<u16> = Vec::new();
    r.push(3478);
    r.push(5349);
    assert(r@ =~= generals_stun_turn_ports());
    r
}

/// The preset table: display name, process name, destination, priority.
pub open spec fn preset_table() -> Seq<(Seq<char>, Seq<char>, RouteDestination, RulePriority)> {
    seq![
        ("Dota 2"@, "dota2.exe"@, RouteDestination::Direct, RulePriority::Normal),
        ("Rust Client"@, "RustClient.exe"@, RouteDestination::Direct, RulePriority::Normal),
        ("Rust"@, "Rust.exe"@, RouteDestination::Direct, RulePriority::Normal),
        ("Discord"@, "Discord.exe"@, RouteDestination::SecondaryProxy, RulePriority::High),
        ("Google Chrome"@, "chrome.exe"@, RouteDestination::SecondaryProxy, RulePriority::Normal),
        ("Visual Studio Code"@, "Code.exe"@, RouteDestination::SecondaryProxy, RulePriority::Normal),
        ("Codex"@, "codex.exe"@, RouteDestination::SecondaryProxy, RulePriority::Normal),
        ("Antigravity App"@, "Antigravity.exe"@, RouteDestination::SecondaryProxy, RulePriority::Normal),
        ("Antigravity Backend (agy)"@, "agy.exe"@, RouteDestination::SecondaryProxy, RulePriority::Normal),
        ("Antigravity Language Server"@, "language_server.exe"@, RouteDestination::SecondaryProxy, RulePriority::Normal),
    ]
}

/// A rule is the enabled preset built from one row of the table, with a 36-character
/// identifier (whether identifiers differ is left to chance and not stated).
pub open spec fn is_preset_rule(
    r: ApplicationRule,
    row: (Seq<char>, Seq<char>, RouteDestination, RulePriority),
) -> bool {
    &&& r.display_name@ == row.0
    &&& r.process_name@ == normalized_process_name(row.1)
    &&& r.destination == row.2
    &&& r.priority == row.3
    &&& r.source == RuleSource::Preset
    &&& r.enabled
    &&& r.executable_path is None
    &&& r.icon_base64 is None
    &&& r.id@.len() == 36
}

/// The rules are exactly the preset table, in order.
pub open spec fn default_rules_spec(rules: Seq<ApplicationRule>) -> bool {
    rules.len() == preset_table().len() && forall|i: int|
        0 <= i < rules.len() ==> is_preset_rule(#[trigger] rules[i], preset_table()[i])
}

/// Preset rules seeded into the settings on first launch (user-editable records).
pub fn get_default_rules() -> (r: Vec<ApplicationRule>)
    ensures
        default_rules_spec(r@),
{
    let mut r: Vec<ApplicationRule> = Vec::new();
    r.push(ApplicationRule::preset("Dota 2", "dota2.exe", RouteDestination::Direct));
    r.push(ApplicationRule::preset("Rust Client", "RustClient.exe", RouteDestination::Direct));
    r.push(ApplicationRule::preset("Rust", "Rust.exe", RouteDestination::Direct));
    r.push(ApplicationRule::preset_high("Discord", "Discord.exe", RouteDestination::SecondaryProxy));
    r.push(ApplicationRule::preset("Google Chrome", "chrome.exe", RouteDestination::SecondaryProxy));
    r.push(ApplicationRule::preset("Visual Studio Code", "Code.exe", RouteDestination::SecondaryProxy));
    r.push(ApplicationRule::preset("Codex", "codex.exe", RouteDestination::SecondaryProxy));
    r.push(ApplicationRule::preset("Antigravity App", "Antigravity.exe", RouteDestination::SecondaryProxy));
    r.push(ApplicationRule::preset("Antigravity Backend (agy)", "agy.exe", RouteDestination::SecondaryProxy));
    r.push(ApplicationRule::preset("Antigravity Language Server", "language_server.exe", RouteDestination::SecondaryProxy));
    assert(default_rules_spec(r@));
    r
}

} // verus!
