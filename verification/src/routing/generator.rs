//! sing-box configuration generation with strict rule precedence, and top-down route
//! resolution over a generated configuration.
//!
//! Precedence of the generated route rules:
//! 0. DNS hijack (protocol `dns`, port 53)
//! 1. Loop prevention of the proxy binaries -> direct
//! 2. App-scoped compatibility rules
//! 3. High-priority application rules (direct, v2ray, aether)
//! 4. Global compatibility fallback rules, then the STUN/TURN fallback -> direct
//! 5. Normal-priority application rules (direct, v2ray, aether)
//! 6. Private networks -> direct
//! 7. Final outbound: aether
use vstd::prelude::*;
use crate::models::app_rule::{ApplicationRule, RouteDestination, RulePriority};
use crate::models::settings::{AppSettings, CompatibilityRule, CompatibilityScope, NetworkProtocol};
use crate::models::singbox::{
    rule_views, opt_ports, opt_text, opt_texts, DirectOutbound, DnsConfig, DnsServer, InboundConfig,
    LocalDnsServer, LogConfig, OutboundConfig, RouteConfig, RouteRule, RouteRuleView,
    SingBoxConfig, SocksOutbound, TcpDnsServer, TunInbound, UdpDnsServer,
};
use crate::routing::presets::{
    generals_stun_turn_port_list, generals_stun_turn_ports, loop_prevention_process_names,
    loop_prevention_processes,
};
use crate::text::{
    chars_of, eq_ignore_ascii_case, eq_ignore_case, find_char_from, parse_unsigned,
    parse_unsigned_exec, slice_chars, str_to_string, to_lowercase, trim, trim_str,
    unicode_lowercase,
};

verus! {

/// Generator of sing-box configurations.
pub struct SingBoxConfigGenerator;

/// An IP address by its numbers: four octets, or eight 16-bit segments.
#[derive(Debug, Clone, Copy)]
pub enum IpAddress {
    V4(u8, u8, u8, u8),
    V6([u16; 8]),
}

/// Private (10/8, 172.16/12, 192.168/16), loopback (127/8, `::1`) and link-local
/// (169.254/16, `fe80::/10`) addresses.
pub open spec fn private_address(ip: IpAddress) -> bool {
    match ip {
        IpAddress::V4(a, b, _, _) => {
            ||| a == 10
            ||| (a == 172 && 16 <= b <= 31)
            ||| (a == 192 && b == 168)
            ||| a == 127
            ||| (a == 169 && b == 254)
        },
        IpAddress::V6(s) => {
            ||| (forall|i: int| 0 <= i < 7 ==> s@[i] == 0) && s@[7] == 1
            ||| 0xfe80 <= s@[0] <= 0xfebf
        },
    }
}

// ---------------------------------------------------------------------------
// Spec of the generated rules
// ---------------------------------------------------------------------------

/// Outbound tag of a destination.
pub open spec fn outbound_tag(d: RouteDestination) -> Seq<char> {
    match d {
        RouteDestination::Direct => "direct"@,
        RouteDestination::SecondaryProxy => "v2ray"@,
        RouteDestination::Aether => "aether"@,
    }
}

/// Network selector of a compatibility rule (`Both` does not constrain).
pub open spec fn network_tag(n: Option<NetworkProtocol>) -> Option<Seq<char>> {
    match n {
        Some(NetworkProtocol::Tcp) => Some("tcp"@),
        Some(NetworkProtocol::Udp) => Some("udp"@),
        _ => None,
    }
}

/// A routing rule sending matched traffic to `outbound`.
pub open spec fn route_to(
    process_name: Option<Seq<Seq<char>>>,
    port: Option<Seq<u16>>,
    port_range: Option<Seq<Seq<char>>>,
    network: Option<Seq<char>>,
    outbound: Seq<char>,
) -> RouteRuleView {
    RouteRuleView {
        protocol: None,
        process_name,
        port,
        port_range,
        network,
        ip_is_private: None,
        action: Some("route"@),
        outbound: Some(outbound),
    }
}

/// The two DNS hijack rules.
pub open spec fn hijack_rules() -> Seq<RouteRuleView> {
    seq![
        RouteRuleView {
            protocol: Some(seq!["dns"@]),
            process_name: None,
            port: None,
            port_range: None,
            network: None,
            ip_is_private: None,
            action: Some("hijack-dns"@),
            outbound: None,
        },
        RouteRuleView {
            protocol: None,
            process_name: None,
            port: Some(seq![53u16]),
            port_range: None,
            network: None,
            ip_is_private: None,
            action: Some("hijack-dns"@),
            outbound: None,
        },
    ]
}

/// The loop-prevention rule.
pub open spec fn loop_rule() -> RouteRuleView {
    route_to(Some(loop_prevention_processes()), None, None, None, "direct"@)
}

/// The rule made from one compatibility rule.
pub open spec fn compat_rule_view(c: CompatibilityRule) -> RouteRuleView {
    route_to(
        opt_texts(c.process_names),
        opt_ports(c.ports),
        opt_texts(c.port_ranges),
        network_tag(c.network),
        outbound_tag(c.destination),
    )
}

/// An app-scoped compatibility rule takes effect: enabled, app-scoped, with processes.
pub open spec fn is_active_app_scoped(c: CompatibilityRule) -> bool {
    &&& c.enabled
    &&& c.scope == CompatibilityScope::AppScoped
    &&& c.process_names matches Some(p) && p@.len() > 0
}

/// A global compatibility rule takes effect: enabled and global.
pub open spec fn is_active_global(c: CompatibilityRule) -> bool {
    c.enabled && c.scope == CompatibilityScope::GlobalFallback
}

/// Rules of the app-scoped compatibility rules, in order.
pub open spec fn app_scoped_rules(cs: Seq<CompatibilityRule>) -> Seq<RouteRuleView>
    decreases cs.len(),
{
    if cs.len() == 0 {
        Seq::empty()
    } else if is_active_app_scoped(cs.last()) {
        app_scoped_rules(cs.drop_last()).push(compat_rule_view(cs.last()))
    } else {
        app_scoped_rules(cs.drop_last())
    }
}

/// Rules of the global compatibility rules, in order.
pub open spec fn global_rules(cs: Seq<CompatibilityRule>) -> Seq<RouteRuleView>
    decreases cs.len(),
{
    if cs.len() == 0 {
        Seq::empty()
    } else if is_active_global(cs.last()) {
        global_rules(cs.drop_last()).push(compat_rule_view(cs.last()))
    } else {
        global_rules(cs.drop_last())
    }
}

/// Some element equals `x` ignoring ASCII case.
pub open spec fn contains_ci(list: Seq<Seq<char>>, x: Seq<char>) -> bool {
    exists|i: int| 0 <= i < list.len() && eq_ignore_ascii_case(#[trigger] list[i], x)
}

/// Appends `x` unless an element already equals it ignoring ASCII case.
pub open spec fn push_unique_ci(list: Seq<Seq<char>>, x: Seq<char>) -> Seq<Seq<char>> {
    if contains_ci(list, x) {
        list
    } else {
        list.push(x)
    }
}

/// An application rule belongs to the group of a priority class and destination.
pub open spec fn in_group(r: ApplicationRule, high: bool, d: RouteDestination) -> bool {
    &&& r.enabled
    &&& trim(r.process_name@).len() > 0
    &&& (r.priority == RulePriority::High) == high
    &&& r.destination == d
}

/// Trimmed process names of a group, first occurrence kept, duplicates ignoring ASCII case
/// dropped.
pub open spec fn app_group(rules: Seq<ApplicationRule>, high: bool, d: RouteDestination) -> Seq<
    Seq<char>,
>
    decreases rules.len(),
{
    if rules.len() == 0 {
        Seq::empty()
    } else if in_group(rules.last(), high, d) {
        push_unique_ci(app_group(rules.drop_last(), high, d), trim(rules.last().process_name@))
    } else {
        app_group(rules.drop_last(), high, d)
    }
}

/// The six application groups: (high direct, high v2ray, high aether, normal direct,
/// normal v2ray, normal aether).
#[verifier::ext_equal]
pub struct AppGroups {
    pub hd: Seq<Seq<char>>,
    pub hv: Seq<Seq<char>>,
    pub ha: Seq<Seq<char>>,
    pub nd: Seq<Seq<char>>,
    pub nv: Seq<Seq<char>>,
    pub na: Seq<Seq<char>>,
}

/// The application groups of a rule list.
pub open spec fn app_groups(rules: Seq<ApplicationRule>) -> AppGroups {
    AppGroups {
        hd: app_group(rules, true, RouteDestination::Direct),
        hv: app_group(rules, true, RouteDestination::SecondaryProxy),
        ha: app_group(rules, true, RouteDestination::Aether),
        nd: app_group(rules, false, RouteDestination::Direct),
        nv: app_group(rules, false, RouteDestination::SecondaryProxy),
        na: app_group(rules, false, RouteDestination::Aether),
    }
}

/// Unicode lower-case forms of every configured application.
pub open spec fn all_configured(g: AppGroups) -> Seq<Seq<char>> {
    (g.hd + g.hv + g.ha + g.nd + g.nv + g.na).map_values(|s: Seq<char>| unicode_lowercase(s))
}

/// Steam companion processes not configured anywhere yet.
pub open spec fn steam_additions(all: Seq<Seq<char>>) -> Seq<Seq<char>> {
    let first = if all.contains(unicode_lowercase("steamwebhelper.exe"@)) {
        Seq::<Seq<char>>::empty()
    } else {
        seq!["steamwebhelper.exe"@]
    };
    if all.contains(unicode_lowercase("steamservice.exe"@)) {
        first
    } else {
        first.push("steamservice.exe"@)
    }
}

/// Steam companions follow `steam.exe` into the first group (normal v2ray, normal aether,
/// normal direct, high v2ray, high aether, high direct) that routes it.
pub open spec fn propagate_steam(g: AppGroups) -> AppGroups {
    let all = all_configured(g);
    let add = steam_additions(all);
    if !all.contains("steam.exe"@) {
        g
    } else if contains_ci(g.nv, "steam.exe"@) {
        AppGroups { nv: g.nv + add, ..g }
    } else if contains_ci(g.na, "steam.exe"@) {
        AppGroups { na: g.na + add, ..g }
    } else if contains_ci(g.nd, "steam.exe"@) {
        AppGroups { nd: g.nd + add, ..g }
    } else if contains_ci(g.hv, "steam.exe"@) {
        AppGroups { hv: g.hv + add, ..g }
    } else if contains_ci(g.ha, "steam.exe"@) {
        AppGroups { ha: g.ha + add, ..g }
    } else if contains_ci(g.hd, "steam.exe"@) {
        AppGroups { hd: g.hd + add, ..g }
    } else {
        g
    }
}

/// The rule of an application group, present when the group is not empty.
pub open spec fn group_rule(apps: Seq<Seq<char>>, tag: Seq<char>) -> Seq<RouteRuleView> {
    if apps.len() > 0 {
        seq![route_to(Some(apps), None, None, None, tag)]
    } else {
        Seq::empty()
    }
}

/// The STUN/TURN fallback rule, present when enabled.
pub open spec fn generals_rules(enabled: bool) -> Seq<RouteRuleView> {
    if enabled {
        seq![route_to(None, Some(generals_stun_turn_ports()), None, None, "direct"@)]
    } else {
        Seq::empty()
    }
}

/// The private-network bypass rule.
pub open spec fn private_rule() -> RouteRuleView {
    RouteRuleView {
        protocol: None,
        process_name: None,
        port: None,
        port_range: None,
        network: None,
        ip_is_private: Some(true),
        action: Some("route"@),
        outbound: Some("direct"@),
    }
}

/// The private-network bypass rule, present when enabled.
pub open spec fn private_rules(enabled: bool) -> Seq<RouteRuleView> {
    if enabled {
        seq![private_rule()]
    } else {
        Seq::empty()
    }
}

/// High-priority application rules.
pub open spec fn high_rules(g: AppGroups) -> Seq<RouteRuleView> {
    group_rule(g.hd, "direct"@) + group_rule(g.hv, "v2ray"@) + group_rule(g.ha, "aether"@)
}

/// Normal-priority application rules.
pub open spec fn normal_rules(g: AppGroups) -> Seq<RouteRuleView> {
    group_rule(g.nd, "direct"@) + group_rule(g.nv, "v2ray"@) + group_rule(g.na, "aether"@)
}

/// All generated route rules, in precedence order.
pub open spec fn generated_rules(s: AppSettings) -> Seq<RouteRuleView> {
    let g = propagate_steam(app_groups(s.application_rules@));
    let custom = s.compatibility.custom_compatibility_rules@;
    hijack_rules() + seq![loop_rule()] + app_scoped_rules(custom) + high_rules(g) + global_rules(
        custom,
    ) + generals_rules(s.compatibility.generals_stun_turn_fallback) + normal_rules(g)
        + private_rules(s.compatibility.private_ip_bypass)
}

// ---------------------------------------------------------------------------
// Spec of route resolution
// ---------------------------------------------------------------------------

/// A `start:end` port range contains `p`.
pub open spec fn range_contains(r: Seq<char>, p: u16) -> bool {
    match find_char_from(r, ':', 0) {
        Some(k) => match (
            parse_unsigned(r.subrange(0, k), 65535),
            parse_unsigned(r.subrange(k + 1, r.len() as int), 65535),
        ) {
            (Some(a), Some(b)) => a <= p && p <= b,
            _ => false,
        },
        None => false,
    }
}

/// Some range of the list contains `p`.
pub open spec fn any_range_contains(ranges: Seq<Seq<char>>, p: u16) -> bool {
    exists|i: int| 0 <= i < ranges.len() && range_contains(#[trigger] ranges[i], p)
}

/// The port condition of a rule.
pub open spec fn port_matches(r: RouteRuleView, port: Option<u16>) -> bool {
    match port {
        Some(p) => if (r.port matches Some(ps) && ps.contains(p)) {
            true
        } else {
            match r.port_range {
                Some(rs) => any_range_contains(rs, p),
                None => r.port is None,
            }
        },
        None => r.port is None && r.port_range is None,
    }
}

/// The process condition of a rule (ASCII case-insensitive).
pub open spec fn process_matches(r: RouteRuleView, process: Option<Seq<char>>) -> bool {
    match r.process_name {
        Some(ps) => match process {
            Some(p) => contains_ci(ps, p),
            None => false,
        },
        None => true,
    }
}

/// The network condition of a rule; an unknown network matches any rule.
pub open spec fn network_matches(r: RouteRuleView, network: Option<Seq<char>>) -> bool {
    match (r.network, network) {
        (Some(rn), Some(q)) => eq_ignore_ascii_case(rn, q),
        _ => true,
    }
}

/// Outbound of a matched rule, or the final outbound.
pub open spec fn outbound_or(r: RouteRuleView, final_outbound: Seq<char>) -> Seq<char> {
    match r.outbound {
        Some(o) => o,
        None => final_outbound,
    }
}

/// Top-down resolution of a packet from rule `i` on.
pub open spec fn resolve_from(
    rules: Seq<RouteRuleView>,
    i: int,
    final_outbound: Seq<char>,
    process: Option<Seq<char>>,
    port: Option<u16>,
    network: Option<Seq<char>>,
    is_private: bool,
) -> Seq<char>
    decreases rules.len() - i,
{
    if i < 0 || i >= rules.len() {
        final_outbound
    } else {
        let r = rules[i];
        if r.action == Some("hijack-dns"@) {
            if r.port matches Some(ps) && port matches Some(p) && ps.contains(p) {
                "dns-hijack"@
            } else {
                resolve_from(rules, i + 1, final_outbound, process, port, network, is_private)
            }
        } else if r.ip_is_private == Some(true) {
            if is_private {
                outbound_or(r, final_outbound)
            } else {
                resolve_from(rules, i + 1, final_outbound, process, port, network, is_private)
            }
        } else if process_matches(r, process) && network_matches(r, network) && port_matches(
            r,
            port,
        ) {
            outbound_or(r, final_outbound)
        } else {
            resolve_from(rules, i + 1, final_outbound, process, port, network, is_private)
        }
    }
}

/// Resolution of a packet against a configuration.
pub open spec fn resolve_spec(
    config: SingBoxConfig,
    process: Option<Seq<char>>,
    port: Option<u16>,
    network: Option<Seq<char>>,
    is_private: bool,
) -> Seq<char> {
    resolve_from(
        rule_views(config.route.rules@),
        0,
        config.route.final_outbound@,
        process,
        port,
        network,
        is_private,
    )
}

/// The text of an optional `&str`.
pub open spec fn opt_str(o: Option<&str>) -> Option<Seq<char>> {
    match o {
        Some(s) => Some(s@),
        None => None,
    }
}

// ---------------------------------------------------------------------------
// Executable helpers
// ---------------------------------------------------------------------------

/// Equality of two texts.
pub fn text_eq(a: &str, b: &str) -> (r: bool)
    ensures
        r == (a@ == b@),
{
    let va = chars_of(a);
    let vb = chars_of(b);
    if va.len() != vb.len() {
        return false;
    }
    let mut i: usize = 0;
    while i < va.len()
        invariant
            va@ == a@,
            vb@ == b@,
            va@.len() == vb@.len(),
            i <= va@.len(),
            forall|j: int| 0 <= j < i ==> a@[j] == b@[j],
        decreases va.len() - i,
    {
        if va[i] != vb[i] {
            return false;
        }
        i = i + 1;
    }
    assert(a@ =~= b@);
    true
}

/// Some element equals `x` ignoring ASCII case.
pub fn contains_ci_exec(list: &Vec<String>, x: &str) -> (r: bool)
    ensures
        r == contains_ci(list.deep_view(), x@),
{
    let mut i: usize = 0;
    while i < list.len()
        invariant
            i <= list@.len(),
            forall|j: int| 0 <= j < i ==> !eq_ignore_ascii_case(#[trigger] list.deep_view()[j], x@),
        decreases list.len() - i,
    {
        if eq_ignore_case(list[i].as_str(), x) {
            assert(list.deep_view()[i as int] == list@[i as int]@);
            return true;
        }
        i = i + 1;
    }
    false
}

/// Some element equals `x` exactly.
pub fn contains_text_exec(list: &Vec<String>, x: &str) -> (r: bool)
    ensures
        r == list.deep_view().contains(x@),
{
    let mut i: usize = 0;
    while i < list.len()
        invariant
            i <= list@.len(),
            forall|j: int| 0 <= j < i ==> list.deep_view()[j] != x@,
        decreases list.len() - i,
    {
        if text_eq(list[i].as_str(), x) {
            assert(list.deep_view()[i as int] == x@);
            return true;
        }
        i = i + 1;
    }
    false
}

/// Appends `x` unless an element already equals it ignoring ASCII case.
fn push_unique_ci_exec(list: &mut Vec<String>, x: String)
    ensures
        final(list).deep_view() == push_unique_ci(old(list).deep_view(), x@),
{
    if !contains_ci_exec(list, x.as_str()) {
        let ghost before = list.deep_view();
        list.push(x);
        assert(list.deep_view() =~= before.push(x@));
    }
}

/// Appends every element of `extra`.
fn append_texts(list: &mut Vec<String>, extra: &Vec<String>)
    ensures
        final(list).deep_view() == old(list).deep_view() + extra.deep_view(),
{
    let ghost start = list.deep_view();
    let mut i: usize = 0;
    while i < extra.len()
        invariant
            i <= extra@.len(),
            list.deep_view() == start + extra.deep_view().subrange(0, i as int),
        decreases extra.len() - i,
    {
        let ghost before = list.deep_view();
        list.push(extra[i].clone());
        proof {
            assert(list.deep_view() =~= before.push(extra.deep_view()[i as int]));
            assert(extra.deep_view().subrange(0, i + 1) =~= extra.deep_view().subrange(
                0,
                i as int,
            ).push(extra.deep_view()[i as int]));
        }
        i = i + 1;
    }
    assert(extra.deep_view().subrange(0, extra@.len() as int) =~= extra.deep_view());
}

/// A copy of a list of strings.
fn clone_texts(v: &Vec<String>) -> (r: Vec<String>)
    ensures
        r.deep_view() == v.deep_view(),
{
    let mut r: Vec<String> = Vec::new();
    append_texts(&mut r, v);
    assert(r.deep_view() =~= v.deep_view());
    r
}

/// A copy of an optional list of strings.
fn clone_opt_texts(o: &Option<Vec<String>>) -> (r: Option<Vec<String>>)
    ensures
        opt_texts(r) == opt_texts(*o),
{
    match o {
        Some(v) => Some(clone_texts(v)),
        None => None,
    }
}

/// A copy of an optional list of ports.
fn clone_opt_ports(o: &Option<Vec<u16>>) -> (r: Option<Vec<u16>>)
    ensures
        opt_ports(r) == opt_ports(*o),
{
    match o {
        Some(v) => Some(v.clone()),
        None => None,
    }
}

/// A rule sending matched traffic to `outbound`.
fn make_route_rule(
    process_name: Option<Vec<String>>,
    port: Option<Vec<u16>>,
    port_range: Option<Vec<String>>,
    network: Option<String>,
    outbound: &str,
) -> (r: RouteRule)
    ensures
        r@ == route_to(
            opt_texts(process_name),
            opt_ports(port),
            opt_texts(port_range),
            match network {
                Some(n) => Some(n@),
                None => None,
            },
            outbound@,
        ),
{
    RouteRule {
        protocol: None,
        process_name,
        port,
        port_range,
        network,
        ip_is_private: None,
        action: Some(str_to_string("route")),
        outbound: Some(str_to_string(outbound)),
    }
}

/// Network selector string of a compatibility rule.
fn network_string(n: &Option<NetworkProtocol>) -> (r: Option<String>)
    ensures
        match r {
            Some(s) => network_tag(*n) == Some(s@),
            None => network_tag(*n) is None,
        },
{
    match n {
        Some(NetworkProtocol::Tcp) => Some(str_to_string("tcp")),
        Some(NetworkProtocol::Udp) => Some(str_to_string("udp")),
        _ => None,
    }
}

/// The rule made from one compatibility rule.
fn compat_route_rule(c: &CompatibilityRule) -> (r: RouteRule)
    ensures
        r@ == compat_rule_view(*c),
{
    let net = network_string(&c.network);
    let tag = SingBoxConfigGenerator::outbound_tag_for_destination(&c.destination);
    make_route_rule(
        clone_opt_texts(&c.process_names),
        clone_opt_ports(&c.ports),
        clone_opt_texts(&c.port_ranges),
        net,
        tag.as_str(),
    )
}

/// Appends one rule and tracks the model.
fn push_rule(rules: &mut Vec<RouteRule>, r: RouteRule)
    ensures
        rule_views(final(rules)@) == rule_views(old(rules)@).push(r@),
{
    let ghost before = rules@;
    rules.push(r);
    assert(rule_views(rules@) =~= rule_views(before).push(r@));
}

/// Appends the rule of an application group when the group is not empty.
fn push_group_rule(rules: &mut Vec<RouteRule>, apps: Vec<String>, tag: &str)
    ensures
        rule_views(final(rules)@) == rule_views(old(rules)@) + group_rule(apps.deep_view(), tag@),
{
    let ghost before = rule_views(rules@);
    let ghost apps_view = apps.deep_view();
    if apps.len() > 0 {
        let r = make_route_rule(Some(apps), None, None, None, tag);
        push_rule(rules, r);
        assert(rule_views(rules@) =~= before + group_rule(apps_view, tag@));
    } else {
        assert(rule_views(rules@) =~= before + group_rule(apps_view, tag@));
    }
}

/// Six mutable application groups.
struct GroupLists {
    hd: Vec<String>,
    hv: Vec<String>,
    ha: Vec<String>,
    nd: Vec<String>,
    nv: Vec<String>,
    na: Vec<String>,
}

/// The model of six group lists.
spec fn group_lists_view(g: GroupLists) -> AppGroups {
    AppGroups {
        hd: g.hd.deep_view(),
        hv: g.hv.deep_view(),
        ha: g.ha.deep_view(),
        nd: g.nd.deep_view(),
        nv: g.nv.deep_view(),
        na: g.na.deep_view(),
    }
}

/// Partitions the enabled application rules into the six groups.
fn collect_app_groups(rules: &Vec<ApplicationRule>) -> (g: GroupLists)
    ensures
        group_lists_view(g) == app_groups(rules@),
{
    let mut g = GroupLists {
        hd: Vec::new(),
        hv: Vec::new(),
        ha: Vec::new(),
        nd: Vec::new(),
        nv: Vec::new(),
        na: Vec::new(),
    };
    proof {
        assert(rules@.subrange(0, 0) =~= Seq::<ApplicationRule>::empty());
        assert(group_lists_view(g) =~= app_groups(rules@.subrange(0, 0)));
    }
    let mut i: usize = 0;
    while i < rules.len()
        invariant
            i <= rules@.len(),
            group_lists_view(g) == app_groups(rules@.subrange(0, i as int)),
        decreases rules.len() - i,
    {
        let rule = &rules[i];
        let ghost prefix = rules@.subrange(0, i as int);
        let ghost next = rules@.subrange(0, i + 1);
        proof {
            assert(next.drop_last() =~= prefix);
            assert(next.last() == *rule);
        }
        if rule.enabled {
            let proc = trim_str(rule.process_name.as_str());
            if proc.as_str().unicode_len() > 0 {
                proof {
                    assert(proc@.len() > 0);
                }
                if rule.priority == RulePriority::High {
                    match rule.destination {
                        RouteDestination::Direct => push_unique_ci_exec(&mut g.hd, proc),
                        RouteDestination::SecondaryProxy => push_unique_ci_exec(&mut g.hv, proc),
                        RouteDestination::Aether => push_unique_ci_exec(&mut g.ha, proc),
                    }
                } else {
                    match rule.destination {
                        RouteDestination::Direct => push_unique_ci_exec(&mut g.nd, proc),
                        RouteDestination::SecondaryProxy => push_unique_ci_exec(&mut g.nv, proc),
                        RouteDestination::Aether => push_unique_ci_exec(&mut g.na, proc),
                    }
                }
            } else {
                proof {
                    assert(proc@.len() == 0);
                }
            }
        }
        proof {
            assert(group_lists_view(g) =~= app_groups(next));
        }
        i = i + 1;
    }
    assert(rules@.subrange(0, rules@.len() as int) =~= rules@);
    g
}

/// Unicode lower-case forms of a list appended to `out`.
fn push_lowercased(out: &mut Vec<String>, list: &Vec<String>)
    ensures
        final(out).deep_view() == old(out).deep_view() + list.deep_view().map_values(
            |s: Seq<char>| unicode_lowercase(s),
        ),
{
    let ghost start = out.deep_view();
    let ghost low = list.deep_view().map_values(|s: Seq<char>| unicode_lowercase(s));
    let mut i: usize = 0;
    while i < list.len()
        invariant
            i <= list@.len(),
            low == list.deep_view().map_values(|s: Seq<char>| unicode_lowercase(s)),
            out.deep_view() == start + low.subrange(0, i as int),
        decreases list.len() - i,
    {
        let l = to_lowercase(list[i].as_str());
        let ghost before = out.deep_view();
        out.push(l);
        proof {
            assert(out.deep_view() =~= before.push(low[i as int]));
            assert(low.subrange(0, i + 1) =~= low.subrange(0, i as int).push(low[i as int]));
        }
        i = i + 1;
    }
    assert(low.subrange(0, list@.len() as int) =~= low);
}

/// Steam companions not configured anywhere yet.
fn steam_companion_additions(all: &Vec<String>) -> (r: Vec<String>)
    ensures
        r.deep_view() == steam_additions(all.deep_view()),
{
    let mut r: Vec<String> = Vec::new();
    let web = to_lowercase("steamwebhelper.exe");
    if !contains_text_exec(all, web.as_str()) {
        r.push(str_to_string("steamwebhelper.exe"));
    }
    let service = to_lowercase("steamservice.exe");
    if !contains_text_exec(all, service.as_str()) {
        let ghost before = r.deep_view();
        r.push(str_to_string("steamservice.exe"));
        assert(r.deep_view() =~= before.push("steamservice.exe"@));
    }
    assert(r.deep_view() =~= steam_additions(all.deep_view()));
    r
}

/// Applies the Steam companion propagation to the groups.
fn propagate_steam_exec(g: &mut GroupLists)
    ensures
        group_lists_view(*final(g)) == propagate_steam(group_lists_view(*old(g))),
{
    let ghost gv = group_lists_view(*g);
    let mut all: Vec<String> = Vec::new();
    push_lowercased(&mut all, &g.hd);
    push_lowercased(&mut all, &g.hv);
    push_lowercased(&mut all, &g.ha);
    push_lowercased(&mut all, &g.nd);
    push_lowercased(&mut all, &g.nv);
    push_lowercased(&mut all, &g.na);
    proof {
        let f = |s: Seq<char>| unicode_lowercase(s);
        assert(all.deep_view() =~= all_configured(gv)) by {
            assert((gv.hd + gv.hv + gv.ha + gv.nd + gv.nv + gv.na).map_values(f) =~= gv.hd.map_values(f)
                + gv.hv.map_values(f) + gv.ha.map_values(f) + gv.nd.map_values(f)
                + gv.nv.map_values(f) + gv.na.map_values(f));
        }
    }
    if !contains_text_exec(&all, "steam.exe") {
        return;
    }
    let add = steam_companion_additions(&all);
    if contains_ci_exec(&g.nv, "steam.exe") {
        append_texts(&mut g.nv, &add);
    } else if contains_ci_exec(&g.na, "steam.exe") {
        append_texts(&mut g.na, &add);
    } else if contains_ci_exec(&g.nd, "steam.exe") {
        append_texts(&mut g.nd, &add);
    } else if contains_ci_exec(&g.hv, "steam.exe") {
        append_texts(&mut g.hv, &add);
    } else if contains_ci_exec(&g.ha, "steam.exe") {
        append_texts(&mut g.ha, &add);
    } else if contains_ci_exec(&g.hd, "steam.exe") {
        append_texts(&mut g.hd, &add);
    }
}

impl SingBoxConfigGenerator {
    /// Generates the complete sing-box configuration for the settings: log, DNS (remote over
    /// Aether, local over direct), the TUN inbound, the aether/v2ray/direct outbounds and the
    /// route rules in strict precedence order with `aether` as the final outbound.
    pub fn generate(settings: &AppSettings) -> (c: SingBoxConfig)
        ensures
            c.log.level@ == settings.sing_box.log_level@,
            c.log.timestamp,
            match c.dns {
                Some(d) => dns_spec(d),
                None => false,
            },
            c.inbounds@.len() == 1,
            match c.inbounds@[0] {
                InboundConfig::Tun(t) => tun_spec(t, *settings),
            },
            outbounds_spec(c.outbounds@, *settings),
            c.route.auto_detect_interface,
            opt_text(c.route.default_domain_resolver) == Some("remote-dns"@),
            c.route.final_outbound@ == "aether"@,
            rule_views(c.route.rules@) == generated_rules(*settings),
    {
        let log = LogConfig { level: settings.sing_box.log_level.clone(), timestamp: true };
        let dns = make_dns_config();
        let mut address: Vec<String> = Vec::new();
        address.push(settings.sing_box.tun_address.clone());
        assert(address.deep_view() =~= seq![settings.sing_box.tun_address@]);
        let mut inbounds: Vec<InboundConfig> = Vec::new();
        inbounds.push(
            InboundConfig::Tun(
                TunInbound {
                    tag: str_to_string("tun-in"),
                    interface_name: settings.sing_box.interface_name.clone(),
                    address,
                    mtu: settings.sing_box.mtu,
                    auto_route: true,
                    strict_route: settings.sing_box.strict_route,
                    stack: str_to_string("system"),
                },
            ),
        );
        let outbounds = make_outbounds(settings);
        let rules = Self::generate_rules(settings);
        let route = RouteConfig {
            auto_detect_interface: true,
            default_domain_resolver: Some(str_to_string("remote-dns")),
            rules,
            final_outbound: str_to_string("aether"),
        };
        SingBoxConfig { log, dns: Some(dns), inbounds, outbounds, route }
    }

    /// The route rules of the settings in precedence order.
    fn generate_rules(settings: &AppSettings) -> (rules: Vec<RouteRule>)
        ensures
            rule_views(rules@) == generated_rules(*settings),
    {
        let mut rules: Vec<RouteRule> = Vec::new();
        let mut dns_proto: Vec<String> = Vec::new();
        dns_proto.push(str_to_string("dns"));
        assert(dns_proto.deep_view() =~= seq!["dns"@]);
        push_rule(
            &mut rules,
            RouteRule {
                protocol: Some(dns_proto),
                process_name: None,
                port: None,
                port_range: None,
                network: None,
                ip_is_private: None,
                action: Some(str_to_string("hijack-dns")),
                outbound: None,
            },
        );
        let mut dns_port: Vec<u16> = Vec::new();
        dns_port.push(53);
        assert(dns_port@ =~= seq![53u16]);
        push_rule(
            &mut rules,
            RouteRule {
                protocol: None,
                process_name: None,
                port: Some(dns_port),
                port_range: None,
                network: None,
                ip_is_private: None,
                action: Some(str_to_string("hijack-dns")),
                outbound: None,
            },
        );
        push_rule(
            &mut rules,
            make_route_rule(Some(loop_prevention_process_names()), None, None, None, "direct"),
        );
        proof {
            assert(rule_views(rules@) =~~= hijack_rules() + seq![loop_rule()]);
        }
        let custom = &settings.compatibility.custom_compatibility_rules;
        let ghost base = rule_views(rules@);
        let mut i: usize = 0;
        while i < custom.len()
            invariant
                i <= custom@.len(),
                rule_views(rules@) == base + app_scoped_rules(custom@.subrange(0, i as int)),
            decreases custom.len() - i,
        {
            let c = &custom[i];
            proof {
                assert(custom@.subrange(0, i + 1).drop_last() =~= custom@.subrange(0, i as int));
                assert(custom@.subrange(0, i + 1).last() == *c);
            }
            let active = c.enabled && c.scope == CompatibilityScope::AppScoped && match &c.process_names {
                Some(p) => p.len() > 0,
                None => false,
            };
            if active {
                push_rule(&mut rules, compat_route_rule(c));
            }
            proof {
                assert(rule_views(rules@) =~= base + app_scoped_rules(custom@.subrange(0, i + 1)));
            }
            i = i + 1;
        }
        proof {
            assert(custom@.subrange(0, custom@.len() as int) =~= custom@);
        }
        let mut g = collect_app_groups(&settings.application_rules);
        propagate_steam_exec(&mut g);
        let ghost gv = group_lists_view(g);
        let ghost before_high = rule_views(rules@);
        push_group_rule(&mut rules, g.hd, "direct");
        push_group_rule(&mut rules, g.hv, "v2ray");
        push_group_rule(&mut rules, g.ha, "aether");
        proof {
            assert(rule_views(rules@) =~= before_high + high_rules(gv));
        }
        let ghost base2 = rule_views(rules@);
        let mut j: usize = 0;
        while j < custom.len()
            invariant
                j <= custom@.len(),
                custom == &settings.compatibility.custom_compatibility_rules,
                rule_views(rules@) == base2 + global_rules(custom@.subrange(0, j as int)),
            decreases custom.len() - j,
        {
            let c = &custom[j];
            proof {
                assert(custom@.subrange(0, j + 1).drop_last() =~= custom@.subrange(0, j as int));
                assert(custom@.subrange(0, j + 1).last() == *c);
            }
            if c.enabled && c.scope == CompatibilityScope::GlobalFallback {
                push_rule(&mut rules, compat_route_rule(c));
            }
            proof {
                assert(rule_views(rules@) =~= base2 + global_rules(custom@.subrange(0, j + 1)));
            }
            j = j + 1;
        }
        proof {
            assert(custom@.subrange(0, custom@.len() as int) =~= custom@);
        }
        let ghost base3 = rule_views(rules@);
        if settings.compatibility.generals_stun_turn_fallback {
            push_rule(
                &mut rules,
                make_route_rule(None, Some(generals_stun_turn_port_list()), None, None, "direct"),
            );
        }
        proof {
            assert(rule_views(rules@) =~= base3 + generals_rules(
                settings.compatibility.generals_stun_turn_fallback,
            ));
        }
        let ghost before_normal = rule_views(rules@);
        push_group_rule(&mut rules, g.nd, "direct");
        push_group_rule(&mut rules, g.nv, "v2ray");
        push_group_rule(&mut rules, g.na, "aether");
        proof {
            assert(rule_views(rules@) =~= before_normal + normal_rules(gv));
        }
        let ghost base4 = rule_views(rules@);
        if settings.compatibility.private_ip_bypass {
            push_rule(
                &mut rules,
                RouteRule {
                    protocol: None,
                    process_name: None,
                    port: None,
                    port_range: None,
                    network: None,
                    ip_is_private: Some(true),
                    action: Some(str_to_string("route")),
                    outbound: Some(str_to_string("direct")),
                },
            );
        }
        proof {
            assert(rule_views(rules@) =~= base4 + private_rules(
                settings.compatibility.private_ip_bypass,
            ));
            assert(rule_views(rules@) =~= generated_rules(*settings));
        }
        rules
    }

    /// Outbound tag of a destination.
    pub fn outbound_tag_for_destination(dest: &RouteDestination) -> (r: String)
        ensures
            r@ == outbound_tag(*dest),
    {
        match dest {
            RouteDestination::Direct => str_to_string("direct"),
            RouteDestination::SecondaryProxy => str_to_string("v2ray"),
            RouteDestination::Aether => str_to_string("aether"),
        }
    }

    /// Top-down resolution of a packet, without a network selector.
    pub fn resolve_route<'a>(
        config: &'a SingBoxConfig,
        process_name: Option<&str>,
        port: Option<u16>,
        is_private: bool,
    ) -> (r: &'a str)
        ensures
            r@ == resolve_spec(*config, opt_str(process_name), port, None, is_private),
    {
        Self::resolve_route_full(config, process_name, port, None, is_private)
    }

    /// Top-down resolution of a packet with an explicit network (`udp` or `tcp`).
    pub fn resolve_route_with_network<'a>(
        config: &'a SingBoxConfig,
        process_name: Option<&str>,
        port: Option<u16>,
        network: Option<&str>,
        is_private: bool,
    ) -> (r: &'a str)
        ensures
            r@ == resolve_spec(*config, opt_str(process_name), port, opt_str(network), is_private),
    {
        Self::resolve_route_full(config, process_name, port, network, is_private)
    }

    /// Top-down resolution of a packet to a destination address; an address in a private,
    /// loopback or link-local range counts as private, as does nothing else (an address
    /// that could not be read comes as `None`).
    pub fn resolve_route_with_ip<'a>(
        config: &'a SingBoxConfig,
        process_name: Option<&str>,
        port: Option<u16>,
        ip: Option<IpAddress>,
    ) -> (r: &'a str)
        ensures
            r@ == resolve_spec(
                *config,
                opt_str(process_name),
                port,
                None,
                match ip {
                    Some(a) => private_address(a),
                    None => false,
                },
            ),
    {
        let is_priv = match ip {
            Some(a) => Self::is_private_ip(&a),
            None => false,
        };
        Self::resolve_route(config, process_name, port, is_priv)
    }

    /// Whether an address lies in a private (RFC 1918), loopback or link-local range.
    pub fn is_private_ip(ip: &IpAddress) -> (r: bool)
        ensures
            r == private_address(*ip),
    {
        match ip {
            IpAddress::V4(a, b, _, _) => {
                *a == 10 || (*a == 172 && 16 <= *b && *b <= 31) || (*a == 192 && *b == 168)
                    || *a == 127 || (*a == 169 && *b == 254)
            },
            IpAddress::V6(s) => {
                let loopback = s[0] == 0 && s[1] == 0 && s[2] == 0 && s[3] == 0 && s[4] == 0
                    && s[5] == 0 && s[6] == 0 && s[7] == 1;
                loopback || (0xfe80 <= s[0] && s[0] <= 0xfebf)
            },
        }
    }

    /// Full top-down resolution: the first rule whose conditions all hold decides; DNS hijack
    /// rules answer `dns-hijack` for their ports; otherwise the final outbound.
    pub fn resolve_route_full<'a>(
        config: &'a SingBoxConfig,
        process_name: Option<&str>,
        port: Option<u16>,
        network: Option<&str>,
        is_private: bool,
    ) -> (r: &'a str)
        ensures
            r@ == resolve_spec(*config, opt_str(process_name), port, opt_str(network), is_private),
    {
        let rules = &config.route.rules;
        let ghost views = rule_views(rules@);
        let ghost fin = config.route.final_outbound@;
        let ghost pv = opt_str(process_name);
        let ghost nv = opt_str(network);
        let mut i: usize = 0;
        while i < rules.len()
            invariant
                i <= rules@.len(),
                views == rule_views(rules@),
                resolve_spec(*config, pv, port, nv, is_private) == resolve_from(
                    views,
                    i as int,
                    fin,
                    pv,
                    port,
                    nv,
                    is_private,
                ),
                fin == config.route.final_outbound@,
                rules == &config.route.rules,
                pv == opt_str(process_name),
                nv == opt_str(network),
            decreases rules.len() - i,
        {
            let rule = &rules[i];
            assert(views[i as int] == rule@);
            let is_hijack = match &rule.action {
                Some(a) => text_eq(a.as_str(), "hijack-dns"),
                None => false,
            };
            if is_hijack {
                let port_hit = match (&rule.port, port) {
                    (Some(ps), Some(p)) => contains_port(ps, p),
                    _ => false,
                };
                if port_hit {
                    assert(views[i as int].action == Some("hijack-dns"@));
                    assert(views[i as int].port matches Some(ps) && port matches Some(p) && ps.contains(p));
                    assert(resolve_from(views, i as int, fin, pv, port, nv, is_private) == "dns-hijack"@);
                    let r: &str = "dns-hijack";
                    return r;
                }
                assert(!(views[i as int].port matches Some(ps) && port matches Some(p) && ps.contains(p)));
                assert(resolve_from(views, i as int, fin, pv, port, nv, is_private) == resolve_from(views, i + 1, fin, pv, port, nv, is_private));
                i = i + 1;
                continue;
            }
            let private_rule = match rule.ip_is_private {
                Some(b) => b,
                None => false,
            };
            if private_rule {
                if is_private {
                    return outbound_or_final(rule, config);
                } else {
                    assert(resolve_from(views, i as int, fin, pv, port, nv, is_private) == resolve_from(views, i + 1, fin, pv, port, nv, is_private));
                    i = i + 1;
                    continue;
                }
            }
            let proc_ok = match (&rule.process_name, process_name) {
                (Some(procs), Some(p)) => contains_ci_exec(procs, p),
                (Some(_), None) => false,
                (None, _) => true,
            };
            let net_ok = match (&rule.network, network) {
                (Some(rn), Some(q)) => eq_ignore_case(rn.as_str(), q),
                _ => true,
            };
            let port_ok = rule_port_matches(rule, port);
            if proc_ok && net_ok && port_ok {
                return outbound_or_final(rule, config);
            }
            i = i + 1;
        }
        config.route.final_outbound.as_str()
    }
}

/// The outbound of a rule, or the final outbound.
fn outbound_or_final<'a>(rule: &'a RouteRule, config: &'a SingBoxConfig) -> (r: &'a str)
    ensures
        r@ == outbound_or(rule@, config.route.final_outbound@),
{
    match &rule.outbound {
        Some(o) => o.as_str(),
        None => config.route.final_outbound.as_str(),
    }
}

/// A port list contains `p`.
fn contains_port(ps: &Vec<u16>, p: u16) -> (r: bool)
    ensures
        r == ps@.contains(p),
{
    let mut i: usize = 0;
    while i < ps.len()
        invariant
            i <= ps@.len(),
            forall|j: int| 0 <= j < i ==> ps@[j] != p,
        decreases ps.len() - i,
    {
        if ps[i] == p {
            assert(ps@[i as int] == p);
            return true;
        }
        i = i + 1;
    }
    false
}

/// A `start:end` range contains `p`.
fn range_contains_exec(r: &str, p: u16) -> (b: bool)
    ensures
        b == range_contains(r@, p),
{
    let v = chars_of(r);
    let mut k: usize = 0;
    while k < v.len() && v[k] != ':'
        invariant
            k <= v@.len(),
            v@ == r@,
            find_char_from(v@, ':', 0) == find_char_from(v@, ':', k as int),
        decreases v.len() - k,
    {
        k = k + 1;
    }
    if k == v.len() {
        return false;
    }
    let left = slice_chars(&v, 0, k);
    let right = slice_chars(&v, k + 1, v.len());
    match (parse_unsigned_exec(&left, 65535), parse_unsigned_exec(&right, 65535)) {
        (Some(a), Some(b)) => a <= p as u64 && p as u64 <= b,
        _ => false,
    }
}

/// Some range of the list contains `p`.
fn any_range_contains_exec(ranges: &Vec<String>, p: u16) -> (b: bool)
    ensures
        b == any_range_contains(ranges.deep_view(), p),
{
    let mut i: usize = 0;
    while i < ranges.len()
        invariant
            i <= ranges@.len(),
            forall|j: int| 0 <= j < i ==> !range_contains(#[trigger] ranges.deep_view()[j], p),
        decreases ranges.len() - i,
    {
        if range_contains_exec(ranges[i].as_str(), p) {
            assert(range_contains(ranges.deep_view()[i as int], p));
            return true;
        }
        i = i + 1;
    }
    false
}

/// The port condition of a rule.
fn rule_port_matches(rule: &RouteRule, port: Option<u16>) -> (b: bool)
    ensures
        b == port_matches(rule@, port),
{
    match port {
        Some(p) => {
            let listed = match &rule.port {
                Some(ps) => contains_port(ps, p),
                None => false,
            };
            if listed {
                true
            } else {
                match &rule.port_range {
                    Some(rs) => any_range_contains_exec(rs, p),
                    None => rule.port.is_none(),
                }
            }
        },
        None => rule.port.is_none() && rule.port_range.is_none(),
    }
}

/// A UDP or TCP DNS server entry with the given tag and address, sent over `detour`.
pub open spec fn dns_entry(d: DnsServer, udp: bool, tag: Seq<char>, server: Seq<char>, detour: Seq<char>) -> bool {
    match d {
        DnsServer::Udp(u) => udp && u.tag@ == tag && u.server@ == server && u.server_port == Some(
            53u16,
        ) && opt_text(u.detour) == Some(detour),
        DnsServer::Tcp(u) => !udp && u.tag@ == tag && u.server@ == server && u.server_port == Some(
            53u16,
        ) && opt_text(u.detour) == Some(detour),
        _ => false,
    }
}

/// The DNS section of every generated configuration.
pub open spec fn dns_spec(d: DnsConfig) -> bool {
    &&& d.strategy@ == "prefer_ipv4"@
    &&& d.independent_cache
    &&& d.servers@.len() == 4
    &&& dns_entry(d.servers@[0], true, "remote-dns"@, "1.1.1.1"@, "aether"@)
    &&& dns_entry(d.servers@[1], false, "remote-dns-tcp"@, "1.1.1.1"@, "aether"@)
    &&& dns_entry(d.servers@[2], true, "remote-dns-backup"@, "1.0.0.1"@, "aether"@)
    &&& match d.servers@[3] {
        DnsServer::Local(u) => u.tag@ == "local-dns"@ && opt_text(u.detour) == Some("direct"@),
        _ => false,
    }
}

/// The TUN inbound of every generated configuration.
pub open spec fn tun_spec(t: TunInbound, s: AppSettings) -> bool {
    &&& t.tag@ == "tun-in"@
    &&& t.interface_name@ == s.sing_box.interface_name@
    &&& t.address.deep_view() == seq![s.sing_box.tun_address@]
    &&& t.mtu == s.sing_box.mtu
    &&& t.auto_route
    &&& t.strict_route == s.sing_box.strict_route
    &&& t.stack@ == "system"@
}

/// The outbounds of every generated configuration: aether and v2ray SOCKS5, then direct.
pub open spec fn outbounds_spec(o: Seq<OutboundConfig>, s: AppSettings) -> bool {
    &&& o.len() == 3
    &&& match o[0] {
        OutboundConfig::Socks(a) => a.tag@ == "aether"@ && a.server@ == s.aether.host@
            && a.server_port == s.aether.port && a.version@ == "5"@,
        _ => false,
    }
    &&& match o[1] {
        OutboundConfig::Socks(b) => b.tag@ == "v2ray"@ && b.server@ == s.secondary_proxy.host@
            && b.server_port == s.secondary_proxy.port && b.version@ == "5"@,
        _ => false,
    }
    &&& match o[2] {
        OutboundConfig::Direct(d) => d.tag@ == "direct"@,
        _ => false,
    }
}

/// The DNS section.
fn make_dns_config() -> (d: DnsConfig)
    ensures
        dns_spec(d),
{
    let mut servers: Vec<DnsServer> = Vec::new();
    servers.push(
        DnsServer::Udp(
            UdpDnsServer {
                tag: str_to_string("remote-dns"),
                server: str_to_string("1.1.1.1"),
                server_port: Some(53),
                detour: Some(str_to_string("aether")),
            },
        ),
    );
    servers.push(
        DnsServer::Tcp(
            TcpDnsServer {
                tag: str_to_string("remote-dns-tcp"),
                server: str_to_string("1.1.1.1"),
                server_port: Some(53),
                detour: Some(str_to_string("aether")),
            },
        ),
    );
    servers.push(
        DnsServer::Udp(
            UdpDnsServer {
                tag: str_to_string("remote-dns-backup"),
                server: str_to_string("1.0.0.1"),
                server_port: Some(53),
                detour: Some(str_to_string("aether")),
            },
        ),
    );
    servers.push(
        DnsServer::Local(
            LocalDnsServer { tag: str_to_string("local-dns"), detour: Some(str_to_string("direct")) },
        ),
    );
    DnsConfig { servers, strategy: str_to_string("prefer_ipv4"), independent_cache: true }
}

/// The outbounds.
fn make_outbounds(settings: &AppSettings) -> (o: Vec<OutboundConfig>)
    ensures
        outbounds_spec(o@, *settings),
{
    let mut o: Vec<OutboundConfig> = Vec::new();
    o.push(
        OutboundConfig::Socks(
            SocksOutbound {
                tag: str_to_string("aether"),
                server: settings.aether.host.clone(),
                server_port: settings.aether.port,
                version: str_to_string("5"),
            },
        ),
    );
    o.push(
        OutboundConfig::Socks(
            SocksOutbound {
                tag: str_to_string("v2ray"),
                server: settings.secondary_proxy.host.clone(),
                server_port: settings.secondary_proxy.port,
                version: str_to_string("5"),
            },
        ),
    );
    o.push(OutboundConfig::Direct(DirectOutbound { tag: str_to_string("direct") }));
    o
}

} // verus!
