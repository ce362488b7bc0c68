//! The routing precedence guarantees of generated configurations, proved over the rule
//! model that `SingBoxConfigGenerator::generate` and `resolve_route_full` are specified by.
use vstd::prelude::*;
use crate::models::settings::{AppSettings, CompatibilityRule};
use crate::models::singbox::{RouteRuleView, SingBoxConfig, rule_views};
use crate::routing::generator::{
    app_groups, app_scoped_rules, contains_ci, generals_rules, generated_rules, global_rules,
    group_rule, hijack_rules, high_rules, loop_rule, normal_rules, outbound_or, private_rule,
    private_rules, propagate_steam, resolve_from, resolve_spec, route_to, AppGroups,
    network_matches, port_matches, process_matches,
};
use crate::routing::presets::{generals_stun_turn_ports, loop_prevention_processes};

verus! {

/// A rule decides a packet (the first such rule is the one that answers).
pub open spec fn fires(
    r: RouteRuleView,
    process: Option<Seq<char>>,
    port: Option<u16>,
    network: Option<Seq<char>>,
    is_private: bool,
) -> bool {
    if r.action == Some("hijack-dns"@) {
        r.port matches Some(ps) && port matches Some(p) && ps.contains(p)
    } else if r.ip_is_private == Some(true) {
        is_private
    } else {
        process_matches(r, process) && network_matches(r, network) && port_matches(r, port)
    }
}

/// What a deciding rule answers.
pub open spec fn decision(r: RouteRuleView, final_outbound: Seq<char>) -> Seq<char> {
    if r.action == Some("hijack-dns"@) {
        "dns-hijack"@
    } else {
        outbound_or(r, final_outbound)
    }
}

/// A configuration is the one generated for the settings.
pub open spec fn is_generated_for(c: SingBoxConfig, s: AppSettings) -> bool {
    rule_views(c.route.rules@) == generated_rules(s) && c.route.final_outbound@ == "aether"@
}

/// No rule of a list decides the packet.
pub open spec fn none_fires(
    rules: Seq<RouteRuleView>,
    process: Option<Seq<char>>,
    port: Option<u16>,
    network: Option<Seq<char>>,
    is_private: bool,
) -> bool {
    forall|j: int| 0 <= j < rules.len() ==> !fires(#[trigger] rules[j], process, port, network, is_private)
}

/// The routing action is not the DNS hijack action.
proof fn lemma_route_not_hijack()
    ensures
        "route"@ != "hijack-dns"@,
{
    reveal_strlit("route");
    reveal_strlit("hijack-dns");
    assert("route"@.len() == 5);
    assert("hijack-dns"@.len() == 10);
}

/// One step of resolution: the rule at `i` answers if it decides, else resolution goes on.
proof fn lemma_step(
    rules: Seq<RouteRuleView>,
    i: int,
    f: Seq<char>,
    process: Option<Seq<char>>,
    port: Option<u16>,
    network: Option<Seq<char>>,
    is_private: bool,
)
    requires
        0 <= i < rules.len(),
    ensures
        resolve_from(rules, i, f, process, port, network, is_private) == if fires(
            rules[i],
            process,
            port,
            network,
            is_private,
        ) {
            decision(rules[i], f)
        } else {
            resolve_from(rules, i + 1, f, process, port, network, is_private)
        },
{
}

/// Resolution over `a + b` from the end of `a` equals resolution over `b`.
proof fn lemma_suffix(
    a: Seq<RouteRuleView>,
    b: Seq<RouteRuleView>,
    j: int,
    f: Seq<char>,
    process: Option<Seq<char>>,
    port: Option<u16>,
    network: Option<Seq<char>>,
    is_private: bool,
)
    requires
        0 <= j <= b.len(),
    ensures
        resolve_from(a + b, a.len() + j, f, process, port, network, is_private) == resolve_from(
            b,
            j,
            f,
            process,
            port,
            network,
            is_private,
        ),
    decreases b.len() - j,
{
    if j < b.len() {
        lemma_suffix(a, b, j + 1, f, process, port, network, is_private);
        lemma_step(a + b, a.len() + j, f, process, port, network, is_private);
        lemma_step(b, j, f, process, port, network, is_private);
        assert((a + b)[a.len() + j] == b[j]);
    }
}

/// Rules that do not decide are skipped.
proof fn lemma_skip_from(
    a: Seq<RouteRuleView>,
    b: Seq<RouteRuleView>,
    i: int,
    f: Seq<char>,
    process: Option<Seq<char>>,
    port: Option<u16>,
    network: Option<Seq<char>>,
    is_private: bool,
)
    requires
        0 <= i <= a.len(),
        none_fires(a, process, port, network, is_private),
    ensures
        resolve_from(a + b, i, f, process, port, network, is_private) == resolve_from(
            b,
            0,
            f,
            process,
            port,
            network,
            is_private,
        ),
    decreases a.len() - i,
{
    if i < a.len() {
        lemma_skip_from(a, b, i + 1, f, process, port, network, is_private);
        lemma_step(a + b, i, f, process, port, network, is_private);
        assert((a + b)[i] == a[i]);
    } else {
        lemma_suffix(a, b, 0, f, process, port, network, is_private);
    }
}

/// A prefix in which no rule decides is skipped.
pub proof fn lemma_skip(
    a: Seq<RouteRuleView>,
    b: Seq<RouteRuleView>,
    f: Seq<char>,
    process: Option<Seq<char>>,
    port: Option<u16>,
    network: Option<Seq<char>>,
    is_private: bool,
)
    requires
        none_fires(a, process, port, network, is_private),
    ensures
        resolve_from(a + b, 0, f, process, port, network, is_private) == resolve_from(
            b,
            0,
            f,
            process,
            port,
            network,
            is_private,
        ),
{
    lemma_skip_from(a, b, 0, f, process, port, network, is_private);
}

/// A list whose first rule decides answers with that rule.
pub proof fn lemma_first(
    a: Seq<RouteRuleView>,
    f: Seq<char>,
    process: Option<Seq<char>>,
    port: Option<u16>,
    network: Option<Seq<char>>,
    is_private: bool,
)
    requires
        a.len() > 0,
        fires(a[0], process, port, network, is_private),
    ensures
        resolve_from(a, 0, f, process, port, network, is_private) == decision(a[0], f),
{
    lemma_step(a, 0, f, process, port, network, is_private);
}

/// Neither DNS hijack rule decides a packet that is not for port 53.
proof fn lemma_hijack_silent(
    process: Option<Seq<char>>,
    port: Option<u16>,
    network: Option<Seq<char>>,
    is_private: bool,
)
    requires
        port != Some(53u16),
    ensures
        none_fires(hijack_rules(), process, port, network, is_private),
{
    let h = hijack_rules();
    assert forall|j: int| 0 <= j < h.len() implies !fires(#[trigger] h[j], process, port, network, is_private) by {
        if j == 1 {
            if let Some(p) = port {
                assert(seq![53u16].contains(p) ==> p == 53);
            }
        }
    }
}

/// The loop-prevention rule does not decide a packet of any other process.
proof fn lemma_loop_silent(
    process: Option<Seq<char>>,
    port: Option<u16>,
    network: Option<Seq<char>>,
    is_private: bool,
)
    requires
        process matches Some(p) ==> !contains_ci(loop_prevention_processes(), p),
    ensures
        none_fires(seq![loop_rule()], process, port, network, is_private),
{
    lemma_route_not_hijack();
}

/// The rule of an application group decides a packet only for a member of the group.
proof fn lemma_group_silent(
    apps: Seq<Seq<char>>,
    tag: Seq<char>,
    process: Option<Seq<char>>,
    port: Option<u16>,
    network: Option<Seq<char>>,
    is_private: bool,
)
    requires
        process matches Some(p) ==> !contains_ci(apps, p),
    ensures
        none_fires(group_rule(apps, tag), process, port, network, is_private),
{
    lemma_route_not_hijack();
}

/// The rule of an application group decides any packet of a member (port and network
/// unconstrained) and answers the group's tag.
proof fn lemma_group_fires(
    apps: Seq<Seq<char>>,
    tag: Seq<char>,
    p: Seq<char>,
    port: Option<u16>,
    network: Option<Seq<char>>,
    is_private: bool,
)
    requires
        contains_ci(apps, p),
    ensures
        group_rule(apps, tag).len() == 1,
        fires(group_rule(apps, tag)[0], Some(p), port, network, is_private),
        decision(group_rule(apps, tag)[0], "aether"@) == tag,
{
    lemma_route_not_hijack();
}

/// Empty compatibility rule lists generate no rules.
proof fn lemma_no_custom(s: AppSettings)
    requires
        s.compatibility.custom_compatibility_rules@.len() == 0,
    ensures
        app_scoped_rules(s.compatibility.custom_compatibility_rules@) =~= Seq::empty(),
        global_rules(s.compatibility.custom_compatibility_rules@) =~= Seq::empty(),
{
}

/// The process is routed by none of the six application groups.
pub open spec fn unassigned(g: AppGroups, process: Option<Seq<char>>) -> bool {
    process matches Some(p) ==> !contains_ci(g.hd, p) && !contains_ci(g.hv, p) && !contains_ci(
        g.ha,
        p,
    ) && !contains_ci(g.nd, p) && !contains_ci(g.nv, p) && !contains_ci(g.na, p)
}

/// The process is routed by none of the high-priority groups.
pub open spec fn not_high(g: AppGroups, process: Option<Seq<char>>) -> bool {
    process matches Some(p) ==> !contains_ci(g.hd, p) && !contains_ci(g.hv, p) && !contains_ci(
        g.ha,
        p,
    )
}

/// The port is a STUN/TURN fallback port and the fallback is on.
pub open spec fn on_fallback_port(s: AppSettings, port: Option<u16>) -> bool {
    s.compatibility.generals_stun_turn_fallback && match port {
        Some(pt) => generals_stun_turn_ports().contains(pt),
        None => false,
    }
}

/// The application groups that a configuration generated for `s` routes.
pub open spec fn groups_of(s: AppSettings) -> AppGroups {
    propagate_steam(app_groups(s.application_rules@))
}

/// The prefix of the generated rules up to and including the high-priority rules, when no
/// compatibility rules are configured.
proof fn lemma_layout(s: AppSettings)
    requires
        s.compatibility.custom_compatibility_rules@.len() == 0,
    ensures
        generated_rules(s) =~= hijack_rules() + seq![loop_rule()] + high_rules(groups_of(s))
            + generals_rules(s.compatibility.generals_stun_turn_fallback) + normal_rules(
            groups_of(s),
        ) + private_rules(s.compatibility.private_ip_bypass),
{
    lemma_no_custom(s);
}

/// DNS queries on port 53 are always intercepted by the DNS hijack, before every other rule
/// (including the private-network bypass).
pub proof fn law_dns_port_is_hijacked(
    c: SingBoxConfig,
    s: AppSettings,
    process: Option<Seq<char>>,
    network: Option<Seq<char>>,
    is_private: bool,
)
    requires
        is_generated_for(c, s),
    ensures
        resolve_spec(c, process, Some(53u16), network, is_private) == "dns-hijack"@,
{
    let rules = generated_rules(s);
    let h = hijack_rules();
    let rest = rules.subrange(2, rules.len() as int);
    assert(rules =~= h + rest);
    lemma_step(rules, 0, "aether"@, process, Some(53u16), network, is_private);
    lemma_step(rules, 1, "aether"@, process, Some(53u16), network, is_private);
    assert(rules[1] == h[1]);
    assert(seq![53u16].contains(53u16)) by {
        assert(seq![53u16][0] == 53u16);
    }
}

/// The proxy binaries (aether.exe, xray.exe, v2ray.exe, v2rayN.exe) always go direct, for
/// every port but the DNS port, whatever the application and compatibility rules say.
pub proof fn law_loop_prevention_goes_direct(
    c: SingBoxConfig,
    s: AppSettings,
    p: Seq<char>,
    port: Option<u16>,
    network: Option<Seq<char>>,
    is_private: bool,
)
    requires
        is_generated_for(c, s),
        contains_ci(loop_prevention_processes(), p),
        port != Some(53u16),
    ensures
        resolve_spec(c, Some(p), port, network, is_private) == "direct"@,
{
    lemma_route_not_hijack();
    let rules = generated_rules(s);
    let h = hijack_rules();
    let rest = rules.subrange(2, rules.len() as int);
    assert(rules =~= h + rest);
    lemma_hijack_silent(Some(p), port, network, is_private);
    lemma_skip(h, rest, "aether"@, Some(p), port, network, is_private);
    assert(rest[0] == loop_rule());
    lemma_first(rest, "aether"@, Some(p), port, network, is_private);
}

/// With no compatibility rules, a high-priority application keeps its destination on every
/// port but the DNS port, the STUN/TURN ports included (the first high group that routes it
/// wins: direct, then v2ray, then aether).
pub proof fn law_high_priority_overrides_fallback(
    c: SingBoxConfig,
    s: AppSettings,
    p: Seq<char>,
    port: Option<u16>,
    network: Option<Seq<char>>,
    is_private: bool,
)
    requires
        is_generated_for(c, s),
        s.compatibility.custom_compatibility_rules@.len() == 0,
        !contains_ci(loop_prevention_processes(), p),
        port != Some(53u16),
        !not_high(groups_of(s), Some(p)),
    ensures
        resolve_spec(c, Some(p), port, network, is_private) == (if contains_ci(
            groups_of(s).hd,
            p,
        ) {
            "direct"@
        } else if contains_ci(groups_of(s).hv, p) {
            "v2ray"@
        } else {
            "aether"@
        }),
{
    lemma_route_not_hijack();
    let g = groups_of(s);
    let f = "aether"@;
    let pp = Some(p);
    lemma_layout(s);
    let tail = generals_rules(s.compatibility.generals_stun_turn_fallback) + normal_rules(g)
        + private_rules(s.compatibility.private_ip_bypass);
    let rules = generated_rules(s);
    let pre = hijack_rules() + seq![loop_rule()];
    assert(rules =~= pre + (high_rules(g) + tail));
    lemma_hijack_silent(pp, port, network, is_private);
    lemma_loop_silent(pp, port, network, is_private);
    assert(none_fires(pre, pp, port, network, is_private)) by {
        assert forall|j: int| 0 <= j < pre.len() implies !fires(#[trigger] pre[j], pp, port, network, is_private) by {
            if j < 2 {
                assert(pre[j] == hijack_rules()[j]);
            } else {
                assert(pre[j] == seq![loop_rule()][0]);
            }
        }
    }
    lemma_skip(pre, high_rules(g) + tail, f, pp, port, network, is_private);
    let hd = group_rule(g.hd, "direct"@);
    let hv = group_rule(g.hv, "v2ray"@);
    let ha = group_rule(g.ha, "aether"@);
    if contains_ci(g.hd, p) {
        lemma_group_fires(g.hd, "direct"@, p, port, network, is_private);
        assert((high_rules(g) + tail)[0] == hd[0]);
        lemma_first(high_rules(g) + tail, f, pp, port, network, is_private);
    } else {
        lemma_group_silent(g.hd, "direct"@, pp, port, network, is_private);
        assert(high_rules(g) + tail =~= hd + (hv + (ha + tail)));
        lemma_skip(hd, hv + (ha + tail), f, pp, port, network, is_private);
        if contains_ci(g.hv, p) {
            lemma_group_fires(g.hv, "v2ray"@, p, port, network, is_private);
            assert((hv + (ha + tail))[0] == hv[0]);
            lemma_first(hv + (ha + tail), f, pp, port, network, is_private);
        } else {
            lemma_group_silent(g.hv, "v2ray"@, pp, port, network, is_private);
            lemma_skip(hv, ha + tail, f, pp, port, network, is_private);
            lemma_group_fires(g.ha, "aether"@, p, port, network, is_private);
            assert((ha + tail)[0] == ha[0]);
            lemma_first(ha + tail, f, pp, port, network, is_private);
        }
    }
}

/// With no compatibility rules and the STUN/TURN fallback on, traffic on ports 3478 and
/// 5349 of any process without a high-priority rule goes direct (normal-priority rules
/// included).
pub proof fn law_stun_turn_fallback_goes_direct(
    c: SingBoxConfig,
    s: AppSettings,
    process: Option<Seq<char>>,
    port: u16,
    network: Option<Seq<char>>,
    is_private: bool,
)
    requires
        is_generated_for(c, s),
        s.compatibility.custom_compatibility_rules@.len() == 0,
        s.compatibility.generals_stun_turn_fallback,
        generals_stun_turn_ports().contains(port),
        not_high(groups_of(s), process),
    ensures
        resolve_spec(c, process, Some(port), network, is_private) == "direct"@,
{
    lemma_route_not_hijack();
    let g = groups_of(s);
    let f = "aether"@;
    let pt = Some(port);
    lemma_layout(s);
    let gen = generals_rules(true);
    let tail = normal_rules(g) + private_rules(s.compatibility.private_ip_bypass);
    let rules = generated_rules(s);
    let pre = hijack_rules() + seq![loop_rule()] + high_rules(g);
    assert(rules =~= pre + (gen + tail));
    assert(port != 53);
    lemma_hijack_silent(process, pt, network, is_private);
    let is_loop = process matches Some(p) && contains_ci(loop_prevention_processes(), p);
    if is_loop {
        let p = process->0;
        law_loop_prevention_goes_direct(c, s, p, pt, network, is_private);
    } else {
        lemma_loop_silent(process, pt, network, is_private);
        lemma_group_silent(g.hd, "direct"@, process, pt, network, is_private);
        lemma_group_silent(g.hv, "v2ray"@, process, pt, network, is_private);
        lemma_group_silent(g.ha, "aether"@, process, pt, network, is_private);
        let h = hijack_rules();
        let l = seq![loop_rule()];
        let hd = group_rule(g.hd, "direct"@);
        let hv = group_rule(g.hv, "v2ray"@);
        let ha = group_rule(g.ha, "aether"@);
        assert(pre =~= h + l + hd + hv + ha);
        lemma_none_fires_concat(h, l, process, pt, network, is_private);
        lemma_none_fires_concat(h + l, hd, process, pt, network, is_private);
        lemma_none_fires_concat(h + l + hd, hv, process, pt, network, is_private);
        lemma_none_fires_concat(h + l + hd + hv, ha, process, pt, network, is_private);
        lemma_skip(pre, gen + tail, f, process, pt, network, is_private);
        assert((gen + tail)[0] == gen[0]);
        assert(generals_stun_turn_ports().contains(port));
        assert(fires(gen[0], process, pt, network, is_private));
        lemma_first(gen + tail, f, process, pt, network, is_private);
    }
}

/// With no compatibility rules and the private bypass on, private traffic (not DNS) of a
/// process that no application rule routes goes direct.
pub proof fn law_private_network_goes_direct(
    c: SingBoxConfig,
    s: AppSettings,
    process: Option<Seq<char>>,
    port: Option<u16>,
    network: Option<Seq<char>>,
)
    requires
        is_generated_for(c, s),
        s.compatibility.custom_compatibility_rules@.len() == 0,
        s.compatibility.private_ip_bypass,
        port != Some(53u16),
        unassigned(groups_of(s), process),
    ensures
        resolve_spec(c, process, port, network, true) == "direct"@,
{
    lemma_route_not_hijack();
    let g = groups_of(s);
    let f = "aether"@;
    lemma_layout(s);
    let is_loop = process matches Some(p) && contains_ci(loop_prevention_processes(), p);
    let gen_hit = on_fallback_port(s, port);
    if is_loop {
        law_loop_prevention_goes_direct(c, s, process->0, port, network, true);
    } else if gen_hit {
        law_stun_turn_fallback_goes_direct(c, s, process, port->0, network, true);
    } else {
        let h = hijack_rules();
        let l = seq![loop_rule()];
        let hd = group_rule(g.hd, "direct"@);
        let hv = group_rule(g.hv, "v2ray"@);
        let ha = group_rule(g.ha, "aether"@);
        let gen = generals_rules(s.compatibility.generals_stun_turn_fallback);
        let nd = group_rule(g.nd, "direct"@);
        let nv = group_rule(g.nv, "v2ray"@);
        let na = group_rule(g.na, "aether"@);
        let pre = h + l + hd + hv + ha + gen + nd + nv + na;
        let pr = private_rules(true);
        assert(generated_rules(s) =~= pre + pr);
        lemma_hijack_silent(process, port, network, true);
        lemma_loop_silent(process, port, network, true);
        lemma_group_silent(g.hd, "direct"@, process, port, network, true);
        lemma_group_silent(g.hv, "v2ray"@, process, port, network, true);
        lemma_group_silent(g.ha, "aether"@, process, port, network, true);
        lemma_group_silent(g.nd, "direct"@, process, port, network, true);
        lemma_group_silent(g.nv, "v2ray"@, process, port, network, true);
        lemma_group_silent(g.na, "aether"@, process, port, network, true);
        assert(none_fires(gen, process, port, network, true)) by {
            if s.compatibility.generals_stun_turn_fallback {
                assert(gen.len() == 1);
                assert(!fires(gen[0], process, port, network, true));
            }
        }
        assert(none_fires(pre, process, port, network, true)) by {
            lemma_none_fires_concat(h, l, process, port, network, true);
            lemma_none_fires_concat(h + l, hd, process, port, network, true);
            lemma_none_fires_concat(h + l + hd, hv, process, port, network, true);
            lemma_none_fires_concat(h + l + hd + hv, ha, process, port, network, true);
            lemma_none_fires_concat(h + l + hd + hv + ha, gen, process, port, network, true);
            lemma_none_fires_concat(h + l + hd + hv + ha + gen, nd, process, port, network, true);
            lemma_none_fires_concat(h + l + hd + hv + ha + gen + nd, nv, process, port, network, true);
            lemma_none_fires_concat(h + l + hd + hv + ha + gen + nd + nv, na, process, port, network, true);
        }
        lemma_skip(pre, pr, f, process, port, network, true);
        assert(pr[0] == private_rule());
        lemma_first(pr, f, process, port, network, true);
    }
}

#[verifier::rlimit(60)]
#[verifier::spinoff_prover]
/// With no compatibility rules, a normal-priority application (no high-priority rule, not
/// a proxy binary) keeps its destination on every port but the DNS port and the STUN/TURN
/// fallback ports, private traffic included: the application tiers come before the
/// private-network bypass (the first normal group that routes it wins: direct, then v2ray,
/// then aether).
pub proof fn law_normal_priority_rule_applies(
    c: SingBoxConfig,
    s: AppSettings,
    p: Seq<char>,
    port: Option<u16>,
    network: Option<Seq<char>>,
    is_private: bool,
)
    requires
        is_generated_for(c, s),
        s.compatibility.custom_compatibility_rules@.len() == 0,
        !contains_ci(loop_prevention_processes(), p),
        port != Some(53u16),
        not_high(groups_of(s), Some(p)),
        !on_fallback_port(s, port),
        contains_ci(groups_of(s).nd, p) || contains_ci(groups_of(s).nv, p) || contains_ci(
            groups_of(s).na,
            p,
        ),
    ensures
        resolve_spec(c, Some(p), port, network, is_private) == (if contains_ci(
            groups_of(s).nd,
            p,
        ) {
            "direct"@
        } else if contains_ci(groups_of(s).nv, p) {
            "v2ray"@
        } else {
            "aether"@
        }),
{
    lemma_route_not_hijack();
    let g = groups_of(s);
    let f = "aether"@;
    let pp = Some(p);
    lemma_layout(s);
    let h = hijack_rules();
    let l = seq![loop_rule()];
    let hd = group_rule(g.hd, "direct"@);
    let hv = group_rule(g.hv, "v2ray"@);
    let ha = group_rule(g.ha, "aether"@);
    let gen = generals_rules(s.compatibility.generals_stun_turn_fallback);
    let nd = group_rule(g.nd, "direct"@);
    let nv = group_rule(g.nv, "v2ray"@);
    let na = group_rule(g.na, "aether"@);
    let pr = private_rules(s.compatibility.private_ip_bypass);
    let pre = h + l + hd + hv + ha + gen;
    assert(generated_rules(s) =~= pre + (nd + (nv + (na + pr))));
    lemma_hijack_silent(pp, port, network, is_private);
    lemma_loop_silent(pp, port, network, is_private);
    lemma_group_silent(g.hd, "direct"@, pp, port, network, is_private);
    lemma_group_silent(g.hv, "v2ray"@, pp, port, network, is_private);
    lemma_group_silent(g.ha, "aether"@, pp, port, network, is_private);
    assert(none_fires(gen, pp, port, network, is_private)) by {
        if s.compatibility.generals_stun_turn_fallback {
            assert(gen.len() == 1);
            assert(!fires(gen[0], pp, port, network, is_private));
        }
    }
    assert(none_fires(pre, pp, port, network, is_private)) by {
        lemma_none_fires_concat(h, l, pp, port, network, is_private);
        lemma_none_fires_concat(h + l, hd, pp, port, network, is_private);
        lemma_none_fires_concat(h + l + hd, hv, pp, port, network, is_private);
        lemma_none_fires_concat(h + l + hd + hv, ha, pp, port, network, is_private);
        lemma_none_fires_concat(h + l + hd + hv + ha, gen, pp, port, network, is_private);
    }
    lemma_skip(pre, nd + (nv + (na + pr)), f, pp, port, network, is_private);
    if contains_ci(g.nd, p) {
        lemma_group_fires(g.nd, "direct"@, p, port, network, is_private);
        assert((nd + (nv + (na + pr)))[0] == nd[0]);
        lemma_first(nd + (nv + (na + pr)), f, pp, port, network, is_private);
    } else {
        lemma_group_silent(g.nd, "direct"@, pp, port, network, is_private);
        lemma_skip(nd, nv + (na + pr), f, pp, port, network, is_private);
        if contains_ci(g.nv, p) {
            lemma_group_fires(g.nv, "v2ray"@, p, port, network, is_private);
            assert((nv + (na + pr))[0] == nv[0]);
            lemma_first(nv + (na + pr), f, pp, port, network, is_private);
        } else {
            lemma_group_silent(g.nv, "v2ray"@, pp, port, network, is_private);
            lemma_skip(nv, na + pr, f, pp, port, network, is_private);
            lemma_group_fires(g.na, "aether"@, p, port, network, is_private);
            assert((na + pr)[0] == na[0]);
            lemma_first(na + pr, f, pp, port, network, is_private);
        }
    }
}

/// Two lists in which no rule decides concatenate to one.
proof fn lemma_none_fires_concat(
    a: Seq<RouteRuleView>,
    b: Seq<RouteRuleView>,
    process: Option<Seq<char>>,
    port: Option<u16>,
    network: Option<Seq<char>>,
    is_private: bool,
)
    requires
        none_fires(a, process, port, network, is_private),
        none_fires(b, process, port, network, is_private),
    ensures
        none_fires(a + b, process, port, network, is_private),
{
    assert forall|j: int| 0 <= j < (a + b).len() implies !fires(#[trigger] (a + b)[j], process, port, network, is_private) by {
        if j < a.len() {
            assert((a + b)[j] == a[j]);
        } else {
            assert((a + b)[j] == b[j - a.len()]);
        }
    }
}

#[verifier::rlimit(60)]
#[verifier::spinoff_prover]
/// With no compatibility rules, traffic that no rule claims (no application rule routes the
/// process, not DNS, not a STUN/TURN port with the fallback on, not private with the bypass
/// on) takes the final outbound, Aether.
pub proof fn law_unmatched_traffic_goes_to_aether(
    c: SingBoxConfig,
    s: AppSettings,
    process: Option<Seq<char>>,
    port: Option<u16>,
    network: Option<Seq<char>>,
    is_private: bool,
)
    requires
        is_generated_for(c, s),
        s.compatibility.custom_compatibility_rules@.len() == 0,
        process matches Some(p) ==> !contains_ci(loop_prevention_processes(), p),
        port != Some(53u16),
        unassigned(groups_of(s), process),
        !on_fallback_port(s, port),
        !(s.compatibility.private_ip_bypass && is_private),
    ensures
        resolve_spec(c, process, port, network, is_private) == "aether"@,
{
    lemma_route_not_hijack();
    let g = groups_of(s);
    let f = "aether"@;
    lemma_layout(s);
    let h = hijack_rules();
    let l = seq![loop_rule()];
    let hd = group_rule(g.hd, "direct"@);
    let hv = group_rule(g.hv, "v2ray"@);
    let ha = group_rule(g.ha, "aether"@);
    let gen = generals_rules(s.compatibility.generals_stun_turn_fallback);
    let nd = group_rule(g.nd, "direct"@);
    let nv = group_rule(g.nv, "v2ray"@);
    let na = group_rule(g.na, "aether"@);
    let pr = private_rules(s.compatibility.private_ip_bypass);
    let all = h + l + hd + hv + ha + gen + nd + nv + na + pr;
    assert(generated_rules(s) =~= all);
    lemma_hijack_silent(process, port, network, is_private);
    lemma_loop_silent(process, port, network, is_private);
    lemma_group_silent(g.hd, "direct"@, process, port, network, is_private);
    lemma_group_silent(g.hv, "v2ray"@, process, port, network, is_private);
    lemma_group_silent(g.ha, "aether"@, process, port, network, is_private);
    lemma_group_silent(g.nd, "direct"@, process, port, network, is_private);
    lemma_group_silent(g.nv, "v2ray"@, process, port, network, is_private);
    lemma_group_silent(g.na, "aether"@, process, port, network, is_private);
    assert(none_fires(gen, process, port, network, is_private)) by {
        if s.compatibility.generals_stun_turn_fallback {
            assert(gen.len() == 1);
            assert(!fires(gen[0], process, port, network, is_private));
        }
    }
    assert(none_fires(pr, process, port, network, is_private)) by {
        if s.compatibility.private_ip_bypass {
            assert(pr.len() == 1);
            assert(pr[0] == private_rule());
        }
    }
    lemma_none_fires_concat(h, l, process, port, network, is_private);
    lemma_none_fires_concat(h + l, hd, process, port, network, is_private);
    lemma_none_fires_concat(h + l + hd, hv, process, port, network, is_private);
    lemma_none_fires_concat(h + l + hd + hv, ha, process, port, network, is_private);
    lemma_none_fires_concat(h + l + hd + hv + ha, gen, process, port, network, is_private);
    lemma_none_fires_concat(h + l + hd + hv + ha + gen, nd, process, port, network, is_private);
    lemma_none_fires_concat(h + l + hd + hv + ha + gen + nd, nv, process, port, network, is_private);
    lemma_none_fires_concat(h + l + hd + hv + ha + gen + nd + nv, na, process, port, network, is_private);
    lemma_none_fires_concat(h + l + hd + hv + ha + gen + nd + nv + na, pr, process, port, network, is_private);
    lemma_skip(all, Seq::empty(), f, process, port, network, is_private);
    assert(all + Seq::<RouteRuleView>::empty() =~= all);
}

/// A disabled compatibility rule inserted into a list adds no app-scoped and no global rule.
proof fn lemma_disabled_rule_adds_nothing(cs: Seq<CompatibilityRule>, k: int, c: CompatibilityRule)
    requires
        0 <= k <= cs.len(),
        !c.enabled,
    ensures
        app_scoped_rules(cs.insert(k, c)) == app_scoped_rules(cs),
        global_rules(cs.insert(k, c)) == global_rules(cs),
    decreases cs.len(),
{
    let ins = cs.insert(k, c);
    if k == cs.len() {
        assert(ins.drop_last() =~= cs);
        assert(ins.last() == c);
    } else {
        let d = cs.drop_last();
        lemma_disabled_rule_adds_nothing(d, k, c);
        assert(ins.drop_last() =~= d.insert(k, c));
        assert(ins.last() == cs.last());
        assert(cs.drop_last() == d);
    }
}

/// Disabled compatibility rules are ignored: inserting a disabled compatibility rule
/// anywhere in the settings changes no generated route rule, so every packet resolves the
/// same way in the configurations generated before and after.
pub proof fn law_disabled_compatibility_rule_is_ignored(
    s: AppSettings,
    s2: AppSettings,
    k: int,
    c: CompatibilityRule,
    c1: SingBoxConfig,
    c2: SingBoxConfig,
    process: Option<Seq<char>>,
    port: Option<u16>,
    network: Option<Seq<char>>,
    is_private: bool,
)
    requires
        !c.enabled,
        0 <= k <= s.compatibility.custom_compatibility_rules@.len(),
        s2.compatibility.custom_compatibility_rules@ == s.compatibility.custom_compatibility_rules@.insert(k, c),
        s2.application_rules@ == s.application_rules@,
        s2.compatibility.generals_stun_turn_fallback == s.compatibility.generals_stun_turn_fallback,
        s2.compatibility.private_ip_bypass == s.compatibility.private_ip_bypass,
        is_generated_for(c1, s),
        is_generated_for(c2, s2),
    ensures
        generated_rules(s2) == generated_rules(s),
        resolve_spec(c2, process, port, network, is_private) == resolve_spec(c1, process, port, network, is_private),
{
    lemma_disabled_rule_adds_nothing(s.compatibility.custom_compatibility_rules@, k, c);
}

/// A rule with its network selector removed.
pub open spec fn without_network(r: RouteRuleView) -> RouteRuleView {
    RouteRuleView { network: None, ..r }
}

/// The rules with every network selector removed.
pub open spec fn without_networks(rules: Seq<RouteRuleView>) -> Seq<RouteRuleView> {
    rules.map_values(|r: RouteRuleView| without_network(r))
}

/// Resolution with an unknown network over rules and over the same rules without their
/// network selectors agree from every position.
proof fn lemma_unknown_network_ignores_selectors(
    rules: Seq<RouteRuleView>,
    i: int,
    f: Seq<char>,
    process: Option<Seq<char>>,
    port: Option<u16>,
    is_private: bool,
)
    requires
        0 <= i <= rules.len(),
    ensures
        resolve_from(rules, i, f, process, port, None, is_private) == resolve_from(
            without_networks(rules),
            i,
            f,
            process,
            port,
            None,
            is_private,
        ),
    decreases rules.len() - i,
{
    if i < rules.len() {
        lemma_unknown_network_ignores_selectors(rules, i + 1, f, process, port, is_private);
        assert(without_networks(rules)[i] == without_network(rules[i]));
    }
}

/// When a packet's network is unknown, the rules' network selectors play no part: it
/// resolves exactly as in a configuration whose rules are the same but carry no network
/// selector, so a rule whose process and port conditions hold decides it whatever network
/// the rule names.
pub proof fn law_unknown_network_matches_any_selector(
    c: SingBoxConfig,
    c2: SingBoxConfig,
    process: Option<Seq<char>>,
    port: Option<u16>,
    is_private: bool,
)
    requires
        rule_views(c2.route.rules@) == without_networks(rule_views(c.route.rules@)),
        c2.route.final_outbound@ == c.route.final_outbound@,
    ensures
        resolve_spec(c, process, port, None, is_private) == resolve_spec(c2, process, port, None, is_private),
{
    lemma_unknown_network_ignores_selectors(
        rule_views(c.route.rules@),
        0,
        c.route.final_outbound@,
        process,
        port,
        is_private,
    );
}

} // verus!
