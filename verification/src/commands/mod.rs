//! Values exchanged with the interface, and the decisions of the interface commands.
use vstd::prelude::*;
use crate::models::health::CloudflareTrace;
use crate::models::settings::SecondaryProxyProfile;
use crate::routing::generator::text_eq;
use crate::routing::secondary::{
    decode_strict, pairs_view, parse_subscription_payload, parse_url, percent_decoded_strict,
    profiles_view, subscription_result, subscription_spec, text_from_utf8, url_parse_result,
    utf8_text, UrlView,
};
use crate::text::{chars_of, decimal, decimal_string, str_to_string, to_lowercase, trim, trim_str, unicode_lowercase};

pub mod secondary_test;
pub mod settings_write;
pub mod shell;

verus! {

/// Whether the configured engine binaries exist.
#[derive(Debug, Clone)]
pub struct BinaryValidationResult {
    pub aether_exists: bool,
    pub aether_path: String,
    pub singbox_exists: bool,
    pub singbox_path: String,
}

/// What a chosen executable is.
#[derive(Debug, Clone)]
pub struct ExecutableInspection {
    pub display_name: String,
    pub process_name: String,
    pub executable_path: String,
    pub icon_base64: Option<String>,
}

/// The profiles of an updated subscription.
#[derive(Debug, Clone)]
pub struct SecondarySubscriptionUpdate {
    pub profiles: Vec<SecondaryProxyProfile>,
    pub skipped: usize,
}

/// The result of testing one subscription profile.
#[derive(Debug, Clone)]
pub struct SecondaryProfilePing {
    pub index: usize,
    pub ok: bool,
    pub latency_ms: Option<u64>,
    pub ip: Option<String>,
    pub colo: Option<String>,
    pub error: Option<String>,
}

/// The ping result of the profile at `index`: its figures when the test passed, else its
/// error.
pub fn profile_ping(index: usize, result: Result<CloudflareTrace, String>) -> (r: SecondaryProfilePing)
    ensures
        r.index == index,
        r.ok == result is Ok,
        match result {
            Ok(t) => r.latency_ms == Some(t.latency_ms) && r.ip == Some(t.ip) && r.colo == Some(t.colo)
                && r.error is None,
            Err(e) => r.latency_ms is None && r.ip is None && r.colo is None && r.error == Some(e),
        },
{
    match result {
        Ok(t) => SecondaryProfilePing {
            index,
            ok: true,
            latency_ms: Some(t.latency_ms),
            ip: Some(t.ip),
            colo: Some(t.colo),
            error: None,
        },
        Err(e) => SecondaryProfilePing {
            index,
            ok: false,
            latency_ms: None,
            ip: None,
            colo: None,
            error: Some(e),
        },
    }
}

/// Ping All accepts between one and 200 profiles.
pub fn ping_all_precheck(count: usize) -> (r: Result<(), String>)
    ensures
        count == 0 ==> (r matches Err(m) && m@ == "Update the subscription before running Ping All."@),
        count > 200 ==> (r matches Err(m) && m@ == "Ping All supports at most 200 profiles."@),
        1 <= count <= 200 ==> r is Ok,
{
    if count == 0 {
        return Err(str_to_string("Update the subscription before running Ping All."));
    }
    if count > 200 {
        return Err(str_to_string("Ping All supports at most 200 profiles."));
    }
    Ok(())
}

/// The sorted order of ping results: by profile index, an insertion from the back.
pub open spec fn sorted_by_index(s: Seq<SecondaryProfilePing>) -> bool {
    forall|i: int, j: int| 0 <= i < j < s.len() ==> s[i].index <= s[j].index
}

/// Ping results ordered by profile index (`sort_by_key`, stable).
pub fn sort_pings_by_index(results: Vec<SecondaryProfilePing>) -> (r: Vec<SecondaryProfilePing>)
    ensures
        sorted_by_index(r@),
        r@.to_multiset() == results@.to_multiset(),
{
    let ghost orig = results@;
    let n = results.len();
    let mut results = results;
    let mut out: Vec<SecondaryProfilePing> = Vec::new();
    let mut k: usize = 0;
    proof {
        vstd::seq_lib::lemma_multiset_commutative(Seq::<SecondaryProfilePing>::empty(), orig);
        assert(orig.skip(0) =~= orig);
        assert(Seq::<SecondaryProfilePing>::empty() + orig =~= orig);
    }
    while k < n
        invariant
            n == orig.len(),
            k <= n,
            results@ == orig.skip(k as int),
            sorted_by_index(out@),
            out@.to_multiset().add(results@.to_multiset()) == orig.to_multiset(),
        decreases n - k,
    {
        let ghost before = results@;
        let x = results.remove(0);
        proof {
            assert(results@ =~= before.subrange(1, before.len() as int));
            assert(results@ =~= orig.skip(k + 1));
            assert(before =~= seq![x] + results@);
            vstd::seq_lib::lemma_multiset_commutative(seq![x], results@);
        }
        let mut j: usize = out.len();
        while j > 0 && out[j - 1].index > x.index
            invariant
                j <= out@.len(),
                sorted_by_index(out@),
                forall|i: int| j <= i < out@.len() ==> out@[i].index > x.index,
            decreases j,
        {
            j = j - 1;
        }
        let ghost old_out = out@;
        out.insert(j, x);
        proof {
            assert(out@ =~= old_out.take(j as int) + seq![x] + old_out.skip(j as int));
            assert forall|a: int, b: int| 0 <= a < b < out@.len() implies out@[a].index <= out@[b].index by {
                if a < j && b > j {
                    assert(out@[a] == old_out[a]);
                    assert(out@[b] == old_out[b - 1]);
                } else if a < j && b == j {
                    assert(out@[a] == old_out[a]);
                    if j > 0 {
                        assert(old_out[j - 1].index <= x.index);
                        assert(old_out[a].index <= old_out[j - 1].index);
                    }
                } else if a == j {
                    assert(out@[b] == old_out[b - 1]);
                } else if a < j && b < j {
                    assert(out@[a] == old_out[a]);
                    assert(out@[b] == old_out[b]);
                } else {
                    assert(out@[a] == old_out[a - 1]);
                    assert(out@[b] == old_out[b - 1]);
                }
            }
            vstd::seq_lib::lemma_multiset_commutative(old_out.take(j as int), seq![x]);
            vstd::seq_lib::lemma_multiset_commutative(old_out.take(j as int) + seq![x], old_out.skip(j as int));
            vstd::seq_lib::lemma_multiset_commutative(old_out.take(j as int), old_out.skip(j as int));
            assert(old_out =~= old_out.take(j as int) + old_out.skip(j as int));
        }
        k = k + 1;
    }
    proof {
        assert(results@ =~= Seq::<SecondaryProfilePing>::empty());
    }
    out
}

/// The exported log text with Windows line endings: kept when it already has `\r\n`,
/// else every `\n` becomes `\r\n`.
pub open spec fn crlf_text(s: Seq<char>) -> Seq<char> {
    if crate::text::contains_text(s, "\r\n"@) {
        s
    } else {
        lf_to_crlf(s)
    }
}

/// Every `\n` replaced by `\r\n`.
pub open spec fn lf_to_crlf(s: Seq<char>) -> Seq<char>
    decreases s.len(),
{
    if s.len() == 0 {
        s
    } else if s.last() == '\n' {
        lf_to_crlf(s.drop_last()) + seq!['\r', '\n']
    } else {
        lf_to_crlf(s.drop_last()).push(s.last())
    }
}

/// The exported log text with Windows line endings.
pub fn logs_with_crlf(raw: &str) -> (r: String)
    ensures
        r@ == crlf_text(raw@),
{
    let c = chars_of(raw);
    if crate::text::contains_exec(&c, &chars_of("\r\n")) {
        return str_to_string(raw);
    }
    let mut out: Vec<char> = Vec::new();
    let mut k: usize = 0;
    while k < c.len()
        invariant
            k <= c@.len(),
            out@ == lf_to_crlf(c@.take(k as int)),
        decreases c@.len() - k,
    {
        proof {
            assert(c@.take(k + 1).drop_last() =~= c@.take(k as int));
        }
        if c[k] == '\n' {
            out.push('\r');
            out.push('\n');
            proof {
                assert(out@ =~= lf_to_crlf(c@.take(k as int)) + seq!['\r', '\n']);
            }
        } else {
            out.push(c[k]);
        }
        k = k + 1;
    }
    proof {
        assert(c@.take(k as int) =~= c@);
    }
    crate::text::string_of(&out)
}

// ---------------------------------------------------------------------------
// Xray test configuration
// ---------------------------------------------------------------------------

/// Reality settings of an Xray test outbound.
#[derive(Debug, Clone)]
pub struct XrayReality {
    pub server_name: String,
    pub fingerprint: String,
    pub public_key: String,
    pub short_id: String,
    pub spider_x: String,
}

/// TLS settings of an Xray test outbound.
#[derive(Debug, Clone)]
pub struct XrayTls {
    pub server_name: String,
    pub fingerprint: String,
}

/// WebSocket settings of an Xray test outbound.
#[derive(Debug, Clone)]
pub struct XrayWebSocket {
    pub path: String,
    pub host: String,
}

/// An Xray configuration that serves a VLESS link on a local mixed inbound
/// (`127.0.0.1:local_port`), as a JSON document describes it.
#[derive(Debug, Clone)]
pub struct XrayTestConfig {
    pub local_port: u16,
    pub address: String,
    pub port: u16,
    pub id: String,
    /// `null` in the document when empty.
    pub flow: Option<String>,
    /// `ws`, `xhttp` or `raw`.
    pub network: String,
    pub security: String,
    pub reality: Option<XrayReality>,
    pub tls: Option<XrayTls>,
    pub ws: Option<XrayWebSocket>,
}

/// Value of a query parameter, the key compared in Unicode lower case; a later pair wins.
pub open spec fn uquery_get(q: Seq<(Seq<char>, Seq<char>)>, key: Seq<char>) -> Option<Seq<char>>
    decreases q.len(),
{
    if q.len() == 0 {
        None
    } else if unicode_lowercase(q.last().0) == key {
        Some(q.last().1)
    } else {
        uquery_get(q.drop_last(), key)
    }
}

/// A value, or a default.
pub open spec fn or_default(o: Option<Seq<char>>, d: Seq<char>) -> Seq<char> {
    match o {
        Some(x) => x,
        None => d,
    }
}

/// The first value that is present.
pub open spec fn first_some(a: Option<Seq<char>>, b: Option<Seq<char>>) -> Option<Seq<char>> {
    match a {
        Some(x) => Some(x),
        None => b,
    }
}

/// Model of the test configuration.
#[verifier::ext_equal]
pub struct XrayView {
    pub local_port: u16,
    pub address: Seq<char>,
    pub port: u16,
    pub id: Seq<char>,
    pub flow: Option<Seq<char>>,
    pub network: Seq<char>,
    pub security: Seq<char>,
    /// server name, fingerprint, public key, short id, spider X
    pub reality: Option<(Seq<char>, Seq<char>, Seq<char>, Seq<char>, Seq<char>)>,
    /// server name, fingerprint
    pub tls: Option<(Seq<char>, Seq<char>)>,
    /// path, host
    pub ws: Option<(Seq<char>, Seq<char>)>,
}

/// Model of optional text.
pub open spec fn text_of(o: Option<String>) -> Option<Seq<char>> {
    match o {
        Some(s) => Some(s@),
        None => None,
    }
}

/// Model of the test configuration.
pub open spec fn xray_view(c: XrayTestConfig) -> XrayView {
    XrayView {
        local_port: c.local_port,
        address: c.address@,
        port: c.port,
        id: c.id@,
        flow: text_of(c.flow),
        network: c.network@,
        security: c.security@,
        reality: match c.reality {
            Some(r) => Some((r.server_name@, r.fingerprint@, r.public_key@, r.short_id@, r.spider_x@)),
            None => None,
        },
        tls: match c.tls {
            Some(t) => Some((t.server_name@, t.fingerprint@)),
            None => None,
        },
        ws: match c.ws {
            Some(w) => Some((w.path@, w.host@)),
            None => None,
        },
    }
}

/// The Xray test configuration of a VLESS link: none for other links, links that do not
/// parse, links without a host or with an undecodable user, and Reality links without a
/// public key.
pub open spec fn xray_config_spec(link: Seq<char>, local_port: u16) -> Option<XrayView> {
    if !crate::text::starts_with(link, "vless://"@) {
        None
    } else {
        match url_parse_result(link) {
            Err(_) => None,
            Ok(u) => match u.host {
                None => None,
                Some(host) => match percent_decoded_strict(u.username) {
                    None => None,
                    Some(id) => {
                        let q = u.query;
                        let security = or_default(uquery_get(q, "security"@), "none"@);
                        let flow = or_default(uquery_get(q, "flow"@), Seq::empty());
                        let kind = or_default(uquery_get(q, "type"@), "tcp"@);
                        let is_ws = kind == "ws"@ || kind == "websocket"@;
                        let network = if is_ws {
                            "ws"@
                        } else if kind == "xhttp"@ {
                            "xhttp"@
                        } else {
                            "raw"@
                        };
                        let sni = or_default(
                            first_some(uquery_get(q, "sni"@), uquery_get(q, "servername"@)),
                            host,
                        );
                        let fp = or_default(uquery_get(q, "fp"@), "chrome"@);
                        let pbk = first_some(uquery_get(q, "pbk"@), uquery_get(q, "publickey"@));
                        if security == "reality"@ && pbk is None {
                            None
                        } else {
                            Some(
                                XrayView {
                                    local_port,
                                    address: host,
                                    port: match u.port {
                                        Some(p) => p,
                                        None => 443,
                                    },
                                    id,
                                    flow: if flow.len() == 0 {
                                        None
                                    } else {
                                        Some(flow)
                                    },
                                    network,
                                    security,
                                    reality: if security == "reality"@ {
                                        Some(
                                            (
                                                sni,
                                                fp,
                                                pbk.unwrap(),
                                                or_default(
                                                    first_some(
                                                        uquery_get(q, "sid"@),
                                                        uquery_get(q, "shortid"@),
                                                    ),
                                                    Seq::empty(),
                                                ),
                                                or_default(uquery_get(q, "spx"@), Seq::empty()),
                                            ),
                                        )
                                    } else {
                                        None
                                    },
                                    tls: if security == "tls"@ {
                                        Some((sni, fp))
                                    } else {
                                        None
                                    },
                                    ws: if is_ws {
                                        Some(
                                            (
                                                or_default(uquery_get(q, "path"@), "/"@),
                                                or_default(uquery_get(q, "host"@), host),
                                            ),
                                        )
                                    } else {
                                        None
                                    },
                                },
                            )
                        }
                    },
                },
            },
        }
    }
}

fn uquery_value(q: &Vec<(String, String)>, key: &str) -> (r: Option<String>)
    ensures
        text_of(r) == uquery_get(pairs_view(q@), key@),
{
    let ghost qv = pairs_view(q@);
    let mut i: usize = q.len();
    proof {
        assert(qv.take(i as int) =~= qv);
    }
    while i > 0
        invariant
            i <= q@.len(),
            qv == pairs_view(q@),
            qv.len() == q@.len(),
            uquery_get(qv.take(i as int), key@) == uquery_get(qv, key@),
        decreases i,
    {
        let lower = to_lowercase(q[i - 1].0.as_str());
        proof {
            assert(qv.take(i as int).drop_last() =~= qv.take(i - 1));
            assert(qv.take(i as int).last() == qv[i - 1]);
        }
        if text_eq(lower.as_str(), key) {
            return Some(q[i - 1].1.clone());
        }
        i = i - 1;
    }
    proof {
        assert(qv.take(0) =~= Seq::<(Seq<char>, Seq<char>)>::empty());
    }
    None
}

fn value_or(o: Option<String>, d: &str) -> (r: String)
    ensures
        r@ == or_default(text_of(o), d@),
{
    match o {
        Some(x) => x,
        None => str_to_string(d),
    }
}

fn first_some_exec(a: Option<String>, b: Option<String>) -> (r: Option<String>)
    ensures
        text_of(r) == first_some(text_of(a), text_of(b)),
{
    match a {
        Some(x) => Some(x),
        None => b,
    }
}

/// The Xray test configuration of a VLESS link, serving it on `127.0.0.1:port`.
#[verifier::rlimit(60)]
#[verifier::spinoff_prover]
pub fn build_xray_test_config(link: &str, port: u16) -> (r: Option<XrayTestConfig>)
    ensures
        match r {
            Some(c) => xray_config_spec(link@, port) == Some(xray_view(c)),
            None => xray_config_spec(link@, port) is None,
        },
{
    let lc = chars_of(link);
    if !crate::text::starts_with_exec(&lc, &chars_of("vless://")) {
        return None;
    }
    let url = match parse_url(link) {
        Ok(u) => u,
        Err(_) => return None,
    };
    let host = match &url.host {
        Some(h) => h.clone(),
        None => return None,
    };
    let id = match decode_strict(url.username.as_str()) {
        Some(x) => x,
        None => return None,
    };
    let q = &url.query;
    let security = value_or(uquery_value(q, "security"), "none");
    let flow = value_or(uquery_value(q, "flow"), "");
    let kind = value_or(uquery_value(q, "type"), "tcp");
    proof {
        reveal_strlit("");
    }
    let is_ws = text_eq(kind.as_str(), "ws") || text_eq(kind.as_str(), "websocket");
    let network = if is_ws {
        str_to_string("ws")
    } else if text_eq(kind.as_str(), "xhttp") {
        str_to_string("xhttp")
    } else {
        str_to_string("raw")
    };
    let sni = value_or(
        first_some_exec(uquery_value(q, "sni"), uquery_value(q, "servername")),
        host.as_str(),
    );
    let fp = value_or(uquery_value(q, "fp"), "chrome");
    let pbk = first_some_exec(uquery_value(q, "pbk"), uquery_value(q, "publickey"));
    let is_reality = text_eq(security.as_str(), "reality");
    let is_tls = text_eq(security.as_str(), "tls");
    if is_reality && pbk.is_none() {
        return None;
    }
    let reality = if is_reality {
        let short_id = value_or(first_some_exec(uquery_value(q, "sid"), uquery_value(q, "shortid")), "");
        let spider_x = value_or(uquery_value(q, "spx"), "");
        let public_key = match pbk {
            Some(k) => k,
            None => String::new(),
        };
        Some(XrayReality {
            server_name: sni.clone(),
            fingerprint: fp.clone(),
            public_key,
            short_id,
            spider_x,
        })
    } else {
        None
    };
    let tls = if is_tls {
        Some(XrayTls { server_name: sni, fingerprint: fp })
    } else {
        None
    };
    let ws = if is_ws {
        Some(XrayWebSocket {
            path: value_or(uquery_value(q, "path"), "/"),
            host: value_or(uquery_value(q, "host"), host.as_str()),
        })
    } else {
        None
    };
    let flow_opt = if flow.as_str().unicode_len() == 0 {
        None
    } else {
        Some(flow)
    };
    let server_port: u16 = match url.port {
        Some(p) => p,
        None => 443,
    };
    let config = XrayTestConfig {
        local_port: port,
        address: host,
        port: server_port,
        id,
        flow: flow_opt,
        network,
        security,
        reality,
        tls,
        ws,
    };
    proof {
        assert(xray_config_spec(link@, port) =~= Some(xray_view(config)));
    }
    Some(config)
}


// ---------------------------------------------------------------------------
// Subscription download
// ---------------------------------------------------------------------------

/// The largest subscription response accepted, in bytes (4 MiB).
pub const MAX_SUBSCRIPTION_BYTES: usize = 4194304;

/// The URL to download a subscription from: the trimmed text must parse as a URL with the
/// `http` or `https` scheme; the URL is returned as the parser serializes it.
pub open spec fn subscription_url_spec(raw: Seq<char>) -> Result<Seq<char>, Seq<char>> {
    match url_parse_result(trim(raw)) {
        Err(_) => Err("Enter a valid HTTP or HTTPS subscription URL."@),
        Ok(u) => if u.scheme != "http"@ && u.scheme != "https"@ {
            Err("Subscription URL must use HTTP or HTTPS."@)
        } else {
            Ok(u.serialization)
        },
    }
}

/// Checks a subscription URL and returns it as the parser serializes it.
pub fn check_subscription_url(raw: &str) -> (r: Result<String, String>)
    ensures
        match r {
            Ok(u) => subscription_url_spec(raw@) == Ok::<Seq<char>, Seq<char>>(u@),
            Err(e) => subscription_url_spec(raw@) == Err::<Seq<char>, Seq<char>>(e@),
        },
{
    let trimmed = trim_str(raw);
    match parse_url(trimmed.as_str()) {
        Err(_) => Err(str_to_string("Enter a valid HTTP or HTTPS subscription URL.")),
        Ok(u) => {
            if !text_eq(u.scheme.as_str(), "http") && !text_eq(u.scheme.as_str(), "https") {
                Err(str_to_string("Subscription URL must use HTTP or HTTPS."))
            } else {
                Ok(u.serialization)
            }
        },
    }
}

/// The error of a subscription request that got no response.
pub fn subscription_request_error(is_timeout: bool) -> (r: String)
    ensures
        is_timeout ==> r@ == "Subscription request timed out."@,
        !is_timeout ==> r@ == "Subscription request failed."@,
{
    if is_timeout {
        str_to_string("Subscription request timed out.")
    } else {
        str_to_string("Subscription request failed.")
    }
}

/// What a subscription response's head allows: a 2xx status, and no announced length above
/// the limit.
pub open spec fn subscription_response_spec(status: u16, content_length: Option<u64>) -> Result<(), Seq<char>> {
    if !(200 <= status <= 299) {
        Err("Subscription server returned HTTP "@ + decimal(status as nat) + "."@)
    } else if content_length matches Some(n) && n > MAX_SUBSCRIPTION_BYTES {
        Err("Subscription response exceeds the 4 MiB limit."@)
    } else {
        Ok(())
    }
}

/// Checks the status and the announced length of a subscription response.
pub fn check_subscription_response(status: u16, content_length: Option<u64>) -> (r: Result<(), String>)
    ensures
        match r {
            Ok(()) => subscription_response_spec(status, content_length) == Ok::<(), Seq<char>>(()),
            Err(e) => subscription_response_spec(status, content_length) == Err::<(), Seq<char>>(e@),
        },
{
    if status < 200 || status > 299 {
        let mut m = str_to_string("Subscription server returned HTTP ");
        let d = decimal_string(status as u64);
        m.append(d.as_str());
        m.append(".");
        return Err(m);
    }
    match content_length {
        Some(n) => if n > MAX_SUBSCRIPTION_BYTES as u64 {
            return Err(str_to_string("Subscription response exceeds the 4 MiB limit."));
        },
        None => {},
    }
    Ok(())
}

/// Adds a received chunk to a subscription body, unless the body would then exceed the
/// limit, in which case the body is left as it was and the download fails.
pub fn append_subscription_chunk(body: &mut Vec<u8>, chunk: &[u8]) -> (r: Result<(), String>)
    ensures
        old(body)@.len() + chunk@.len() > MAX_SUBSCRIPTION_BYTES ==> final(body)@ == old(body)@
            && (r matches Err(e) && e@ == "Subscription response exceeds the 4 MiB limit."@),
        old(body)@.len() + chunk@.len() <= MAX_SUBSCRIPTION_BYTES ==> final(body)@ == old(body)@
            + chunk@ && r is Ok,
{
    let n = body.len();
    let c = chunk.len();
    if c > MAX_SUBSCRIPTION_BYTES || n > MAX_SUBSCRIPTION_BYTES - c {
        return Err(str_to_string("Subscription response exceeds the 4 MiB limit."));
    }
    let mut k: usize = 0;
    while k < c
        invariant
            c == chunk@.len(),
            k <= c,
            body@ == old(body)@ + chunk@.take(k as int),
        decreases c - k,
    {
        body.push(chunk[k]);
        proof {
            assert(chunk@.take(k + 1) =~= chunk@.take(k as int).push(chunk@[k as int]));
        }
        k = k + 1;
    }
    proof {
        assert(chunk@.take(c as int) =~= chunk@);
    }
    Ok(())
}

/// What a downloaded subscription body gives: invalid UTF-8 is refused, the text is parsed
/// as a subscription.
pub open spec fn subscription_body_spec(body: Seq<u8>) -> Result<(Seq<(Seq<char>, Seq<char>)>, nat), Seq<char>> {
    match utf8_text(body) {
        None => Err("Subscription response is not valid UTF-8 text."@),
        Some(t) => subscription_spec(t),
    }
}

/// Model of a subscription update.
pub open spec fn update_result(r: Result<SecondarySubscriptionUpdate, String>) -> Result<
    (Seq<(Seq<char>, Seq<char>)>, nat),
    Seq<char>,
> {
    match r {
        Ok(u) => Ok((profiles_view(u.profiles@), u.skipped as nat)),
        Err(e) => Err(e@),
    }
}

/// The profiles of a downloaded subscription body.
pub fn subscription_update_from_body(body: Vec<u8>) -> (r: Result<SecondarySubscriptionUpdate, String>)
    ensures
        update_result(r) == subscription_body_spec(body@),
{
    let text = match text_from_utf8(body) {
        None => return Err(str_to_string("Subscription response is not valid UTF-8 text.")),
        Some(t) => t,
    };
    match parse_subscription_payload(text.as_str()) {
        Err(e) => Err(e),
        Ok(p) => Ok(SecondarySubscriptionUpdate { profiles: p.profiles, skipped: p.skipped }),
    }
}

} // verus!
