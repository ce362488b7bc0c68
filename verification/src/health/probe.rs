//! Decisions of the health probes: Cloudflare trace parsing, request-error classification,
//! the endpoint sweeps, latency sampling, the staged egress verification, TUN adapter
//! matching and the health report.
//!
//! The network requests themselves are made by the caller, which hands the observations
//! over as plain values.
use vstd::prelude::*;
use crate::models::health::{
    insufficient_samples_message, CloudflareTrace, HealthStatus, LatencyProfile, ServiceHealth,
};
use crate::routing::generator::text_eq;
use crate::routing::secondary::split_once_char;
use crate::text::{
    chars_of, contains_text, decimal, decimal_string, lines_exec, lines_of, str_to_string,
    string_of, texts_of, trim, trim_chars,
};

verus! {

// ---------------------------------------------------------------------------
// Cloudflare trace
// ---------------------------------------------------------------------------

/// The trimmed value of the last `key=value` line whose trimmed key is `key`; empty when
/// there is none.
pub open spec fn trace_value(lines: Seq<Seq<char>>, key: Seq<char>) -> Seq<char>
    decreases lines.len(),
{
    if lines.len() == 0 {
        Seq::empty()
    } else {
        match split_once_char(lines.last(), '=') {
            Some((k, v)) => if trim(k) == key {
                trim(v)
            } else {
                trace_value(lines.drop_last(), key)
            },
            None => trace_value(lines.drop_last(), key),
        }
    }
}

/// Model of a trace.
pub struct TraceView {
    pub ip: Seq<char>,
    pub warp: Seq<char>,
    pub colo: Seq<char>,
    pub loc: Seq<char>,
    pub latency_ms: u64,
}

/// Model of a trace.
pub open spec fn trace_view(t: CloudflareTrace) -> TraceView {
    TraceView { ip: t.ip@, warp: t.warp@, colo: t.colo@, loc: t.loc@, latency_ms: t.latency_ms }
}

/// Model of a trace result.
pub open spec fn trace_result(r: Result<CloudflareTrace, String>) -> Result<TraceView, Seq<char>> {
    match r {
        Ok(t) => Ok(trace_view(t)),
        Err(e) => Err(e@),
    }
}

/// The message of a trace without an address.
pub open spec fn missing_ip_message() -> Seq<char> {
    "Invalid Cloudflare trace response: missing IP address"@
}

/// What a trace body reads as: the `ip`, `warp`, `colo` and `loc` lines; the address is
/// required.
pub open spec fn trace_body_spec(body: Seq<char>, latency_ms: u64) -> Result<TraceView, Seq<char>> {
    let ls = lines_of(body);
    let ip = trace_value(ls, "ip"@);
    if ip.len() == 0 {
        Err(missing_ip_message())
    } else {
        Ok(
            TraceView {
                ip,
                warp: trace_value(ls, "warp"@),
                colo: trace_value(ls, "colo"@),
                loc: trace_value(ls, "loc"@),
                latency_ms,
            },
        )
    }
}

/// The health probes: trace parsing, request-error reports, and the decisions taken on
/// what the network observations said.
#[derive(Debug, Clone, Copy)]
pub struct HealthProber;

impl HealthProber {
    /// Parses the `key=value` lines of a Cloudflare `cdn-cgi/trace` body.
    pub fn parse_trace_body(body: &str, latency_ms: u64) -> (r: Result<CloudflareTrace, String>)
        ensures
            trace_result(r) == trace_body_spec(body@, latency_ms),
    {
        let chars = chars_of(body);
        let lines = lines_exec(&chars);
        let ghost lv = texts_of(lines@);
        let mut ip: Vec<char> = Vec::new();
        let mut warp: Vec<char> = Vec::new();
        let mut colo: Vec<char> = Vec::new();
        let mut loc: Vec<char> = Vec::new();
        let mut k: usize = 0;
        while k < lines.len()
            invariant
                k <= lines@.len(),
                lv == texts_of(lines@),
                ip@ == trace_value(lv.take(k as int), "ip"@),
                warp@ == trace_value(lv.take(k as int), "warp"@),
                colo@ == trace_value(lv.take(k as int), "colo"@),
                loc@ == trace_value(lv.take(k as int), "loc"@),
            decreases lines@.len() - k,
        {
            proof {
                assert(lv.take(k + 1).drop_last() =~= lv.take(k as int));
                assert(lv.take(k + 1).last() == lines@[k as int]@);
            }
            let line = lines[k].as_slice();
            match crate::text::find_char_exec(line, '=', 0) {
                Some(i) => {
                    let n = line.len();
                    let key_part = crate::text::slice_chars(line, 0, i);
                    let value_part = crate::text::slice_chars(line, i + 1, n);
                    let key = string_of(&trim_chars(&key_part));
                    let value = trim_chars(&value_part);
                    proof {
                        reveal_strlit("ip");
                        reveal_strlit("warp");
                        reveal_strlit("colo");
                        reveal_strlit("loc");
                        assert("ip"@.len() == 2 && "warp"@.len() == 4 && "colo"@.len() == 4
                            && "loc"@.len() == 3);
                        assert("warp"@[0] == 'w' && "colo"@[0] == 'c');
                        assert("warp"@ != "colo"@);
                    }
                    if text_eq(key.as_str(), "ip") {
                        ip = value;
                    } else if text_eq(key.as_str(), "warp") {
                        warp = value;
                    } else if text_eq(key.as_str(), "colo") {
                        colo = value;
                    } else if text_eq(key.as_str(), "loc") {
                        loc = value;
                    }
                },
                None => {},
            }
            k = k + 1;
        }
        proof {
            assert(lv.take(k as int) =~= lv);
        }
        if ip.len() == 0 {
            return Err(str_to_string("Invalid Cloudflare trace response: missing IP address"));
        }
        Ok(
            CloudflareTrace {
                ip: string_of(&ip),
                warp: string_of(&warp),
                colo: string_of(&colo),
                loc: string_of(&loc),
                latency_ms,
            },
        )
    }
}

// ---------------------------------------------------------------------------
// Request errors
// ---------------------------------------------------------------------------

/// What a failed HTTP request reports about itself: its kind flags, the HTTP status (as
/// displayed) when there is one, the display texts of its chain of sources, and its own
/// display text.
#[derive(Debug, Clone)]
pub struct RequestErrorFacts {
    pub is_connect: bool,
    pub is_timeout: bool,
    pub is_request: bool,
    pub is_builder: bool,
    pub status: Option<String>,
    pub chain: Vec<String>,
    pub display: String,
}

/// The texts joined by a separator.
pub open spec fn join(items: Seq<Seq<char>>, sep: Seq<char>) -> Seq<char>
    decreases items.len(),
{
    if items.len() == 0 {
        Seq::empty()
    } else if items.len() == 1 {
        items[0]
    } else {
        join(items.drop_last(), sep) + sep + items.last()
    }
}

/// Every text followed by a space.
pub open spec fn chain_text(items: Seq<Seq<char>>) -> Seq<char>
    decreases items.len(),
{
    if items.len() == 0 {
        Seq::empty()
    } else {
        chain_text(items.drop_last()) + items.last() + " "@
    }
}

/// Texts of strings.
pub open spec fn string_texts(v: Seq<String>) -> Seq<Seq<char>> {
    v.map_values(|x: String| x@)
}

/// Whether the lower-cased text holds any of the patterns.
pub open spec fn holds_any(t: Seq<char>, pats: Seq<Seq<char>>) -> bool {
    exists|i: int| 0 <= i < pats.len() && contains_text(t, #[trigger] pats[i])
}

/// The failure category of a request error, judged from its flags and its source chain.
pub open spec fn error_category(is_timeout: bool, is_connect: bool, chain: Seq<Seq<char>>) -> Seq<char> {
    let low = crate::text::unicode_lowercase(chain_text(chain));
    if is_timeout || contains_text(low, "timed out"@) || contains_text(low, "timeout"@) {
        "Timeout"@
    } else if holds_any(
        low,
        seq![
            "tls"@,
            "certificate"@,
            "handshake"@,
            "rustls"@,
            "webpki"@,
            "invalid peer certificate"@,
            "unknown issuer"@,
        ],
    ) {
        "TLS Handshake / Certificate Error"@
    } else if holds_any(low, seq!["h2"@, "http2"@, "stream"@, "frame"@]) {
        "HTTP2 Protocol Error"@
    } else if holds_any(
        low,
        seq!["decompress"@, "gzip"@, "brotli"@, "inflate"@, "corrupt input"@],
    ) {
        "Decompression Error"@
    } else if holds_any(low, seq!["socks"@, "proxy"@]) || is_connect {
        "SOCKS Connect / Transport Error"@
    } else {
        "Network / Transport Error"@
    }
}

pub(crate) fn join_exec(items: &Vec<String>, sep: &str) -> (r: String)
    ensures
        r@ == join(string_texts(items@), sep@),
{
    let ghost iv = string_texts(items@);
    let mut out = String::new();
    let mut k: usize = 0;
    while k < items.len()
        invariant
            k <= items@.len(),
            iv == string_texts(items@),
            out@ == join(iv.take(k as int), sep@),
        decreases items@.len() - k,
    {
        proof {
            assert(iv.take(k + 1).drop_last() =~= iv.take(k as int));
        }
        if k > 0 {
            out.append(sep);
        }
        out.append(items[k].as_str());
        k = k + 1;
    }
    proof {
        assert(iv.take(k as int) =~= iv);
    }
    out
}

fn chain_text_exec(items: &Vec<String>) -> (r: String)
    ensures
        r@ == chain_text(string_texts(items@)),
{
    let ghost iv = string_texts(items@);
    let mut out = String::new();
    let mut k: usize = 0;
    while k < items.len()
        invariant
            k <= items@.len(),
            iv == string_texts(items@),
            out@ == chain_text(iv.take(k as int)),
        decreases items@.len() - k,
    {
        proof {
            assert(iv.take(k + 1).drop_last() =~= iv.take(k as int));
        }
        out.append(items[k].as_str());
        out.append(" ");
        k = k + 1;
    }
    proof {
        assert(iv.take(k as int) =~= iv);
    }
    out
}

fn holds_any_exec(t: &[char], pats: &[&str]) -> (r: bool)
    ensures
        r == holds_any(t@, pats@.map_values(|p: &str| p@)),
{
    let ghost pv = pats@.map_values(|p: &str| p@);
    let mut k: usize = 0;
    while k < pats.len()
        invariant
            k <= pats@.len(),
            pv == pats@.map_values(|p: &str| p@),
            forall|j: int| 0 <= j < k ==> !contains_text(t@, #[trigger] pv[j]),
        decreases pats@.len() - k,
    {
        if crate::text::contains_exec(t, &chars_of(pats[k])) {
            assert(contains_text(t@, pv[k as int]));
            return true;
        }
        k = k + 1;
    }
    false
}

impl HealthProber {
    /// Whether the process runs elevated, judged from the listing of its token's groups
    /// (`whoami /groups`): it carries the High (`S-1-16-12288`) or System (`S-1-16-16384`)
    /// mandatory integrity label.
    pub fn elevated_from_group_listing(listing: &str) -> (r: bool)
        ensures
            r == (contains_text(listing@, "S-1-16-12288"@) || contains_text(listing@, "S-1-16-16384"@)),
    {
        let text = chars_of(listing);
        crate::text::contains_exec(&text, &chars_of("S-1-16-12288")) || crate::text::contains_exec(
            &text,
            &chars_of("S-1-16-16384"),
        )
    }

    /// The failure category of a request error, judged from its flags and its source chain.
    pub fn classify_reqwest_error(err: &RequestErrorFacts) -> (r: &'static str)
        ensures
            r@ == error_category(err.is_timeout, err.is_connect, string_texts(err.chain@)),
    {
        let chain = chain_text_exec(&err.chain);
        let low_text = crate::text::to_lowercase(chain.as_str());
        let low = chars_of(low_text.as_str());
        let timeout_pats: [&str; 2] = ["timed out", "timeout"];
        let tls_pats: [&str; 7] = [
            "tls",
            "certificate",
            "handshake",
            "rustls",
            "webpki",
            "invalid peer certificate",
            "unknown issuer",
        ];
        let h2_pats: [&str; 4] = ["h2", "http2", "stream", "frame"];
        let dec_pats: [&str; 5] = ["decompress", "gzip", "brotli", "inflate", "corrupt input"];
        let socks_pats: [&str; 2] = ["socks", "proxy"];
        let is_timeout_text = holds_any_exec(&low, &timeout_pats);
        proof {
            assert(timeout_pats@.map_values(|p: &str| p@) =~= seq!["timed out"@, "timeout"@]);
            assert(tls_pats@.map_values(|p: &str| p@) =~= seq![
                "tls"@,
                "certificate"@,
                "handshake"@,
                "rustls"@,
                "webpki"@,
                "invalid peer certificate"@,
                "unknown issuer"@,
            ]);
            assert(h2_pats@.map_values(|p: &str| p@) =~= seq!["h2"@, "http2"@, "stream"@, "frame"@]);
            assert(dec_pats@.map_values(|p: &str| p@) =~= seq![
                "decompress"@,
                "gzip"@,
                "brotli"@,
                "inflate"@,
                "corrupt input"@,
            ]);
            assert(socks_pats@.map_values(|p: &str| p@) =~= seq!["socks"@, "proxy"@]);
            let tp = seq!["timed out"@, "timeout"@];
            if holds_any(low@, tp) {
                let i = choose|i: int| 0 <= i < tp.len() && contains_text(low@, #[trigger] tp[i]);
                assert(i == 0 || i == 1);
            }
            if contains_text(low@, "timed out"@) {
                assert(contains_text(low@, tp[0]));
            }
            if contains_text(low@, "timeout"@) {
                assert(contains_text(low@, tp[1]));
            }
        }
        if err.is_timeout || is_timeout_text {
            "Timeout"
        } else if holds_any_exec(&low, &tls_pats) {
            "TLS Handshake / Certificate Error"
        } else if holds_any_exec(&low, &h2_pats) {
            "HTTP2 Protocol Error"
        } else if holds_any_exec(&low, &dec_pats) {
            "Decompression Error"
        } else if holds_any_exec(&low, &socks_pats) || err.is_connect {
            "SOCKS Connect / Transport Error"
        } else {
            "Network / Transport Error"
        }
    }
}

/// The flags part of a request error report.
pub open spec fn error_flags(
    is_connect: bool,
    is_timeout: bool,
    is_request: bool,
    is_builder: bool,
    status: Option<Seq<char>>,
) -> Seq<Seq<char>> {
    let a: Seq<Seq<char>> = if is_connect { seq!["is_connect: true"@] } else { Seq::empty() };
    let b: Seq<Seq<char>> = if is_timeout { seq!["is_timeout: true"@] } else { Seq::empty() };
    let c: Seq<Seq<char>> = if is_request { seq!["is_request: true"@] } else { Seq::empty() };
    let d: Seq<Seq<char>> = if is_builder { seq!["is_builder: true"@] } else { Seq::empty() };
    let e: Seq<Seq<char>> = match status {
        Some(s) => seq!["status: "@ + s],
        None => Seq::empty(),
    };
    a + b + c + d + e
}

/// The report of a request error: the prefix, the flags in brackets, the source chain and
/// the error's own text.
pub open spec fn error_report(prefix: Seq<char>, err: RequestErrorFacts) -> Seq<char> {
    let flags = error_flags(
        err.is_connect,
        err.is_timeout,
        err.is_request,
        err.is_builder,
        match err.status {
            Some(s) => Some(s@),
            None => None,
        },
    );
    let chain = string_texts(err.chain@);
    let flags_str = if flags.len() == 0 {
        Seq::empty()
    } else {
        " ["@ + join(flags, ", "@) + "]"@
    };
    let chain_str = if chain.len() == 0 {
        Seq::empty()
    } else {
        " (Source chain: "@ + join(chain, " -> "@) + ")"@
    };
    prefix + flags_str + chain_str + ": "@ + err.display@
}

fn push_if(v: &mut Vec<String>, cond: bool, t: String)
    ensures
        string_texts(final(v)@) == string_texts(old(v)@) + (if cond {
            seq![t@]
        } else {
            Seq::<Seq<char>>::empty()
        }),
{
    if cond {
        proof {
            assert(string_texts(old(v)@.push(t)) =~= string_texts(old(v)@) + seq![t@]);
        }
        v.push(t);
    } else {
        proof {
            assert(string_texts(old(v)@) =~= string_texts(old(v)@) + Seq::<Seq<char>>::empty());
        }
    }
}

fn flags_exec(err: &RequestErrorFacts) -> (r: Vec<String>)
    ensures
        string_texts(r@) == error_flags(
            err.is_connect,
            err.is_timeout,
            err.is_request,
            err.is_builder,
            match err.status {
                Some(s) => Some(s@),
                None => None,
            },
        ),
{
    let mut flags: Vec<String> = Vec::new();
    proof {
        assert(string_texts(flags@) =~= Seq::<Seq<char>>::empty());
    }
    push_if(&mut flags, err.is_connect, str_to_string("is_connect: true"));
    push_if(&mut flags, err.is_timeout, str_to_string("is_timeout: true"));
    push_if(&mut flags, err.is_request, str_to_string("is_request: true"));
    push_if(&mut flags, err.is_builder, str_to_string("is_builder: true"));
    let status_text = match &err.status {
        Some(s) => {
            let mut t = str_to_string("status: ");
            t.append(s.as_str());
            t
        },
        None => String::new(),
    };
    push_if(&mut flags, err.status.is_some(), status_text);
    proof {
        assert(Seq::<Seq<char>>::empty() + (if err.is_connect {
            seq!["is_connect: true"@]
        } else {
            Seq::<Seq<char>>::empty()
        }) =~= (if err.is_connect {
            seq!["is_connect: true"@]
        } else {
            Seq::<Seq<char>>::empty()
        }));
    }
    flags
}

impl HealthProber {
    /// Formats a request error: the prefix, the flags in brackets, the source chain and the
    /// error's own text.
    pub fn format_reqwest_error(prefix: &str, err: &RequestErrorFacts) -> (r: String)
        ensures
            r@ == error_report(prefix@, *err),
    {
        let flags = flags_exec(err);
        let mut out = str_to_string(prefix);
        if flags.len() > 0 {
            out.append(" [");
            let j = join_exec(&flags, ", ");
            out.append(j.as_str());
            out.append("]");
        }
        if err.chain.len() > 0 {
            out.append(" (Source chain: ");
            let j = join_exec(&err.chain, " -> ");
            out.append(j.as_str());
            out.append(")");
        }
        out.append(": ");
        out.append(err.display.as_str());
        out
    }
}

// ---------------------------------------------------------------------------
// Trace endpoints
// ---------------------------------------------------------------------------

/// Lower-case hexadecimal digits of a number, without leading zeros.
pub open spec fn hex_digits(n: nat) -> Seq<char>
    decreases n,
{
    if n < 16 {
        seq![hex_char(n)]
    } else {
        hex_digits(n / 16).push(hex_char(n % 16))
    }
}

/// A lower-case hexadecimal digit.
pub open spec fn hex_char(d: nat) -> char {
    if d < 10 {
        ((d as u32) + ('0' as u32)) as char
    } else {
        ((d as u32) - 10 + ('a' as u32)) as char
    }
}

/// `char::escape_default`.
pub open spec fn escape_char(c: char) -> Seq<char> {
    if c == '\t' {
        seq!['\\', 't']
    } else if c == '\r' {
        seq!['\\', 'r']
    } else if c == '\n' {
        seq!['\\', 'n']
    } else if c == '\'' || c == '"' || c == '\\' {
        seq!['\\', c]
    } else if 0x20 <= c as u32 && c as u32 <= 0x7e {
        seq![c]
    } else {
        seq!['\\', 'u', '{'] + hex_digits(c as u32 as nat) + seq!['}']
    }
}

/// `str::escape_default`.
pub open spec fn escape_text(s: Seq<char>) -> Seq<char>
    decreases s.len(),
{
    if s.len() == 0 {
        Seq::empty()
    } else {
        escape_text(s.drop_last()) + escape_char(s.last())
    }
}

fn hex_digits_exec(n: u32) -> (r: Vec<char>)
    ensures
        r@ == hex_digits(n as nat),
    decreases n,
{
    let d: u32 = n % 16;
    let c: char = if d < 10 {
        crate::text::char_of_digit(d)
    } else {
        let b: u8 = (d - 10) as u8 + 97;
        b as char
    };
    proof {
        if d < 10 {
            assert(c == hex_char(d as nat));
        }
    }
    if n < 16 {
        let mut v: Vec<char> = Vec::new();
        v.push(c);
        proof {
            assert(v@ =~= seq![hex_char(n as nat)]);
        }
        v
    } else {
        let mut v = hex_digits_exec(n / 16);
        v.push(c);
        v
    }
}

fn push_escaped(out: &mut Vec<char>, c: char)
    ensures
        final(out)@ == old(out)@ + escape_char(c),
{
    let ghost start = out@;
    if c == '\t' {
        out.push('\\');
        out.push('t');
    } else if c == '\r' {
        out.push('\\');
        out.push('r');
    } else if c == '\n' {
        out.push('\\');
        out.push('n');
    } else if c == '\'' || c == '"' || c == '\\' {
        out.push('\\');
        out.push(c);
    } else if 0x20 <= (c as u32) && (c as u32) <= 0x7e {
        out.push(c);
    } else {
        out.push('\\');
        out.push('u');
        out.push('{');
        let h = hex_digits_exec(c as u32);
        crate::text::push_range(out, &h, 0, h.len());
        proof {
            assert(h@.subrange(0, h@.len() as int) =~= h@);
        }
        out.push('}');
    }
    proof {
        assert(out@ =~= start + escape_char(c));
    }
}

/// `str::escape_default`.
fn escape_exec(v: &[char]) -> (r: Vec<char>)
    ensures
        r@ == escape_text(v@),
{
    let mut out: Vec<char> = Vec::new();
    let mut k: usize = 0;
    while k < v.len()
        invariant
            k <= v@.len(),
            out@ == escape_text(v@.take(k as int)),
        decreases v@.len() - k,
    {
        proof {
            assert(v@.take(k + 1).drop_last() =~= v@.take(k as int));
        }
        push_escaped(&mut out, v[k]);
        k = k + 1;
    }
    proof {
        assert(v@.take(k as int) =~= v@);
    }
    out
}

/// The text can be cut after its first 120 bytes: it is no longer, or a character ends there.
pub open spec fn preview_cut_ok(s: Seq<char>) -> bool {
    crate::text::utf8_len(s) <= 120 || exists|k: int|
        0 <= k <= s.len() && #[trigger] crate::text::utf8_len(s.take(k)) == 120
}

/// The characters that make up the first 120 bytes.
pub open spec fn first_120_bytes(s: Seq<char>) -> Seq<char> {
    s.take(choose|k: int| 0 <= k <= s.len() && #[trigger] crate::text::utf8_len(s.take(k)) == 120)
}

/// The escaped preview of a body: its first 120 bytes and `...` when it is longer.
pub open spec fn body_preview(s: Seq<char>) -> Seq<char> {
    if crate::text::utf8_len(s) > 120 {
        escape_text(first_120_bytes(s)) + "..."@
    } else {
        escape_text(s)
    }
}

/// Byte lengths of prefixes only grow.
proof fn lemma_utf8_prefix_monotone(s: Seq<char>, a: int, b: int)
    requires
        0 <= a <= b <= s.len(),
    ensures
        crate::text::utf8_len(s.take(a)) <= crate::text::utf8_len(s.take(b)),
        a < b ==> crate::text::utf8_len(s.take(a)) < crate::text::utf8_len(s.take(b)),
    decreases b - a,
{
    if a < b {
        lemma_utf8_prefix_monotone(s, a, b - 1);
        assert(s.take(b).drop_last() =~= s.take(b - 1));
    }
}

fn preview_exec(v: &[char]) -> (r: Vec<char>)
    requires
        preview_cut_ok(v@),
    ensures
        r@ == body_preview(v@),
{
    if !crate::text::utf8_len_exceeds(v, 120) {
        return escape_exec(v);
    }
    let ghost kc = choose|k: int| 0 <= k <= v@.len() && #[trigger] crate::text::utf8_len(v@.take(k)) == 120;
    let mut total: u64 = 0;
    let mut k: usize = 0;
    while total < 120
        invariant
            k <= kc <= v@.len(),
            crate::text::utf8_len(v@.take(kc)) == 120,
            total == crate::text::utf8_len(v@.take(k as int)),
            total <= 120,
        decreases 120 - total,
    {
        proof {
            if k == kc {
                assert(false);
            }
            assert(v@.take(k + 1).drop_last() =~= v@.take(k as int));
            lemma_utf8_prefix_monotone(v@, k + 1, kc);
        }
        let c = v[k];
        let w: u64 = if (c as u32) < 0x80 {
            1
        } else if (c as u32) < 0x800 {
            2
        } else if (c as u32) < 0x10000 {
            3
        } else {
            4
        };
        total = total + w;
        k = k + 1;
    }
    proof {
        if k < kc {
            lemma_utf8_prefix_monotone(v@, k as int, kc);
        }
        assert(k == kc);
    }
    let cut = crate::text::slice_chars(v, 0, k);
    proof {
        assert(cut@ =~= v@.take(k as int));
    }
    let mut out = escape_exec(&cut);
    out.push('.');
    out.push('.');
    out.push('.');
    proof {
        reveal_strlit("...");
        assert(out@ =~= escape_text(first_120_bytes(v@)) + "..."@);
    }
    out
}

/// Which probe made a request; it names the request in failure reports.
#[derive(Debug, Clone)]
pub enum TraceProbeKind {
    /// Through the SOCKS proxy at this URL.
    Socks { proxy_url: String },
    /// Directly through the system network stack, stage 1.
    DirectIpLiteral,
    /// Directly through the system network stack with name resolution, stage 3.
    DirectHostname,
}

/// What one trace endpoint answered.
#[derive(Debug)]
pub enum EndpointResponse {
    /// A status outside 2xx, as displayed.
    StatusError(String),
    /// The body of a 2xx answer, and the time the answer took in milliseconds.
    Body { body: String, latency_ms: u64 },
    /// Reading the body failed.
    BodyError(RequestErrorFacts),
    /// The request failed after the given time (seconds, as displayed).
    RequestFailed { error: RequestErrorFacts, elapsed: String },
}

/// How a failed request of a probe is introduced.
pub open spec fn request_failure_prefix(kind: TraceProbeKind, endpoint: Seq<char>, elapsed: Seq<char>) -> Seq<char> {
    match kind {
        TraceProbeKind::Socks { proxy_url } => "Request to '"@ + endpoint + "' via "@ + proxy_url@
            + " failed after "@ + elapsed + "s"@,
        TraceProbeKind::DirectIpLiteral => "Direct system request to '"@ + endpoint
            + "' failed after "@ + elapsed + "s"@,
        TraceProbeKind::DirectHostname => "Direct hostname request to '"@ + endpoint
            + "' failed after "@ + elapsed + "s"@,
    }
}

/// The answers that can be reported: a body that is not a trace must have a preview that
/// can be cut after 120 bytes.
pub open spec fn response_ok(r: EndpointResponse) -> bool {
    match r {
        EndpointResponse::Body { body, latency_ms } => preview_cut_ok(body@) || trace_body_spec(
            body@,
            latency_ms,
        ) is Ok,
        _ => true,
    }
}

/// What one endpoint's answer yields: the trace, or the failure report.
pub open spec fn endpoint_result_spec(kind: TraceProbeKind, endpoint: Seq<char>, response: EndpointResponse) -> Result<
    TraceView,
    Seq<char>,
> {
    match response {
        EndpointResponse::StatusError(s) => Err(
            "Endpoint '"@ + endpoint + "' returned HTTP error status "@ + s@,
        ),
        EndpointResponse::Body { body, latency_ms } => match trace_body_spec(body@, latency_ms) {
            Ok(t) => Ok(t),
            Err(pe) => Err(
                "Failed to parse trace response body from '"@ + endpoint + "': "@ + pe
                    + " (body_preview: '"@ + body_preview(body@) + "')"@,
            ),
        },
        EndpointResponse::BodyError(e) => Err(
            error_report("Failed to read response body from '"@ + endpoint + "'"@, e),
        ),
        EndpointResponse::RequestFailed { error, elapsed } => Err(
            error_report(request_failure_prefix(kind, endpoint, elapsed@), error),
        ),
    }
}

/// What one endpoint's answer yields: the trace, or the failure report. The sweep tries
/// the endpoints in order, stops at the first trace and otherwise reports the last failure.
pub fn endpoint_trace_result(kind: &TraceProbeKind, endpoint: &str, response: EndpointResponse) -> (r:
    Result<CloudflareTrace, String>)
    requires
        response_ok(response),
    ensures
        trace_result(r) == endpoint_result_spec(*kind, endpoint@, response),
{
    match response {
        EndpointResponse::StatusError(st) => {
            let mut m = str_to_string("Endpoint '");
            m.append(endpoint);
            m.append("' returned HTTP error status ");
            m.append(st.as_str());
            Err(m)
        },
        EndpointResponse::Body { body, latency_ms } => match HealthProber::parse_trace_body(body.as_str(), latency_ms) {
            Ok(t) => Ok(t),
            Err(pe) => {
                let bc = chars_of(body.as_str());
                let preview = string_of(&preview_exec(&bc));
                let mut m = str_to_string("Failed to parse trace response body from '");
                m.append(endpoint);
                m.append("': ");
                m.append(pe.as_str());
                m.append(" (body_preview: '");
                m.append(preview.as_str());
                m.append("')");
                Err(m)
            },
        },
        EndpointResponse::BodyError(e) => {
            let mut p = str_to_string("Failed to read response body from '");
            p.append(endpoint);
            p.append("'");
            Err(HealthProber::format_reqwest_error(p.as_str(), &e))
        },
        EndpointResponse::RequestFailed { error, elapsed } => {
            let mut p = match kind {
                TraceProbeKind::Socks { proxy_url } => {
                    let mut p = str_to_string("Request to '");
                    p.append(endpoint);
                    p.append("' via ");
                    p.append(proxy_url.as_str());
                    p
                },
                TraceProbeKind::DirectIpLiteral => {
                    let mut p = str_to_string("Direct system request to '");
                    p.append(endpoint);
                    p.append("'");
                    p
                },
                TraceProbeKind::DirectHostname => {
                    let mut p = str_to_string("Direct hostname request to '");
                    p.append(endpoint);
                    p.append("'");
                    p
                },
            };
            p.append(" failed after ");
            p.append(elapsed.as_str());
            p.append("s");
            proof {
                reveal_strlit("' via ");
                reveal_strlit("'");
                reveal_strlit("' failed after ");
                reveal_strlit(" failed after ");
                assert(p@ =~= request_failure_prefix(*kind, endpoint@, elapsed@));
            }
            Err(HealthProber::format_reqwest_error(p.as_str(), &error))
        },
    }
}

/// The endpoints of the SOCKS trace, in the order they are tried.
pub fn socks_trace_endpoints() -> (r: Vec<&'static str>)
    ensures
        r@.map_values(|e: &str| e@) == seq![
            "https://www.cloudflare.com/cdn-cgi/trace"@,
            "https://1.1.1.1/cdn-cgi/trace"@,
            "http://www.cloudflare.com/cdn-cgi/trace"@,
            "http://1.1.1.1/cdn-cgi/trace"@,
        ],
{
    let v = vec![
        "https://www.cloudflare.com/cdn-cgi/trace",
        "https://1.1.1.1/cdn-cgi/trace",
        "http://www.cloudflare.com/cdn-cgi/trace",
        "http://1.1.1.1/cdn-cgi/trace",
    ];
    proof {
        assert(v@.map_values(|e: &str| e@) =~= seq![
            "https://www.cloudflare.com/cdn-cgi/trace"@,
            "https://1.1.1.1/cdn-cgi/trace"@,
            "http://www.cloudflare.com/cdn-cgi/trace"@,
            "http://1.1.1.1/cdn-cgi/trace"@,
        ]);
    }
    v
}

/// The endpoints of the direct traces, in the order they are tried.
pub fn direct_trace_endpoints() -> (r: Vec<&'static str>)
    ensures
        r@.map_values(|e: &str| e@) == seq![
            "https://www.cloudflare.com/cdn-cgi/trace"@,
            "http://www.cloudflare.com/cdn-cgi/trace"@,
            "https://1.1.1.1/cdn-cgi/trace"@,
            "http://1.1.1.1/cdn-cgi/trace"@,
        ],
{
    let v = vec![
        "https://www.cloudflare.com/cdn-cgi/trace",
        "http://www.cloudflare.com/cdn-cgi/trace",
        "https://1.1.1.1/cdn-cgi/trace",
        "http://1.1.1.1/cdn-cgi/trace",
    ];
    proof {
        assert(v@.map_values(|e: &str| e@) =~= seq![
            "https://www.cloudflare.com/cdn-cgi/trace"@,
            "http://www.cloudflare.com/cdn-cgi/trace"@,
            "https://1.1.1.1/cdn-cgi/trace"@,
            "http://1.1.1.1/cdn-cgi/trace"@,
        ]);
    }
    v
}

/// The proxy URL of the SOCKS trace (`socks5h://host:port`).
pub fn socks_proxy_url(host: &str, port: u16) -> (r: String)
    ensures
        r@ == "socks5h://"@ + host@ + ":"@ + decimal(port as nat),
{
    let mut s = str_to_string("socks5h://");
    s.append(host);
    s.append(":");
    let d = decimal_string(port as u64);
    s.append(d.as_str());
    s
}

// ---------------------------------------------------------------------------
// Latency samples
// ---------------------------------------------------------------------------

/// The latencies of the successful attempts, in order.
pub open spec fn sample_latencies(attempts: Seq<Result<CloudflareTrace, String>>) -> Seq<u64>
    decreases attempts.len(),
{
    if attempts.len() == 0 {
        Seq::empty()
    } else {
        let rest = sample_latencies(attempts.drop_last());
        match attempts.last() {
            Ok(t) => rest.push(t.latency_ms),
            Err(_) => rest,
        }
    }
}

/// The trace of the last successful attempt.
pub open spec fn latest_trace(attempts: Seq<Result<CloudflareTrace, String>>) -> Option<CloudflareTrace>
    decreases attempts.len(),
{
    if attempts.len() == 0 {
        None
    } else {
        match attempts.last() {
            Ok(t) => Some(t),
            Err(_) => latest_trace(attempts.drop_last()),
        }
    }
}

/// The error of the last failed attempt; empty when none failed.
pub open spec fn last_error(attempts: Seq<Result<CloudflareTrace, String>>) -> Seq<char>
    decreases attempts.len(),
{
    if attempts.len() == 0 {
        Seq::empty()
    } else {
        match attempts.last() {
            Ok(_) => last_error(attempts.drop_last()),
            Err(e) => e@,
        }
    }
}

/// Every successful attempt took at most `i64::MAX` milliseconds.
pub open spec fn attempts_bounded(attempts: Seq<Result<CloudflareTrace, String>>) -> bool {
    forall|i: int| 0 <= i < attempts.len() ==> match #[trigger] attempts[i] {
        Ok(t) => t.latency_ms <= i64::MAX,
        Err(_) => true,
    }
}

/// The message of too few successful samples, with the last failure when there was one.
pub open spec fn too_few_samples_message(n: nat, total: nat, last_err: Seq<char>) -> Seq<char> {
    insufficient_samples_message(n, total) + if last_err.len() == 0 {
        Seq::empty()
    } else {
        ": "@ + last_err
    }
}

/// The latency profile of a series of trace attempts: at least four must have succeeded.
pub fn latency_profile_from_attempts(
    attempts: Vec<Result<CloudflareTrace, String>>,
    target_samples: usize,
) -> (r: Result<LatencyProfile, String>)
    requires
        attempts_bounded(attempts@),
    ensures
        sample_latencies(attempts@).len() < 4 <==> r is Err,
        r matches Err(m) ==> m@ == too_few_samples_message(
            sample_latencies(attempts@).len(),
            target_samples as nat,
            last_error(attempts@),
        ),
        r matches Ok(p) ==> {
            &&& p.total_samples == target_samples
            &&& p.samples_ms@ == sample_latencies(attempts@)
            &&& p.median_ms == crate::models::health::median_of(sample_latencies(attempts@))
            &&& p.jitter_mad_ms == crate::models::health::mad_of(sample_latencies(attempts@))
            &&& p.latest_trace == latest_trace(attempts@)
        },
{
    let ghost av = attempts@;
    let mut samples: Vec<u64> = Vec::new();
    let mut latest: Option<CloudflareTrace> = None;
    let mut last_err = String::new();
    let mut k: usize = 0;
    let n = attempts.len();
    let mut attempts = attempts;
    while k < n
        invariant
            n == av.len(),
            k <= n,
            attempts_bounded(av),
            attempts@ == av.skip(k as int),
            samples@ == sample_latencies(av.take(k as int)),
            latest == latest_trace(av.take(k as int)),
            last_err@ == last_error(av.take(k as int)),
            forall|i: int| 0 <= i < samples@.len() ==> samples@[i] <= i64::MAX,
        decreases n - k,
    {
        proof {
            assert(av.take(k + 1).drop_last() =~= av.take(k as int));
            assert(av.take(k + 1).last() == av[k as int]);
            assert(attempts@[0] == av[k as int]);
        }
        let item = attempts.remove(0);
        proof {
            assert(attempts@ =~= av.skip(k + 1));
        }
        match item {
            Ok(t) => {
                samples.push(t.latency_ms);
                latest = Some(t);
            },
            Err(e) => {
                last_err = e;
            },
        }
        k = k + 1;
    }
    proof {
        assert(av.take(k as int) =~= av);
    }
    if samples.len() < 4 {
        let mut m = str_to_string("Insufficient valid latency samples (");
        let a = decimal_string(samples.len() as u64);
        m.append(a.as_str());
        m.append("/");
        let b = decimal_string(target_samples as u64);
        m.append(b.as_str());
        m.append(" succeeded, minimum 4 required)");
        if last_err.as_str().unicode_len() > 0 {
            m.append(": ");
            m.append(last_err.as_str());
        }
        return Err(m);
    }
    LatencyProfile::compute_from_samples(&samples, target_samples, latest)
}

// ---------------------------------------------------------------------------
// System DNS
// ---------------------------------------------------------------------------

/// The domains the DNS stage resolves, in order: the requested one, then four fallbacks.
pub fn dns_candidate_domains(primary: &str) -> (r: Vec<String>)
    ensures
        string_texts(r@) == seq![
            primary@,
            "www.cloudflare.com"@,
            "cloudflare.com"@,
            "one.one.one.one"@,
            "google.com"@,
        ],
{
    let mut v: Vec<String> = Vec::new();
    v.push(str_to_string(primary));
    v.push(str_to_string("www.cloudflare.com"));
    v.push(str_to_string("cloudflare.com"));
    v.push(str_to_string("one.one.one.one"));
    v.push(str_to_string("google.com"));
    proof {
        assert(string_texts(v@) =~= seq![
            primary@,
            "www.cloudflare.com"@,
            "cloudflare.com"@,
            "one.one.one.one"@,
            "google.com"@,
        ]);
    }
    v
}

/// The list without consecutive repeats (`Vec::dedup`).
pub open spec fn dedup_consecutive(s: Seq<Seq<char>>) -> Seq<Seq<char>>
    decreases s.len(),
{
    if s.len() <= 1 {
        s
    } else {
        let rest = dedup_consecutive(s.drop_last());
        if s.last() == s[s.len() - 2] {
            rest
        } else {
            rest.push(s.last())
        }
    }
}

/// What one resolver lookup produced.
#[derive(Debug)]
pub enum DnsLookup {
    /// The addresses, as displayed.
    Resolved(Vec<String>),
    /// The lookup failed after the given time (seconds, as displayed) with this error.
    Failed { elapsed: String, error: String },
}

/// What one lookup of a domain yields: its addresses without consecutive repeats, or the
/// failure report.
pub open spec fn dns_lookup_spec(domain: Seq<char>, lookup: DnsLookup) -> Result<Seq<Seq<char>>, Seq<char>> {
    match lookup {
        DnsLookup::Resolved(ips) => {
            let d = dedup_consecutive(string_texts(ips@));
            if d.len() > 0 {
                Ok(d)
            } else {
                Err("Resolver returned 0 addresses for '"@ + domain + "'"@)
            }
        },
        DnsLookup::Failed { elapsed, error } => Err(
            "Windows system DNS lookup failed for '"@ + domain + "' after "@ + elapsed@ + "s: "@
                + error@,
        ),
    }
}

/// What one lookup of a domain yields. The DNS stage tries the candidate domains in order,
/// stops at the first that resolves and otherwise reports the last failure.
pub fn dns_lookup_result(domain: &str, lookup: DnsLookup) -> (r: Result<Vec<String>, String>)
    ensures
        match r {
            Ok(v) => dns_lookup_spec(domain@, lookup) == Ok::<Seq<Seq<char>>, Seq<char>>(
                string_texts(v@),
            ),
            Err(e) => dns_lookup_spec(domain@, lookup) == Err::<Seq<Seq<char>>, Seq<char>>(e@),
        },
{
    match lookup {
        DnsLookup::Resolved(ips) => {
            let ghost iv = string_texts(ips@);
            let mut out: Vec<String> = Vec::new();
            let mut k: usize = 0;
            let n = ips.len();
            let mut ips = ips;
            while k < n
                invariant
                    n == iv.len(),
                    k <= n,
                    string_texts(ips@) == iv.skip(k as int),
                    ips@.len() == n - k,
                    string_texts(out@) == dedup_consecutive(iv.take(k as int)),
                    k > 0 ==> out@.len() > 0 && string_texts(out@).last() == iv[k - 1],
                decreases n - k,
            {
                proof {
                    assert(iv.take(k + 1).drop_last() =~= iv.take(k as int));
                    assert(string_texts(ips@)[0] == iv[k as int]);
                    if k > 0 {
                        assert(iv.take(k + 1)[k - 1] == iv[k - 1]);
                    }
                }
                let ghost before = ips@;
                let ip = ips.remove(0);
                proof {
                    assert(ips@ =~= before.subrange(1, before.len() as int));
                    assert forall|j: int| 0 <= j < ips@.len() implies string_texts(ips@)[j] == iv.skip(
                        k + 1,
                    )[j] by {
                        assert(string_texts(before)[j + 1] == iv.skip(k as int)[j + 1]);
                    }
                    assert(string_texts(ips@) =~= iv.skip(k + 1));
                }
                let repeat = out.len() > 0 && text_eq(out[out.len() - 1].as_str(), ip.as_str());
                if !repeat {
                    proof {
                        assert(string_texts(out@.push(ip)) =~= string_texts(out@).push(ip@));
                    }
                    out.push(ip);
                }
                k = k + 1;
            }
            proof {
                assert(iv.take(k as int) =~= iv);
            }
            if out.len() > 0 {
                Ok(out)
            } else {
                let mut m = str_to_string("Resolver returned 0 addresses for '");
                m.append(domain);
                m.append("'");
                Err(m)
            }
        },
        DnsLookup::Failed { elapsed, error } => {
            let mut m = str_to_string("Windows system DNS lookup failed for '");
            m.append(domain);
            m.append("' after ");
            m.append(elapsed.as_str());
            m.append("s: ");
            m.append(error.as_str());
            Err(m)
        },
    }
}

// ---------------------------------------------------------------------------
// Staged egress verification
// ---------------------------------------------------------------------------

/// Where the staged egress verification stands; `attempt` counts from 1.
#[derive(Debug, Clone, Copy, PartialEq, Eq, Structural)]
pub enum EgressStage {
    /// Stage 1: direct system egress trace.
    SystemEgress { attempt: u32 },
    /// Stage 2: system DNS resolution.
    SystemDns { attempt: u32 },
    /// Stage 3: trace by host name.
    HostnameTrace { attempt: u32 },
    Done,
}

/// What the verification remembers between steps.
#[derive(Debug, Clone)]
pub struct EgressRecord {
    /// The egress address seen through the Aether SOCKS proxy, when known.
    pub expected_ip: Option<String>,
    /// The last failure of the current stage.
    pub last_error: String,
}

/// The observation handed back after a command.
#[derive(Debug)]
pub enum EgressEvent {
    SystemEgress(Result<CloudflareTrace, String>),
    /// Resolved addresses or the failure, and the time spent in stage 2 so far (seconds, as
    /// displayed).
    SystemDns { result: Result<Vec<String>, String>, elapsed: String },
    HostnameTrace(Result<CloudflareTrace, String>),
}

/// The next command for the caller; `pause_first` asks for the retry pause (300 ms).
#[derive(Debug)]
pub enum EgressCommand {
    ProbeSystemEgress { pause_first: bool },
    ResolveSystemDns { pause_first: bool },
    ProbeHostname { pause_first: bool },
    Finish(Result<CloudflareTrace, String>),
}

/// Model of a command.
pub enum EgressCommandView {
    ProbeSystemEgress { pause_first: bool },
    ResolveSystemDns { pause_first: bool },
    ProbeHostname { pause_first: bool },
    Finish(Result<TraceView, Seq<char>>),
}

impl View for EgressCommand {
    type V = EgressCommandView;

    open spec fn view(&self) -> EgressCommandView {
        match self {
            EgressCommand::ProbeSystemEgress { pause_first } => EgressCommandView::ProbeSystemEgress {
                pause_first: *pause_first,
            },
            EgressCommand::ResolveSystemDns { pause_first } => EgressCommandView::ResolveSystemDns {
                pause_first: *pause_first,
            },
            EgressCommand::ProbeHostname { pause_first } => EgressCommandView::ProbeHostname {
                pause_first: *pause_first,
            },
            EgressCommand::Finish(r) => EgressCommandView::Finish(trace_result(*r)),
        }
    }
}

/// Model of the record.
pub struct EgressRecordView {
    pub expected_ip: Option<Seq<char>>,
    pub last_error: Seq<char>,
}

impl View for EgressRecord {
    type V = EgressRecordView;

    open spec fn view(&self) -> EgressRecordView {
        EgressRecordView {
            expected_ip: match self.expected_ip {
                Some(s) => Some(s@),
                None => None,
            },
            last_error: self.last_error@,
        }
    }
}

/// Model of an event.
pub enum EgressEventView {
    SystemEgress(Result<TraceView, Seq<char>>),
    SystemDns { result: Result<Seq<Seq<char>>, Seq<char>>, elapsed: Seq<char> },
    HostnameTrace(Result<TraceView, Seq<char>>),
}

impl View for EgressEvent {
    type V = EgressEventView;

    open spec fn view(&self) -> EgressEventView {
        match self {
            EgressEvent::SystemEgress(r) => EgressEventView::SystemEgress(trace_result(*r)),
            EgressEvent::SystemDns { result, elapsed } => EgressEventView::SystemDns {
                result: match result {
                    Ok(v) => Ok(string_texts(v@)),
                    Err(e) => Err(e@),
                },
                elapsed: elapsed@,
            },
            EgressEvent::HostnameTrace(r) => EgressEventView::HostnameTrace(trace_result(*r)),
        }
    }
}

/// The system egress address differs from the expected Aether address (both known).
pub open spec fn egress_mismatch(expected: Option<Seq<char>>, ip: Seq<char>) -> bool {
    match expected {
        Some(e) => ip.len() > 0 && e.len() > 0 && ip != e,
        None => false,
    }
}

/// The report of a stage-1 address mismatch.
pub open spec fn mismatch_message(ip: Seq<char>, expected: Seq<char>) -> Seq<char> {
    "Stage 1 Egress Mismatch: System egress IP ("@ + ip
        + ") does not match Aether SOCKS egress IP ("@ + expected
        + "). Traffic is not traversing Aether outbound."@
}

/// The report of a DNS stage failure.
pub open spec fn dns_failure_message(elapsed: Seq<char>, last: Seq<char>) -> Seq<char> {
    "Stage 2 DNS Failure after "@ + elapsed
        + "s: Windows system DNS resolution failed under TUN strict_route: "@ + last
}

/// One transition of the staged egress verification.
pub open spec fn egress_transition(rec: EgressRecordView, stage: EgressStage, event: EgressEventView) -> (
    EgressRecordView,
    EgressStage,
    EgressCommandView,
) {
    match (stage, event) {
        (EgressStage::SystemEgress { attempt }, EgressEventView::SystemEgress(r)) => match r {
            Ok(t) => if egress_mismatch(rec.expected_ip, t.ip) {
                (
                    rec,
                    EgressStage::Done,
                    EgressCommandView::Finish(Err(mismatch_message(t.ip, rec.expected_ip.unwrap()))),
                )
            } else {
                (
                    EgressRecordView { last_error: Seq::empty(), ..rec },
                    EgressStage::SystemDns { attempt: 1 },
                    EgressCommandView::ResolveSystemDns { pause_first: false },
                )
            },
            Err(e) => if attempt < 4 {
                (
                    EgressRecordView { last_error: e, ..rec },
                    EgressStage::SystemEgress { attempt: (attempt + 1) as u32 },
                    EgressCommandView::ProbeSystemEgress { pause_first: true },
                )
            } else {
                (
                    EgressRecordView { last_error: e, ..rec },
                    EgressStage::Done,
                    EgressCommandView::Finish(
                        Err("Stage 1 Transport Failure: Direct system egress failed: "@ + e),
                    ),
                )
            },
        },
        (EgressStage::SystemDns { attempt }, EgressEventView::SystemDns { result, elapsed }) =>
            match result {
            Ok(ips) => if ips.len() > 0 {
                (
                    EgressRecordView { last_error: Seq::empty(), ..rec },
                    EgressStage::HostnameTrace { attempt: 1 },
                    EgressCommandView::ProbeHostname { pause_first: false },
                )
            } else {
                (
                    rec,
                    EgressStage::Done,
                    EgressCommandView::Finish(Err(dns_failure_message(elapsed, rec.last_error))),
                )
            },
            Err(e) => if attempt < 4 {
                (
                    EgressRecordView { last_error: e, ..rec },
                    EgressStage::SystemDns { attempt: (attempt + 1) as u32 },
                    EgressCommandView::ResolveSystemDns { pause_first: true },
                )
            } else {
                (
                    EgressRecordView { last_error: e, ..rec },
                    EgressStage::Done,
                    EgressCommandView::Finish(Err(dns_failure_message(elapsed, e))),
                )
            },
        },
        (EgressStage::HostnameTrace { attempt }, EgressEventView::HostnameTrace(r)) => match r {
            Ok(t) => (rec, EgressStage::Done, EgressCommandView::Finish(Ok(t))),
            Err(e) => if attempt < 4 {
                (
                    EgressRecordView { last_error: e, ..rec },
                    EgressStage::HostnameTrace { attempt: (attempt + 1) as u32 },
                    EgressCommandView::ProbeHostname { pause_first: true },
                )
            } else {
                (
                    EgressRecordView { last_error: e, ..rec },
                    EgressStage::Done,
                    EgressCommandView::Finish(
                        Err(
                            "Stage 3 Hostname HTTPS Failure: Hostname HTTPS egress test failed after retries: "@
                                + e,
                        ),
                    ),
                )
            },
        },
        _ => (
            rec,
            stage,
            EgressCommandView::Finish(Err("Unexpected observation for the current egress stage"@)),
        ),
    }
}

/// The attempt counter of a stage stays within the number of attempts.
pub open spec fn egress_stage_ok(stage: EgressStage) -> bool {
    match stage {
        EgressStage::SystemEgress { attempt } => 1 <= attempt <= 4,
        EgressStage::SystemDns { attempt } => 1 <= attempt <= 4,
        EgressStage::HostnameTrace { attempt } => 1 <= attempt <= 4,
        EgressStage::Done => true,
    }
}

/// The verification begins with the first system egress probe.
pub fn egress_begin(expected_ip: Option<String>) -> (r: (EgressRecord, EgressStage, EgressCommand))
    ensures
        r.0@.expected_ip == (match expected_ip {
            Some(s) => Some(s@),
            None => None::<Seq<char>>,
        }),
        r.0@.last_error == Seq::<char>::empty(),
        r.1 == (EgressStage::SystemEgress { attempt: 1 }),
        r.2@ == (EgressCommandView::ProbeSystemEgress { pause_first: false }),
        egress_stage_ok(r.1),
{
    (
        EgressRecord { expected_ip, last_error: String::new() },
        EgressStage::SystemEgress { attempt: 1 },
        EgressCommand::ProbeSystemEgress { pause_first: false },
    )
}

/// One step of the staged egress verification: stage 1 proves direct system egress (and
/// that it leaves through the expected Aether address), stage 2 proves system DNS, stage 3
/// proves egress by host name; each stage has four attempts.
pub fn egress_step(rec: &mut EgressRecord, stage: EgressStage, event: EgressEvent) -> (r: (
    EgressStage,
    EgressCommand,
))
    requires
        egress_stage_ok(stage),
    ensures
        (final(rec)@, r.0, r.1@) == egress_transition(old(rec)@, stage, event@),
        egress_stage_ok(r.0),
{
    match (stage, event) {
        (EgressStage::SystemEgress { attempt }, EgressEvent::SystemEgress(r)) => match r {
            Ok(t) => {
                let mismatch = match &rec.expected_ip {
                    Some(e) => t.ip.as_str().unicode_len() > 0 && e.as_str().unicode_len() > 0
                        && !text_eq(t.ip.as_str(), e.as_str()),
                    None => false,
                };
                if mismatch {
                    let expected = match &rec.expected_ip {
                        Some(e) => e.clone(),
                        None => String::new(),
                    };
                    let mut m = str_to_string("Stage 1 Egress Mismatch: System egress IP (");
                    m.append(t.ip.as_str());
                    m.append(") does not match Aether SOCKS egress IP (");
                    m.append(expected.as_str());
                    m.append("). Traffic is not traversing Aether outbound.");
                    (EgressStage::Done, EgressCommand::Finish(Err(m)))
                } else {
                    rec.last_error = String::new();
                    (EgressStage::SystemDns { attempt: 1 }, EgressCommand::ResolveSystemDns { pause_first: false })
                }
            },
            Err(e) => {
                if attempt < 4 {
                    rec.last_error = e;
                    (
                        EgressStage::SystemEgress { attempt: attempt + 1 },
                        EgressCommand::ProbeSystemEgress { pause_first: true },
                    )
                } else {
                    let mut m = str_to_string("Stage 1 Transport Failure: Direct system egress failed: ");
                    m.append(e.as_str());
                    rec.last_error = e;
                    (EgressStage::Done, EgressCommand::Finish(Err(m)))
                }
            },
        },
        (EgressStage::SystemDns { attempt }, EgressEvent::SystemDns { result, elapsed }) => match result {
            Ok(ips) => {
                if ips.len() > 0 {
                    rec.last_error = String::new();
                    (EgressStage::HostnameTrace { attempt: 1 }, EgressCommand::ProbeHostname { pause_first: false })
                } else {
                    let mut m = str_to_string("Stage 2 DNS Failure after ");
                    m.append(elapsed.as_str());
                    m.append("s: Windows system DNS resolution failed under TUN strict_route: ");
                    m.append(rec.last_error.as_str());
                    proof {
                        assert(string_texts(ips@).len() == 0);
                    }
                    (EgressStage::Done, EgressCommand::Finish(Err(m)))
                }
            },
            Err(e) => {
                if attempt < 4 {
                    rec.last_error = e;
                    (
                        EgressStage::SystemDns { attempt: attempt + 1 },
                        EgressCommand::ResolveSystemDns { pause_first: true },
                    )
                } else {
                    let mut m = str_to_string("Stage 2 DNS Failure after ");
                    m.append(elapsed.as_str());
                    m.append("s: Windows system DNS resolution failed under TUN strict_route: ");
                    m.append(e.as_str());
                    rec.last_error = e;
                    (EgressStage::Done, EgressCommand::Finish(Err(m)))
                }
            },
        },
        (EgressStage::HostnameTrace { attempt }, EgressEvent::HostnameTrace(r)) => match r {
            Ok(t) => (EgressStage::Done, EgressCommand::Finish(Ok(t))),
            Err(e) => {
                if attempt < 4 {
                    rec.last_error = e;
                    (
                        EgressStage::HostnameTrace { attempt: attempt + 1 },
                        EgressCommand::ProbeHostname { pause_first: true },
                    )
                } else {
                    let mut m = str_to_string(
                        "Stage 3 Hostname HTTPS Failure: Hostname HTTPS egress test failed after retries: ",
                    );
                    m.append(e.as_str());
                    rec.last_error = e;
                    (EgressStage::Done, EgressCommand::Finish(Err(m)))
                }
            },
        },
        _ => (
            stage,
            EgressCommand::Finish(
                Err(str_to_string("Unexpected observation for the current egress stage")),
            ),
        ),
    }
}

/// The egress verification passes only on a host-name trace in stage 3, which is reached
/// only after DNS resolved at least one address, which in turn is reached only when the
/// system egress address matched the expected Aether address (when both were known). A
/// stage gives up only after its fourth attempt.
pub proof fn law_egress_passes_only_through_all_stages(
    rec: EgressRecordView,
    stage: EgressStage,
    event: EgressEventView,
)
    requires
        egress_stage_ok(stage),
    ensures
        ({
            let (_, st2, cmd) = egress_transition(rec, stage, event);
            &&& cmd matches EgressCommandView::Finish(Ok(t)) ==> {
                &&& stage is HostnameTrace
                &&& event == EgressEventView::HostnameTrace(Ok(t))
            }
            &&& st2 is SystemDns && !(stage is SystemDns) ==> {
                &&& stage is SystemEgress
                &&& event matches EgressEventView::SystemEgress(Ok(t)) && !egress_mismatch(
                    rec.expected_ip,
                    t.ip,
                )
            }
            &&& st2 is HostnameTrace && !(stage is HostnameTrace) ==> {
                &&& stage is SystemDns
                &&& event matches EgressEventView::SystemDns { result: Ok(ips), .. } && ips.len() > 0
            }
            &&& (event matches EgressEventView::SystemEgress(Ok(t)) && stage is SystemEgress
                && egress_mismatch(rec.expected_ip, t.ip)) ==> cmd matches EgressCommandView::Finish(
                Err(_),
            )
        }),
{
}

// ---------------------------------------------------------------------------
// TUN adapter detection
// ---------------------------------------------------------------------------

/// A network adapter of the system.
#[derive(Debug, Clone)]
pub struct DetectedAdapterInfo {
    pub friendly_name: String,
    pub description: String,
    pub adapter_name: String,
    pub if_index: u32,
    pub is_up: bool,
    pub ip_addresses: Vec<String>,
}

/// The address part of a configured TUN address (`172.19.0.1/30` gives `172.19.0.1`).
pub open spec fn stripped_tun_ip(addr: Seq<char>) -> Seq<char> {
    match split_once_char(addr, '/') {
        Some((ip, _)) => trim(ip),
        None => trim(addr),
    }
}

/// Whether an adapter is the configured TUN adapter: its name is the interface name (compared
/// case-insensitively), it carries the configured address, or (for a sing-box or Wintun interface) it is an active
/// Wintun or sing-box adapter.
pub open spec fn adapter_matches(target: Seq<char>, tun_ip: Option<Seq<char>>, a: DetectedAdapterInfo) -> bool {
    let f = crate::text::unicode_lowercase(a.friendly_name@);
    let d = crate::text::unicode_lowercase(a.description@);
    let ips = string_texts(a.ip_addresses@);
    ||| f == target
    ||| (match tun_ip {
        Some(ip) => ip.len() > 0 && ips.contains(ip),
        None => false,
    })
    ||| (contains_text(target, "wintun"@) || contains_text(target, "singbox"@)) && (contains_text(
        d,
        "wintun"@,
    ) || contains_text(d, "singbox"@) || contains_text(f, "singbox"@)) && (a.is_up || ips.len() > 0)
}

/// The first adapter that matches.
pub open spec fn first_match(target: Seq<char>, tun_ip: Option<Seq<char>>, adapters: Seq<DetectedAdapterInfo>, from: int) -> Option<int>
    decreases adapters.len() - from,
{
    if from < 0 || from >= adapters.len() {
        None
    } else if adapter_matches(target, tun_ip, adapters[from]) {
        Some(from)
    } else {
        first_match(target, tun_ip, adapters, from + 1)
    }
}

/// The configured address without its prefix length, when one is configured.
pub open spec fn tun_ip_of(addr: Option<Seq<char>>) -> Option<Seq<char>> {
    match addr {
        Some(a) => Some(stripped_tun_ip(a)),
        None => None,
    }
}

fn contains_str(t: &[char], p: &str) -> (r: bool)
    ensures
        r == contains_text(t@, p@),
{
    crate::text::contains_exec(t, &chars_of(p))
}

fn holds_text(v: &Vec<String>, t: &str) -> (r: bool)
    ensures
        r == string_texts(v@).contains(t@),
{
    let ghost iv = string_texts(v@);
    let mut k: usize = 0;
    while k < v.len()
        invariant
            k <= v@.len(),
            iv == string_texts(v@),
            forall|j: int| 0 <= j < k ==> iv[j] != t@,
        decreases v@.len() - k,
    {
        if text_eq(v[k].as_str(), t) {
            proof {
                assert(iv[k as int] == t@);
            }
            return true;
        }
        k = k + 1;
    }
    false
}

fn adapter_matches_exec(target: &Vec<char>, tun_ip: &Option<String>, a: &DetectedAdapterInfo) -> (r: bool)
    ensures
        r == adapter_matches(
            target@,
            match tun_ip {
                Some(s) => Some(s@),
                None => None,
            },
            *a,
        ),
{
    let f_text = crate::text::to_lowercase(a.friendly_name.as_str());
    let d_text = crate::text::to_lowercase(a.description.as_str());
    let f = chars_of(f_text.as_str());
    let d = chars_of(d_text.as_str());
    let target_text = string_of(target);
    if text_eq(f_text.as_str(), target_text.as_str()) {
        return true;
    }
    match tun_ip {
        Some(ip) => {
            if ip.as_str().unicode_len() > 0 && holds_text(&a.ip_addresses, ip.as_str()) {
                return true;
            }
        },
        None => {},
    }
    let wants_wintun = contains_str(target, "wintun") || contains_str(target, "singbox");
    let is_wintun = contains_str(&d, "wintun") || contains_str(&d, "singbox") || contains_str(
        &f,
        "singbox",
    );
    wants_wintun && is_wintun && (a.is_up || a.ip_addresses.len() > 0)
}

/// The index of the first adapter that is the configured TUN adapter.
pub fn find_tun_adapter(
    interface_name: &str,
    configured_tun_address: Option<&str>,
    adapters: &Vec<DetectedAdapterInfo>,
) -> (r: Option<usize>)
    ensures
        match r {
            Some(i) => first_match(
                crate::text::unicode_lowercase(interface_name@),
                tun_ip_of(crate::routing::secondary::str_opt(configured_tun_address)),
                adapters@,
                0,
            ) == Some(i as int),
            None => first_match(
                crate::text::unicode_lowercase(interface_name@),
                tun_ip_of(crate::routing::secondary::str_opt(configured_tun_address)),
                adapters@,
                0,
            ) is None,
        },
{
    let target_text = crate::text::to_lowercase(interface_name);
    let target = chars_of(target_text.as_str());
    let tun_ip: Option<String> = match configured_tun_address {
        Some(addr) => {
            let c = chars_of(addr);
            let n = c.len();
            let ip = match crate::text::find_char_exec(c.as_slice(), '/', 0) {
                Some(i) => trim_chars(&crate::text::slice_chars(&c, 0, i)),
                None => trim_chars(&c),
            };
            proof {
                assert(c@.subrange(0, n as int) =~= c@);
            }
            Some(string_of(&ip))
        },
        None => None,
    };
    let ghost tip = tun_ip_of(crate::routing::secondary::str_opt(configured_tun_address));
    proof {
        assert(match tun_ip {
            Some(s) => Some(s@),
            None => None::<Seq<char>>,
        } == tip);
    }
    let mut k: usize = 0;
    while k < adapters.len()
        invariant
            k <= adapters@.len(),
            target@ == crate::text::unicode_lowercase(interface_name@),
            tip == tun_ip_of(crate::routing::secondary::str_opt(configured_tun_address)),
            (match tun_ip {
                Some(s) => Some(s@),
                None => None::<Seq<char>>,
            }) == tip,
            first_match(target@, tip, adapters@, 0) == first_match(target@, tip, adapters@, k as int),
        decreases adapters@.len() - k,
    {
        if adapter_matches_exec(&target, &tun_ip, &adapters[k]) {
            proof {
                assert(first_match(target@, tip, adapters@, k as int) == Some(k as int));
            }
            return Some(k);
        }
        k = k + 1;
    }
    None
}

/// Whether a network name of the system is the configured TUN interface.
pub open spec fn network_name_matches(target: Seq<char>, name: Seq<char>) -> bool {
    let n = crate::text::unicode_lowercase(name);
    n == target || (target.len() > 0 && contains_text(n, target)) || (contains_text(
        target,
        "singbox"@,
    ) && contains_text(n, "singbox"@))
}

/// Whether one of the system's network names is the configured TUN interface (the check
/// used when no adapter matched).
pub fn tun_network_present(interface_name: &str, network_names: &Vec<String>) -> (r: bool)
    ensures
        r == exists|i: int|
            0 <= i < network_names@.len() && network_name_matches(
                crate::text::unicode_lowercase(interface_name@),
                #[trigger] network_names@[i]@,
            ),
{
    let target_text = crate::text::to_lowercase(interface_name);
    let target = chars_of(target_text.as_str());
    let wants_singbox = contains_str(&target, "singbox");
    let mut k: usize = 0;
    while k < network_names.len()
        invariant
            k <= network_names@.len(),
            target@ == crate::text::unicode_lowercase(interface_name@),
            target@ == target_text@,
            wants_singbox == contains_text(target@, "singbox"@),
            forall|j: int| 0 <= j < k ==> !network_name_matches(target@, #[trigger] network_names@[j]@),
        decreases network_names@.len() - k,
    {
        let n_text = crate::text::to_lowercase(network_names[k].as_str());
        let n = chars_of(n_text.as_str());
        if text_eq(n_text.as_str(), target_text.as_str()) || (target.len() > 0
            && crate::text::contains_exec(&n, &target)) || (wants_singbox && contains_str(
            &n,
            "singbox",
        )) {
            proof {
                assert(network_name_matches(target@, network_names@[k as int]@));
            }
            return true;
        }
        k = k + 1;
    }
    false
}

// ---------------------------------------------------------------------------
// Waiting for a TUN adapter to go away
// ---------------------------------------------------------------------------

/// An observation of a TUN teardown wait.
#[derive(Debug, Clone, Copy)]
pub enum TeardownObservation {
    /// Milliseconds since the wait started.
    Clock { elapsed_ms: u64 },
    /// Whether the adapter is still present.
    Adapter { present: bool },
}

/// What a TUN teardown wait does next.
#[derive(Debug, Clone, Copy, PartialEq, Eq, Structural)]
pub enum TeardownPoll {
    /// Check whether the adapter is still present.
    CheckAdapter,
    /// Pause for the poll interval, then read the clock again.
    Sleep,
    /// The adapter is gone: the wait succeeds.
    Released,
    /// The timeout passed with the adapter still present: the wait fails.
    TimedOut,
}

/// The decision of a teardown wait: while the timeout has not passed the adapter is
/// checked; a present adapter means another pause, a missing one ends the wait.
pub open spec fn teardown_decision(timeout_ms: u64, obs: TeardownObservation) -> TeardownPoll {
    match obs {
        TeardownObservation::Clock { elapsed_ms } => if elapsed_ms < timeout_ms {
            TeardownPoll::CheckAdapter
        } else {
            TeardownPoll::TimedOut
        },
        TeardownObservation::Adapter { present } => if present {
            TeardownPoll::Sleep
        } else {
            TeardownPoll::Released
        },
    }
}

/// The error of a teardown wait for a named interface that timed out; `seconds` is the
/// timeout in seconds as displayed.
pub open spec fn interface_teardown_message(interface_name: Seq<char>, seconds: Seq<char>) -> Seq<char> {
    "TUN interface '"@ + interface_name + "' was not released by Windows within "@ + seconds + "s"@
}

/// The error of a teardown wait that timed out; `seconds` is the timeout in seconds as
/// displayed.
pub open spec fn teardown_timeout_message(seconds: Seq<char>) -> Seq<char> {
    "TUN teardown timed out after "@ + seconds + "s"@
}

impl HealthProber {
    /// One decision of a TUN teardown wait (the wait polls before a fresh scan or a
    /// rollback, so that the old adapter and its routes are gone first).
    pub fn teardown_poll(timeout_ms: u64, obs: TeardownObservation) -> (r: TeardownPoll)
        ensures
            r == teardown_decision(timeout_ms, obs),
    {
        match obs {
            TeardownObservation::Clock { elapsed_ms } => if elapsed_ms < timeout_ms {
                TeardownPoll::CheckAdapter
            } else {
                TeardownPoll::TimedOut
            },
            TeardownObservation::Adapter { present } => if present {
                TeardownPoll::Sleep
            } else {
                TeardownPoll::Released
            },
        }
    }

    /// The error of a timed-out wait for `interface_name`.
    pub fn interface_teardown_error(interface_name: &str, seconds: &str) -> (r: String)
        ensures
            r@ == interface_teardown_message(interface_name@, seconds@),
    {
        let mut m = str_to_string("TUN interface '");
        m.append(interface_name);
        m.append("' was not released by Windows within ");
        m.append(seconds);
        m.append("s");
        m
    }

    /// The error of a timed-out teardown wait.
    pub fn teardown_timeout_error(seconds: &str) -> (r: String)
        ensures
            r@ == teardown_timeout_message(seconds@),
    {
        let mut m = str_to_string("TUN teardown timed out after ");
        m.append(seconds);
        m.append("s");
        m
    }
}


// ---------------------------------------------------------------------------
// Health report
// ---------------------------------------------------------------------------

/// What the health probes observed.
#[derive(Debug)]
pub struct HealthObservations {
    /// The Aether SOCKS port accepted a connection.
    pub aether_socks_open: bool,
    /// The trace through the Aether proxy, taken when its port was open.
    pub aether_trace: Option<Result<CloudflareTrace, String>>,
    /// The configured TUN adapter exists, and the adapter that matched when known.
    pub tun_exists: bool,
    pub matched_adapter: Option<DetectedAdapterInfo>,
    /// The secondary proxy port accepted a connection (probed when it is enabled).
    pub secondary_open: bool,
    /// The trace through the secondary proxy, taken when its port was open.
    pub secondary_trace: Option<Result<CloudflareTrace, String>>,
    /// The time of the check, in milliseconds since the epoch.
    pub now_ms: i64,
}

/// Model of a component's health.
pub struct HealthView {
    pub ok: bool,
    pub message: Seq<char>,
    pub latency_ms: Option<u64>,
}

/// Model of a component's health.
pub open spec fn health_view(h: ServiceHealth) -> HealthView {
    HealthView { ok: h.ok, message: h.message@, latency_ms: h.latency_ms }
}

/// A healthy component.
pub open spec fn good(m: Seq<char>) -> HealthView {
    HealthView { ok: true, message: m, latency_ms: None }
}

/// A failing component.
pub open spec fn bad(m: Seq<char>) -> HealthView {
    HealthView { ok: false, message: m, latency_ms: None }
}

/// `host:port`.
pub open spec fn endpoint_text(host: Seq<char>, port: u16) -> Seq<char> {
    host + ":"@ + decimal(port as nat)
}

/// Health of the Aether tunnel from the trace through its proxy.
pub open spec fn tunnel_health(socks_open: bool, trace: Option<Result<CloudflareTrace, String>>) -> HealthView {
    if !socks_open {
        bad("Unavailable (SOCKS port closed)"@)
    } else {
        match trace {
            Some(Ok(t)) => HealthView {
                ok: true,
                message: "Connected \u{b7} POP: "@ + t.colo@ + " \u{b7} "@ + decimal(
                    t.latency_ms as nat,
                ) + " ms"@,
                latency_ms: Some(t.latency_ms),
            },
            Some(Err(e)) => bad("Trace probe failed: "@ + e@),
            None => bad("Trace probe failed: "@),
        }
    }
}

/// Health of the TUN adapter.
pub open spec fn tun_health(
    exists: bool,
    matched: Option<DetectedAdapterInfo>,
    name: Seq<char>,
    is_connected: bool,
) -> HealthView {
    if exists {
        match matched {
            Some(info) => good(
                "Adapter '"@ + info.friendly_name@ + "' active"@ + if info.ip_addresses@.len()
                    == 0 {
                    Seq::empty()
                } else {
                    " \u{b7} IP: "@ + join(string_texts(info.ip_addresses@), ", "@)
                },
            ),
            None => good("Adapter '"@ + name + "' active"@),
        }
    } else if is_connected {
        bad("Adapter '"@ + name + "' not found in network stack"@)
    } else {
        bad("Inactive (Disconnected)"@)
    }
}

/// Health of the secondary proxy.
pub open spec fn secondary_health(
    enabled: bool,
    open: bool,
    trace: Option<Result<CloudflareTrace, String>>,
    host: Seq<char>,
    port: u16,
) -> HealthView {
    if !enabled {
        good("Disabled in settings"@)
    } else if !open {
        bad(endpoint_text(host, port) + " unreachable"@)
    } else {
        match trace {
            Some(Ok(t)) => HealthView {
                ok: true,
                message: "Connected \u{b7} POP: "@ + t.colo@ + " \u{b7} IP: "@ + t.ip@,
                latency_ms: Some(t.latency_ms),
            },
            Some(Err(e)) => bad("Port reachable but SOCKS request failed: "@ + e@),
            None => bad("Port reachable but SOCKS request failed: "@),
        }
    }
}

fn health_of(ok: bool, msg: String, latency_ms: Option<u64>) -> (r: ServiceHealth)
    ensures
        health_view(r) == (HealthView { ok, message: msg@, latency_ms }),
{
    ServiceHealth { ok, message: msg, latency_ms }
}

fn endpoint_text_exec(host: &str, port: u16) -> (r: String)
    ensures
        r@ == endpoint_text(host@, port),
{
    let mut s = str_to_string(host);
    s.append(":");
    let d = decimal_string(port as u64);
    s.append(d.as_str());
    s
}

/// The health report of every component from what the probes observed.
pub fn assemble_health(
    aether_host: &str,
    aether_port: u16,
    secondary_host: &str,
    secondary_port: u16,
    secondary_enabled: bool,
    tun_interface_name: &str,
    aether_process_running: bool,
    singbox_process_running: bool,
    is_connected: bool,
    obs: HealthObservations,
) -> (r: HealthStatus)
    ensures
        health_view(r.aether_process) == if aether_process_running {
            good("Running (Managed)"@)
        } else if obs.aether_socks_open {
            good("Active (External Listener)"@)
        } else {
            bad("Not running"@)
        },
        health_view(r.aether_socks) == if obs.aether_socks_open {
            good("Listening on "@ + endpoint_text(aether_host@, aether_port))
        } else {
            bad("Port "@ + endpoint_text(aether_host@, aether_port) + " closed or unreachable"@)
        },
        health_view(r.aether_tunnel) == tunnel_health(obs.aether_socks_open, obs.aether_trace),
        r.cloudflare_trace == (if obs.aether_socks_open {
            match obs.aether_trace {
                Some(Ok(t)) => Some(t),
                _ => None,
            }
        } else {
            None
        }),
        health_view(r.singbox_process) == if singbox_process_running {
            good("Running (Active)"@)
        } else if is_connected {
            bad("Exited unexpectedly"@)
        } else {
            bad("Not running (Disconnected)"@)
        },
        health_view(r.tun_interface) == tun_health(
            obs.tun_exists,
            obs.matched_adapter,
            tun_interface_name@,
            is_connected,
        ),
        health_view(r.secondary_proxy) == secondary_health(
            secondary_enabled,
            obs.secondary_open,
            obs.secondary_trace,
            secondary_host@,
            secondary_port,
        ),
        health_view(r.routing) == if is_connected && singbox_process_running && obs.tun_exists {
            good("TUN Routing Active"@)
        } else if is_connected {
            bad("Degraded / Tunnel Interface Missing"@)
        } else {
            bad("Direct (VPN Disconnected)"@)
        },
        health_view(r.internet) == if tunnel_health(obs.aether_socks_open, obs.aether_trace).ok || (
        secondary_enabled && secondary_health(
            secondary_enabled,
            obs.secondary_open,
            obs.secondary_trace,
            secondary_host@,
            secondary_port,
        ).ok) {
            good("Active"@)
        } else {
            bad("No verified internet route"@)
        },
        r.last_checked_epoch_ms == obs.now_ms,
{
    let aether_process = if aether_process_running {
        ServiceHealth::ok("Running (Managed)")
    } else if obs.aether_socks_open {
        ServiceHealth::ok("Active (External Listener)")
    } else {
        ServiceHealth::err("Not running")
    };
    let aether_endpoint = endpoint_text_exec(aether_host, aether_port);
    let aether_socks = if obs.aether_socks_open {
        let mut m = str_to_string("Listening on ");
        m.append(aether_endpoint.as_str());
        health_of(true, m, None)
    } else {
        let mut m = str_to_string("Port ");
        m.append(aether_endpoint.as_str());
        m.append(" closed or unreachable");
        health_of(false, m, None)
    };
    let (aether_tunnel, trace_opt) = if obs.aether_socks_open {
        match obs.aether_trace {
            Some(Ok(t)) => {
                let lat = t.latency_ms;
                let mut m = str_to_string("Connected \u{b7} POP: ");
                m.append(t.colo.as_str());
                m.append(" \u{b7} ");
                let d = decimal_string(lat);
                m.append(d.as_str());
                m.append(" ms");
                (health_of(true, m, Some(lat)), Some(t))
            },
            Some(Err(e)) => {
                let mut m = str_to_string("Trace probe failed: ");
                m.append(e.as_str());
                (health_of(false, m, None), None)
            },
            None => (health_of(false, str_to_string("Trace probe failed: "), None), None),
        }
    } else {
        (ServiceHealth::err("Unavailable (SOCKS port closed)"), None)
    };
    let singbox_process = if singbox_process_running {
        ServiceHealth::ok("Running (Active)")
    } else if is_connected {
        ServiceHealth::err("Exited unexpectedly")
    } else {
        ServiceHealth::err("Not running (Disconnected)")
    };
    let tun_interface = if obs.tun_exists {
        match &obs.matched_adapter {
            Some(info) => {
                let mut m = str_to_string("Adapter '");
                m.append(info.friendly_name.as_str());
                m.append("' active");
                if info.ip_addresses.len() > 0 {
                    let ghost head = m@;
                    m.append(" \u{b7} IP: ");
                    let j = join_exec(&info.ip_addresses, ", ");
                    m.append(j.as_str());
                    proof {
                        assert(m@ =~= head + (" \u{b7} IP: "@ + j@));
                    }
                } else {
                    proof {
                        assert(m@ =~= m@ + Seq::<char>::empty());
                    }
                }
                health_of(true, m, None)
            },
            None => {
                let mut m = str_to_string("Adapter '");
                m.append(tun_interface_name);
                m.append("' active");
                health_of(true, m, None)
            },
        }
    } else if is_connected {
        let mut m = str_to_string("Adapter '");
        m.append(tun_interface_name);
        m.append("' not found in network stack");
        health_of(false, m, None)
    } else {
        ServiceHealth::err("Inactive (Disconnected)")
    };
    let secondary_proxy = if !secondary_enabled {
        ServiceHealth::ok("Disabled in settings")
    } else if !obs.secondary_open {
        let mut m = endpoint_text_exec(secondary_host, secondary_port);
        m.append(" unreachable");
        health_of(false, m, None)
    } else {
        match &obs.secondary_trace {
            Some(Ok(t)) => {
                let mut m = str_to_string("Connected \u{b7} POP: ");
                m.append(t.colo.as_str());
                m.append(" \u{b7} IP: ");
                m.append(t.ip.as_str());
                health_of(true, m, Some(t.latency_ms))
            },
            Some(Err(e)) => {
                let mut m = str_to_string("Port reachable but SOCKS request failed: ");
                m.append(e.as_str());
                health_of(false, m, None)
            },
            None => health_of(
                false,
                str_to_string("Port reachable but SOCKS request failed: "),
                None,
            ),
        }
    };
    let routing = if is_connected && singbox_process_running && obs.tun_exists {
        ServiceHealth::ok("TUN Routing Active")
    } else if is_connected {
        ServiceHealth::err("Degraded / Tunnel Interface Missing")
    } else {
        ServiceHealth::err("Direct (VPN Disconnected)")
    };
    let internet = if aether_tunnel.ok || (secondary_enabled && secondary_proxy.ok) {
        ServiceHealth::ok("Active")
    } else {
        ServiceHealth::err("No verified internet route")
    };
    HealthStatus {
        internet,
        aether_process,
        aether_socks,
        aether_tunnel,
        singbox_process,
        tun_interface,
        secondary_proxy,
        routing,
        cloudflare_trace: trace_opt,
        last_checked_epoch_ms: obs.now_ms,
    }
}

/// What a sweep over endpoints answers: the first trace obtained, else the last failure
/// (empty when no endpoint was tried).
pub open spec fn sweep_spec(attempts: Seq<Result<CloudflareTrace, String>>, i: int) -> Result<TraceView, Seq<char>>
    decreases attempts.len() - i,
{
    if i < 0 || i >= attempts.len() {
        Err(last_error(attempts))
    } else {
        match attempts[i] {
            Ok(t) => Ok(trace_view(t)),
            Err(_) => sweep_spec(attempts, i + 1),
        }
    }
}

/// The outcome of trying trace endpoints in order: the first trace, or the last failure.
pub fn sweep_result(attempts: Vec<Result<CloudflareTrace, String>>) -> (r: Result<CloudflareTrace, String>)
    ensures
        trace_result(r) == sweep_spec(attempts@, 0),
{
    let ghost av = attempts@;
    let mut last_err = String::new();
    let mut i: usize = 0;
    let n = attempts.len();
    let mut rest = attempts;
    while i < n
        invariant
            av == attempts@,
            n == av.len(),
            i <= n,
            rest@ == av.subrange(i as int, n as int),
            sweep_spec(av, 0) == sweep_spec(av, i as int),
            forall|j: int| 0 <= j < i ==> av[j] is Err,
            last_err@ == last_error(av.subrange(0, i as int)),
        decreases n - i,
    {
        let a = rest.remove(0);
        proof {
            assert(a == av[i as int]);
            assert(av.subrange(0, i + 1).drop_last() =~= av.subrange(0, i as int));
            assert(av.subrange(i + 1, n as int) =~= av.subrange(i as int, n as int).drop_first());
        }
        match a {
            Ok(t) => {
                proof {
                    assert(av[i as int] == Ok::<CloudflareTrace, String>(t));
                    assert(sweep_spec(av, i as int) == Ok::<TraceView, Seq<char>>(trace_view(t)));
                }
                return Ok(t);
            },
            Err(e) => {
                last_err = e;
            },
        }
        i = i + 1;
    }
    proof {
        assert(av.subrange(0, n as int) =~= av);
    }
    Err(last_err)
}

} // verus!
