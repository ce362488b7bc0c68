//! Import of secondary proxies from VLESS, VMess, Trojan and Shadowsocks share links and
//! from subscription payloads (share-link lists, plain or base64).
use vstd::prelude::*;
use base64::Engine;
use crate::models::settings::SecondaryProxyProfile;
use crate::models::singbox::{
    OutboundConfig, OutboundReality, OutboundTls, OutboundUtls, ShadowsocksOutbound, Transport,
    TrojanOutbound, VlessOutbound, VmessOutbound,
};
use crate::routing::generator::text_eq;
use crate::text::{
    chars_of, eq_ignore_ascii_case, eq_ignore_case, seq_ascii_lower, str_to_string, string_of,
    to_ascii_lowercase, trim, find_char_from,
};

verus! {

/// Tag of every imported secondary outbound.
pub const SECONDARY_TAG: &'static str = "v2ray";

/// Largest number of profiles a subscription may hold.
pub const MAX_SUBSCRIPTION_PROFILES: usize = 200;

// ---------------------------------------------------------------------------
// Outside parsers
// ---------------------------------------------------------------------------

/// The parts of a parsed URL that share links use.
#[derive(Debug, Clone)]
pub struct UrlParts {
    /// The scheme, in lower case.
    pub scheme: String,
    /// The whole URL as the parser serializes it.
    pub serialization: String,
    /// The user name, still percent-encoded.
    pub username: String,
    /// The host, when the URL has one.
    pub host: Option<String>,
    /// The port, when the URL names one that is not its scheme's default.
    pub port: Option<u16>,
    /// The decoded query pairs, in order.
    pub query: Vec<(String, String)>,
    /// The fragment, still percent-encoded.
    pub fragment: Option<String>,
}

/// Model of parsed URL parts.
pub struct UrlView {
    pub scheme: Seq<char>,
    pub serialization: Seq<char>,
    pub username: Seq<char>,
    pub host: Option<Seq<char>>,
    pub port: Option<u16>,
    pub query: Seq<(Seq<char>, Seq<char>)>,
    pub fragment: Option<Seq<char>>,
}

/// Model of the query pairs.
pub open spec fn pairs_view(q: Seq<(String, String)>) -> Seq<(Seq<char>, Seq<char>)> {
    q.map_values(|p: (String, String)| (p.0@, p.1@))
}

/// Model of optional text.
pub open spec fn text_opt(o: Option<String>) -> Option<Seq<char>> {
    match o {
        Some(s) => Some(s@),
        None => None,
    }
}

impl View for UrlParts {
    type V = UrlView;

    open spec fn view(&self) -> UrlView {
        UrlView {
            scheme: self.scheme@,
            serialization: self.serialization@,
            username: self.username@,
            host: text_opt(self.host),
            port: self.port,
            query: pairs_view(self.query@),
            fragment: text_opt(self.fragment),
        }
    }
}

/// What `url::Url::parse` makes of a text: its parts, or the text of its error.
pub uninterp spec fn url_parse_result(text: Seq<char>) -> Result<UrlView, Seq<char>>;

/// Parses a URL with `url::Url::parse` and takes its scheme, serialization, user name,
/// host, port, query pairs and fragment (`scheme`, `as_str`, `username`, `host_str`, `port`,
/// `query_pairs`, `fragment`), or the text of the parse error. The result is that of the `url` crate, named `url_parse_result`.
#[verifier::external_body]
pub(crate) fn parse_url(text: &str) -> (r: Result<UrlParts, String>)
    ensures
        match r {
            Ok(u) => url_parse_result(text@) == Ok::<UrlView, Seq<char>>(u@),
            Err(e) => url_parse_result(text@) == Err::<UrlView, Seq<char>>(e@),
        },
{
    match url::Url::parse(text) {
        Ok(u) => Ok(UrlParts {
            scheme: u.scheme().to_string(),
            serialization: u.as_str().to_string(),
            username: u.username().to_string(),
            host: u.host_str().map(str::to_string),
            port: u.port(),
            query: u.query_pairs().map(|(k, v)| (k.into_owned(), v.into_owned())).collect(),
            fragment: u.fragment().map(str::to_string),
        }),
        Err(e) => Err(e.to_string()),
    }
}

/// Percent-decoding followed by lossy UTF-8 decoding, as `percent_encoding` does it.
pub uninterp spec fn percent_decoded(text: Seq<char>) -> Seq<char>;

/// `percent_encoding::percent_decode_str(value).decode_utf8_lossy()`: every `%` followed by
/// two hexadecimal digits becomes that byte, and invalid UTF-8 becomes U+FFFD. The result
/// is named `percent_decoded`.
#[verifier::external_body]
fn decode(value: &str) -> (r: String)
    ensures
        r@ == percent_decoded(value@),
{
    percent_encoding::percent_decode_str(value).decode_utf8_lossy().into_owned()
}

/// Percent-decoding followed by strict UTF-8 decoding, as `percent_encoding` does it:
/// `None` when the decoded bytes are not UTF-8.
pub uninterp spec fn percent_decoded_strict(text: Seq<char>) -> Option<Seq<char>>;

/// `percent_encoding::percent_decode_str(value).decode_utf8()`: the decoded text, or `None`
/// when the decoded bytes are not valid UTF-8. The result is named `percent_decoded_strict`.
#[verifier::external_body]
pub(crate) fn decode_strict(value: &str) -> (r: Option<String>)
    ensures
        match r {
            Some(s) => percent_decoded_strict(value@) == Some(s@),
            None => percent_decoded_strict(value@) is None,
        },
{
    percent_encoding::percent_decode_str(value).decode_utf8().ok().map(|s| s.into_owned())
}

/// The four base64 alphabets tried in turn.
#[derive(Debug, Clone, Copy, PartialEq, Eq, Structural)]
pub enum Base64Alphabet {
    Standard,
    StandardNoPad,
    UrlSafe,
    UrlSafeNoPad,
}

/// What a base64 engine of the `base64` crate decodes a text to, if it accepts it.
pub uninterp spec fn base64_decoded(alphabet: Base64Alphabet, text: Seq<char>) -> Option<Seq<u8>>;

/// `base64::Engine::decode` with the `general_purpose` engine of the alphabet: the bytes,
/// or `None` when the engine refuses the text. The result is named `base64_decoded`.
#[verifier::external_body]
fn base64_decode(alphabet: Base64Alphabet, text: &str) -> (r: Option<Vec<u8>>)
    ensures
        match r {
            Some(b) => base64_decoded(alphabet, text@) == Some(b@),
            None => base64_decoded(alphabet, text@) is None,
        },
{
    let engine = match alphabet {
        Base64Alphabet::Standard => &base64::engine::general_purpose::STANDARD,
        Base64Alphabet::StandardNoPad => &base64::engine::general_purpose::STANDARD_NO_PAD,
        Base64Alphabet::UrlSafe => &base64::engine::general_purpose::URL_SAFE,
        Base64Alphabet::UrlSafeNoPad => &base64::engine::general_purpose::URL_SAFE_NO_PAD,
    };
    engine.decode(text).ok()
}

/// The text of UTF-8 bytes, if they are valid UTF-8.
pub uninterp spec fn utf8_text(bytes: Seq<u8>) -> Option<Seq<char>>;

/// `String::from_utf8`: the text, or `None` for invalid UTF-8. Named `utf8_text`.
#[verifier::external_body]
pub(crate) fn text_from_utf8(bytes: Vec<u8>) -> (r: Option<String>)
    ensures
        match r {
            Some(s) => utf8_text(bytes@) == Some(s@),
            None => utf8_text(bytes@) is None,
        },
{
    String::from_utf8(bytes).ok()
}

/// Whether `uuid::Uuid::parse_str` accepts a text.
pub uninterp spec fn uuid_accepts(text: Seq<char>) -> bool;

/// `uuid::Uuid::parse_str(text).is_ok()`. Named `uuid_accepts`.
#[verifier::external_body]
fn is_uuid(text: &str) -> (r: bool)
    ensures
        r == uuid_accepts(text@),
{
    uuid::Uuid::parse_str(text).is_ok()
}

/// A JSON value as the VMess link reads it.
#[derive(Debug, Clone)]
pub enum JsonField {
    Null,
    Bool(bool),
    /// A number, with its value when it is a non-negative integer that fits `u64`.
    Number(Option<u64>),
    Text(String),
    /// An array or an object.
    Composite,
}

/// Model of a JSON value.
pub enum JsonFieldView {
    Null,
    Bool(bool),
    Number(Option<u64>),
    Text(Seq<char>),
    Composite,
}

impl View for JsonField {
    type V = JsonFieldView;

    open spec fn view(&self) -> JsonFieldView {
        match self {
            JsonField::Null => JsonFieldView::Null,
            JsonField::Bool(b) => JsonFieldView::Bool(*b),
            JsonField::Number(n) => JsonFieldView::Number(*n),
            JsonField::Text(s) => JsonFieldView::Text(s@),
            JsonField::Composite => JsonFieldView::Composite,
        }
    }
}

/// Model of the members of a JSON object.
pub open spec fn members_view(m: Seq<(String, JsonField)>) -> Seq<(Seq<char>, JsonFieldView)> {
    m.map_values(|p: (String, JsonField)| (p.0@, p.1@))
}

/// What `serde_json` makes of a JSON text: the members of the object it holds (`None` when
/// it holds another kind of value), or the text of the syntax error.
pub uninterp spec fn json_object_members(text: Seq<char>) -> Result<
    Option<Seq<(Seq<char>, JsonFieldView)>>,
    Seq<char>,
>;

/// `serde_json::from_str::<serde_json::Value>`: the members of the object, each value told
/// apart by its variant (numbers by `as_u64`), or the text of the error. Named
/// `json_object_members`.
#[verifier::external_body]
fn parse_json_object(text: &str) -> (r: Result<Option<Vec<(String, JsonField)>>, String>)
    ensures
        match r {
            Ok(Some(m)) => json_object_members(text@) == Ok::<_, Seq<char>>(Some(members_view(m@))),
            Ok(None) => json_object_members(text@) == Ok::<_, Seq<char>>(None::<Seq<(Seq<char>, JsonFieldView)>>),
            Err(e) => json_object_members(text@) == Err::<Option<Seq<(Seq<char>, JsonFieldView)>>, _>(e@),
        },
{
    match serde_json::from_str::<serde_json::Value>(text) {
        Ok(serde_json::Value::Object(map)) => Ok(Some(map.into_iter().map(|(k, v)| (k, match v {
            serde_json::Value::Null => JsonField::Null,
            serde_json::Value::Bool(b) => JsonField::Bool(b),
            serde_json::Value::Number(n) => JsonField::Number(n.as_u64()),
            serde_json::Value::String(s) => JsonField::Text(s),
            _ => JsonField::Composite,
        })).collect())),
        Ok(_) => Ok(None),
        Err(e) => Err(e.to_string()),
    }
}

// ---------------------------------------------------------------------------
// Models of the imported outbound
// ---------------------------------------------------------------------------

/// Model of a transport.
pub enum TransportView {
    WebSocket { path: Seq<char>, host_header: Option<Seq<char>> },
    Grpc { service_name: Seq<char> },
    HttpUpgrade { host: Seq<char>, path: Seq<char> },
    Http { host: Seq<Seq<char>>, path: Seq<char> },
}

/// Model of a list of texts.
pub open spec fn texts(v: Seq<String>) -> Seq<Seq<char>> {
    v.map_values(|x: String| x@)
}

/// Model of a transport.
pub open spec fn transport_view(t: Transport) -> TransportView {
    match t {
        Transport::WebSocket { path, host_header } => TransportView::WebSocket {
            path: path@,
            host_header: text_opt(host_header),
        },
        Transport::Grpc { service_name } => TransportView::Grpc { service_name: service_name@ },
        Transport::HttpUpgrade { host, path } => TransportView::HttpUpgrade { host: host@, path: path@ },
        Transport::Http { host, path } => TransportView::Http { host: texts(host@), path: path@ },
    }
}

/// Model of an optional transport.
pub open spec fn transport_opt(t: Option<Transport>) -> Option<TransportView> {
    match t {
        Some(x) => Some(transport_view(x)),
        None => None,
    }
}

/// Model of outbound TLS settings.
pub struct TlsView {
    pub enabled: bool,
    pub server_name: Option<Seq<char>>,
    pub insecure: bool,
    pub alpn: Seq<Seq<char>>,
    /// `(enabled, fingerprint)` of uTLS.
    pub utls: Option<(bool, Seq<char>)>,
    /// `(enabled, public_key, short_id)` of Reality.
    pub reality: Option<(bool, Seq<char>, Seq<char>)>,
}

/// Model of TLS settings.
pub open spec fn tls_view(t: OutboundTls) -> TlsView {
    TlsView {
        enabled: t.enabled,
        server_name: text_opt(t.server_name),
        insecure: t.insecure,
        alpn: texts(t.alpn@),
        utls: match t.utls {
            Some(u) => Some((u.enabled, u.fingerprint@)),
            None => None,
        },
        reality: match t.reality {
            Some(x) => Some((x.enabled, x.public_key@, x.short_id@)),
            None => None,
        },
    }
}

/// Model of optional TLS settings.
pub open spec fn tls_opt(t: Option<OutboundTls>) -> Option<TlsView> {
    match t {
        Some(x) => Some(tls_view(x)),
        None => None,
    }
}

/// Model of an imported outbound.
pub enum ShareOutboundView {
    Vless {
        tag: Seq<char>,
        server: Seq<char>,
        server_port: u16,
        uuid: Seq<char>,
        flow: Option<Seq<char>>,
        packet_encoding: Option<Seq<char>>,
        tls: Option<TlsView>,
        transport: Option<TransportView>,
    },
    Vmess {
        tag: Seq<char>,
        server: Seq<char>,
        server_port: u16,
        uuid: Seq<char>,
        security: Seq<char>,
        alter_id: u32,
        packet_encoding: Option<Seq<char>>,
        tls: Option<TlsView>,
        transport: Option<TransportView>,
    },
    Trojan {
        tag: Seq<char>,
        server: Seq<char>,
        server_port: u16,
        password: Seq<char>,
        tls: Option<TlsView>,
        transport: Option<TransportView>,
    },
    Shadowsocks {
        tag: Seq<char>,
        server: Seq<char>,
        server_port: u16,
        method: Seq<char>,
        password: Seq<char>,
        plugin: Option<Seq<char>>,
        plugin_opts: Option<Seq<char>>,
    },
    /// An outbound that share links never produce.
    Other,
}

/// Model of an outbound.
pub open spec fn outbound_view(o: OutboundConfig) -> ShareOutboundView {
    match o {
        OutboundConfig::Vless(v) => ShareOutboundView::Vless {
            tag: v.tag@,
            server: v.server@,
            server_port: v.server_port,
            uuid: v.uuid@,
            flow: text_opt(v.flow),
            packet_encoding: text_opt(v.packet_encoding),
            tls: tls_opt(v.tls),
            transport: transport_opt(v.transport),
        },
        OutboundConfig::Vmess(v) => ShareOutboundView::Vmess {
            tag: v.tag@,
            server: v.server@,
            server_port: v.server_port,
            uuid: v.uuid@,
            security: v.security@,
            alter_id: v.alter_id,
            packet_encoding: text_opt(v.packet_encoding),
            tls: tls_opt(v.tls),
            transport: transport_opt(v.transport),
        },
        OutboundConfig::Trojan(v) => ShareOutboundView::Trojan {
            tag: v.tag@,
            server: v.server@,
            server_port: v.server_port,
            password: v.password@,
            tls: tls_opt(v.tls),
            transport: transport_opt(v.transport),
        },
        OutboundConfig::Shadowsocks(v) => ShareOutboundView::Shadowsocks {
            tag: v.tag@,
            server: v.server@,
            server_port: v.server_port,
            method: v.method@,
            password: v.password@,
            plugin: text_opt(v.plugin),
            plugin_opts: text_opt(v.plugin_opts),
        },
        _ => ShareOutboundView::Other,
    }
}

// ---------------------------------------------------------------------------
// Query parameters, TLS and transport
// ---------------------------------------------------------------------------

/// A text kept only when it is not empty.
pub open spec fn nonempty_text(o: Option<Seq<char>>) -> Option<Seq<char>> {
    match o {
        Some(s) => if s.len() > 0 {
            Some(s)
        } else {
            None
        },
        None => None,
    }
}

/// A value, or the empty text.
pub open spec fn or_empty(o: Option<Seq<char>>) -> Seq<char> {
    match o {
        Some(s) => s,
        None => Seq::empty(),
    }
}

/// The first value that is present.
pub open spec fn either(a: Option<Seq<char>>, b: Option<Seq<char>>) -> Option<Seq<char>> {
    match a {
        Some(x) => Some(x),
        None => b,
    }
}

/// Value of a query parameter, the key compared in ASCII lower case; a later pair wins.
pub open spec fn query_get(q: Seq<(Seq<char>, Seq<char>)>, key: Seq<char>) -> Option<Seq<char>>
    decreases q.len(),
{
    if q.len() == 0 {
        None
    } else if seq_ascii_lower(q.last().0) == key {
        Some(q.last().1)
    } else {
        query_get(q.drop_last(), key)
    }
}

/// Value of a query parameter.
fn query_value(q: &Vec<(String, String)>, key: &str) -> (r: Option<String>)
    ensures
        text_opt(r) == query_get(pairs_view(q@), key@),
{
    let ghost qv = pairs_view(q@);
    let mut i: usize = q.len();
    proof {
        assert(qv.take(i as int) =~= qv);
    }
    while i > 0
        invariant
            i <= q@.len(),
            qv == pairs_view(q@),
            qv.len() == q@.len(),
            query_get(qv.take(i as int), key@) == query_get(qv, key@),
        decreases i,
    {
        let lower = to_ascii_lowercase(q[i - 1].0.as_str());
        proof {
            assert(qv.take(i as int).drop_last() =~= qv.take(i - 1));
            assert(qv.take(i as int).last() == qv[i - 1]);
        }
        if text_eq(lower.as_str(), key) {
            return Some(q[i - 1].1.clone());
        }
        i = i - 1;
    }
    proof {
        assert(qv.take(0) =~= Seq::<(Seq<char>, Seq<char>)>::empty());
    }
    None
}

/// `Option::filter(|v| !v.is_empty())`.
fn nonempty(value: Option<String>) -> (r: Option<String>)
    ensures
        text_opt(r) == nonempty_text(text_opt(value)),
{
    match value {
        Some(v) => if v.as_str().unicode_len() > 0 {
            Some(v)
        } else {
            None
        },
        None => None,
    }
}

/// The items other than `h3`.
pub open spec fn drop_h3(s: Seq<Seq<char>>) -> Seq<Seq<char>>
    decreases s.len(),
{
    if s.len() == 0 {
        s
    } else if s.last() == "h3"@ {
        drop_h3(s.drop_last())
    } else {
        drop_h3(s.drop_last()).push(s.last())
    }
}

/// Error of an unsupported TLS mode.
pub open spec fn unsupported_security_message(security: Seq<char>) -> Seq<char> {
    "Unsupported TLS security mode '"@ + security + "'."@
}

/// The TLS settings a share link's query asks for.
pub open spec fn tls_from_query_spec(
    security: Seq<char>,
    server: Seq<char>,
    q: Seq<(Seq<char>, Seq<char>)>,
) -> Result<Option<TlsView>, Seq<char>> {
    if security == "none"@ || security.len() == 0 {
        Ok(None)
    } else if security != "tls"@ && security != "reality"@ {
        Err(unsupported_security_message(security))
    } else {
        let is_reality = security == "reality"@;
        let public_key = nonempty_text(either(query_get(q, "pbk"@), query_get(q, "publickey"@)));
        if is_reality && public_key is None {
            Err("Reality config is missing its public key (pbk)."@)
        } else {
            let server_name = match nonempty_text(
                either(query_get(q, "sni"@), query_get(q, "servername"@)),
            ) {
                Some(n) => Some(n),
                None => Some(server),
            };
            let alpn = match query_get(q, "alpn"@) {
                Some(a) => crate::text::csv_items(a),
                None => Seq::empty(),
            };
            Ok(
                Some(
                    TlsView {
                        enabled: true,
                        server_name,
                        insecure: match query_get(q, "allowinsecure"@) {
                            Some(v) => v == "1"@ || eq_ignore_ascii_case(v, "true"@),
                            None => false,
                        },
                        alpn: if is_reality {
                            drop_h3(alpn)
                        } else {
                            alpn
                        },
                        utls: match nonempty_text(query_get(q, "fp"@)) {
                            Some(f) => Some((true, f)),
                            None => None,
                        },
                        reality: if is_reality {
                            Some(
                                (
                                    true,
                                    public_key.unwrap(),
                                    or_empty(either(query_get(q, "sid"@), query_get(q, "shortid"@))),
                                ),
                            )
                        } else {
                            None
                        },
                    },
                ),
            )
        }
    }
}

/// The transport that share-link values ask for.
pub open spec fn transport_spec(
    kind: Option<Seq<char>>,
    host: Option<Seq<char>>,
    path: Option<Seq<char>>,
    service_name: Option<Seq<char>>,
    header_type: Option<Seq<char>>,
) -> Result<Option<TransportView>, Seq<char>> {
    let k = seq_ascii_lower(
        match kind {
            Some(x) => x,
            None => "tcp"@,
        },
    );
    if k.len() == 0 || k == "tcp"@ || k == "raw"@ {
        match header_type {
            Some(h) => if h.len() > 0 && h != "none"@ {
                Err(
                    "TCP header type '"@ + h
                        + "' is not supported by sing-box share-link import."@,
                )
            } else {
                Ok(None)
            },
            None => Ok(None),
        }
    } else if k == "ws"@ || k == "websocket"@ {
        Ok(Some(TransportView::WebSocket { path: or_empty(path), host_header: nonempty_text(host) }))
    } else if k == "grpc"@ {
        Ok(Some(TransportView::Grpc { service_name: or_empty(either(service_name, path)) }))
    } else if k == "httpupgrade"@ {
        Ok(Some(TransportView::HttpUpgrade { host: or_empty(host), path: or_empty(path) }))
    } else if k == "http"@ || k == "h2"@ {
        Ok(
            Some(
                TransportView::Http {
                    host: match nonempty_text(host) {
                        Some(h) => seq![h],
                        None => Seq::empty(),
                    },
                    path: or_empty(path),
                },
            ),
        )
    } else {
        Err(
            "Transport '"@ + k
                + "' is not supported. Use TCP, WebSocket, HTTP, HTTPUpgrade, or gRPC."@,
        )
    }
}

/// Model of a TLS result.
pub open spec fn tls_result(r: Result<Option<OutboundTls>, String>) -> Result<Option<TlsView>, Seq<char>> {
    match r {
        Ok(t) => Ok(tls_opt(t)),
        Err(e) => Err(e@),
    }
}

/// Model of a transport result.
pub open spec fn transport_result(r: Result<Option<Transport>, String>) -> Result<
    Option<TransportView>,
    Seq<char>,
> {
    match r {
        Ok(t) => Ok(transport_opt(t)),
        Err(e) => Err(e@),
    }
}

/// The first value that is present.
fn either_exec(a: Option<String>, b: Option<String>) -> (r: Option<String>)
    ensures
        text_opt(r) == either(text_opt(a), text_opt(b)),
{
    match a {
        Some(x) => Some(x),
        None => b,
    }
}

/// The items of a list other than `h3`.
fn without_h3(items: Vec<String>) -> (r: Vec<String>)
    ensures
        texts(r@) == drop_h3(texts(items@)),
{
    let ghost iv = texts(items@);
    let mut out: Vec<String> = Vec::new();
    let mut k: usize = 0;
    while k < items.len()
        invariant
            k <= items@.len(),
            iv == texts(items@),
            texts(out@) == drop_h3(iv.take(k as int)),
        decreases items@.len() - k,
    {
        proof {
            assert(iv.take(k + 1).drop_last() =~= iv.take(k as int));
            assert(iv.take(k + 1).last() == items@[k as int]@);
        }
        if !text_eq(items[k].as_str(), "h3") {
            let item = items[k].clone();
            proof {
                assert(texts(out@.push(item)) =~= texts(out@).push(item@));
            }
            out.push(item);
        }
        k = k + 1;
    }
    proof {
        assert(iv.take(k as int) =~= iv);
    }
    out
}

/// The TLS settings a share link's query asks for.
fn tls_from_query(security: &str, server: &str, q: &Vec<(String, String)>) -> (r: Result<
    Option<OutboundTls>,
    String,
>)
    ensures
        tls_result(r) == tls_from_query_spec(security@, server@, pairs_view(q@)),
{
    if text_eq(security, "none") || security.unicode_len() == 0 {
        return Ok(None);
    }
    let is_tls = text_eq(security, "tls");
    let is_reality = text_eq(security, "reality");
    if !is_tls && !is_reality {
        let mut m = str_to_string("Unsupported TLS security mode '");
        m.append(security);
        m.append("'.");
        return Err(m);
    }
    let public_key = nonempty(either_exec(query_value(q, "pbk"), query_value(q, "publickey")));
    if is_reality && public_key.is_none() {
        return Err(str_to_string("Reality config is missing its public key (pbk)."));
    }
    let server_name = match nonempty(either_exec(query_value(q, "sni"), query_value(q, "servername"))) {
        Some(n) => Some(n),
        None => Some(str_to_string(server)),
    };
    let insecure = match query_value(q, "allowinsecure") {
        Some(v) => text_eq(v.as_str(), "1") || eq_ignore_case(v.as_str(), "true"),
        None => false,
    };
    let alpn_query = query_value(q, "alpn");
    let alpn_items = match &alpn_query {
        Some(a) => crate::text::split_csv(a.as_str()),
        None => Vec::new(),
    };
    proof {
        assert(texts(alpn_items@) =~= alpn_items@.map_values(|x: String| x@));
        assert(texts(alpn_items@) =~= match query_get(pairs_view(q@), "alpn"@) {
            Some(a) => crate::text::csv_items(a),
            None => Seq::empty(),
        });
    }
    let alpn = if is_reality {
        without_h3(alpn_items)
    } else {
        alpn_items
    };
    let utls = match nonempty(query_value(q, "fp")) {
        Some(f) => Some(OutboundUtls { enabled: true, fingerprint: f }),
        None => None,
    };
    let reality = if is_reality {
        let short_id = match either_exec(query_value(q, "sid"), query_value(q, "shortid")) {
            Some(x) => x,
            None => String::new(),
        };
        match public_key {
            Some(pk) => Some(OutboundReality { enabled: true, public_key: pk, short_id }),
            None => None,
        }
    } else {
        None
    };
    Ok(Some(OutboundTls { enabled: true, server_name, insecure, alpn, utls, reality }))
}

/// The transport that share-link values ask for.
fn transport_from_values(
    kind: Option<&str>,
    host: Option<&str>,
    path: Option<&str>,
    service_name: Option<&str>,
    header_type: Option<&str>,
) -> (r: Result<Option<Transport>, String>)
    ensures
        transport_result(r) == transport_spec(
            str_opt(kind),
            str_opt(host),
            str_opt(path),
            str_opt(service_name),
            str_opt(header_type),
        ),
{
    let k = to_ascii_lowercase(
        match kind {
            Some(x) => x,
            None => "tcp",
        },
    );
    let ks = k.as_str();
    if ks.unicode_len() == 0 || text_eq(ks, "tcp") || text_eq(ks, "raw") {
        match header_type {
            Some(h) => {
                if h.unicode_len() > 0 && !text_eq(h, "none") {
                    let mut m = str_to_string("TCP header type '");
                    m.append(h);
                    m.append("' is not supported by sing-box share-link import.");
                    return Err(m);
                }
                Ok(None)
            },
            None => Ok(None),
        }
    } else if text_eq(ks, "ws") || text_eq(ks, "websocket") {
        let host_header = match host {
            Some(h) => if h.unicode_len() > 0 {
                Some(str_to_string(h))
            } else {
                None
            },
            None => None,
        };
        Ok(Some(Transport::WebSocket { path: str_or_empty(path), host_header }))
    } else if text_eq(ks, "grpc") {
        let name = match service_name {
            Some(x) => Some(x),
            None => path,
        };
        Ok(Some(Transport::Grpc { service_name: str_or_empty(name) }))
    } else if text_eq(ks, "httpupgrade") {
        Ok(Some(Transport::HttpUpgrade { host: str_or_empty(host), path: str_or_empty(path) }))
    } else if text_eq(ks, "http") || text_eq(ks, "h2") {
        let mut hosts: Vec<String> = Vec::new();
        match host {
            Some(h) => if h.unicode_len() > 0 {
                hosts.push(str_to_string(h));
            },
            None => {},
        }
        proof {
            assert(texts(hosts@) =~= match nonempty_text(str_opt(host)) {
                Some(h) => seq![h],
                None => Seq::<Seq<char>>::empty(),
            });
        }
        Ok(Some(Transport::Http { host: hosts, path: str_or_empty(path) }))
    } else {
        let mut m = str_to_string("Transport '");
        m.append(ks);
        m.append("' is not supported. Use TCP, WebSocket, HTTP, HTTPUpgrade, or gRPC.");
        Err(m)
    }
}

/// Model of an optional text slice.
pub open spec fn str_opt(o: Option<&str>) -> Option<Seq<char>> {
    match o {
        Some(s) => Some(s@),
        None => None,
    }
}

/// A text slice, or the empty text.
fn str_or_empty(o: Option<&str>) -> (r: String)
    ensures
        r@ == or_empty(str_opt(o)),
{
    match o {
        Some(s) => str_to_string(s),
        None => String::new(),
    }
}

// ---------------------------------------------------------------------------
// VLESS and Trojan
// ---------------------------------------------------------------------------

/// The host of a URL, or the message naming the protocol.
pub open spec fn required_host_spec(u: UrlView, protocol: Seq<char>) -> Result<Seq<char>, Seq<char>> {
    match nonempty_text(u.host) {
        Some(h) => Ok(h),
        None => Err(protocol + " link is missing its server address."@),
    }
}

/// The port of a URL, or the message naming the protocol.
pub open spec fn required_port_spec(u: UrlView, protocol: Seq<char>) -> Result<u16, Seq<char>> {
    match u.port {
        Some(p) => Ok(p),
        None => Err(protocol + " link is missing its server port."@),
    }
}

fn required_host(u: &UrlParts, protocol: &str) -> (r: Result<String, String>)
    ensures
        match r {
            Ok(h) => required_host_spec(u@, protocol@) == Ok::<Seq<char>, Seq<char>>(h@),
            Err(e) => required_host_spec(u@, protocol@) == Err::<Seq<char>, Seq<char>>(e@),
        },
{
    match &u.host {
        Some(h) => if h.as_str().unicode_len() > 0 {
            return Ok(h.clone());
        },
        None => {},
    }
    let mut m = str_to_string(protocol);
    m.append(" link is missing its server address.");
    Err(m)
}

fn required_port(u: &UrlParts, protocol: &str) -> (r: Result<u16, String>)
    ensures
        match r {
            Ok(p) => required_port_spec(u@, protocol@) == Ok::<u16, Seq<char>>(p),
            Err(e) => required_port_spec(u@, protocol@) == Err::<u16, Seq<char>>(e@),
        },
{
    match u.port {
        Some(p) => Ok(p),
        None => {
            let mut m = str_to_string(protocol);
            m.append(" link is missing its server port.");
            Err(m)
        },
    }
}

/// The transport named by a link's query.
pub open spec fn query_transport(q: Seq<(Seq<char>, Seq<char>)>) -> Result<Option<TransportView>, Seq<char>> {
    transport_spec(
        query_get(q, "type"@),
        query_get(q, "host"@),
        query_get(q, "path"@),
        either(query_get(q, "servicename"@), query_get(q, "service_name"@)),
        query_get(q, "headertype"@),
    )
}

fn query_transport_exec(q: &Vec<(String, String)>) -> (r: Result<Option<Transport>, String>)
    ensures
        transport_result(r) == query_transport(pairs_view(q@)),
{
    let kind = query_value(q, "type");
    let host = query_value(q, "host");
    let path = query_value(q, "path");
    let service = either_exec(query_value(q, "servicename"), query_value(q, "service_name"));
    let header = query_value(q, "headertype");
    transport_from_values(as_str_opt(&kind), as_str_opt(&host), as_str_opt(&path), as_str_opt(&service), as_str_opt(&header))
}

fn as_str_opt(o: &Option<String>) -> (r: Option<&str>)
    ensures
        str_opt(r) == text_opt(*o),
{
    match o {
        Some(s) => Some(s.as_str()),
        None => None,
    }
}

/// What a `vless://` link imports as.
pub open spec fn vless_spec(link: Seq<char>) -> Result<ShareOutboundView, Seq<char>> {
    match url_parse_result(link) {
        Err(e) => Err("Invalid VLESS link: "@ + e),
        Ok(u) => vless_url_spec(u),
    }
}

/// What a parsed `vless` URL imports as.
pub open spec fn vless_url_spec(u: UrlView) -> Result<ShareOutboundView, Seq<char>> {
    match required_host_spec(u, "VLESS"@) {
        Err(m) => Err(m),
        Ok(server) => match required_port_spec(u, "VLESS"@) {
            Err(m) => Err(m),
            Ok(port) => {
                let uuid = percent_decoded(u.username);
                let q = u.query;
                if !uuid_accepts(uuid) {
                    Err("VLESS link contains an invalid UUID."@)
                } else if query_get(q, "encryption"@) is Some && query_get(q, "encryption"@)
                    != Some("none"@) {
                    Err("Only VLESS encryption=none is supported by sing-box."@)
                } else {
                    let security = match query_get(q, "security"@) {
                        Some(x) => x,
                        None => "none"@,
                    };
                    match tls_from_query_spec(security, server, q) {
                        Err(m) => Err(m),
                        Ok(tls) => match query_transport(q) {
                            Err(m) => Err(m),
                            Ok(transport) => Ok(
                                ShareOutboundView::Vless {
                                    tag: "v2ray"@,
                                    server,
                                    server_port: port,
                                    uuid,
                                    flow: nonempty_text(query_get(q, "flow"@)),
                                    packet_encoding: nonempty_text(
                                        query_get(q, "packetencoding"@),
                                    ),
                                    tls,
                                    transport,
                                },
                            ),
                        },
                    }
                }
            },
        },
    }
}

/// What a `trojan://` link imports as.
pub open spec fn trojan_spec(link: Seq<char>) -> Result<ShareOutboundView, Seq<char>> {
    match url_parse_result(link) {
        Err(e) => Err("Invalid Trojan link: "@ + e),
        Ok(u) => trojan_url_spec(u),
    }
}

/// What a parsed `trojan` URL imports as.
pub open spec fn trojan_url_spec(u: UrlView) -> Result<ShareOutboundView, Seq<char>> {
    match required_host_spec(u, "Trojan"@) {
        Err(m) => Err(m),
        Ok(server) => match required_port_spec(u, "Trojan"@) {
            Err(m) => Err(m),
            Ok(port) => {
                let password = percent_decoded(u.username);
                let q = u.query;
                if password.len() == 0 {
                    Err("Trojan link is missing its password."@)
                } else {
                    let security = match query_get(q, "security"@) {
                        Some(x) => x,
                        None => "tls"@,
                    };
                    match tls_from_query_spec(security, server, q) {
                        Err(m) => Err(m),
                        Ok(tls) => match query_transport(q) {
                            Err(m) => Err(m),
                            Ok(transport) => Ok(
                                ShareOutboundView::Trojan {
                                    tag: "v2ray"@,
                                    server,
                                    server_port: port,
                                    password,
                                    tls,
                                    transport,
                                },
                            ),
                        },
                    }
                }
            },
        },
    }
}

/// Model of an import result.
pub open spec fn outbound_result(r: Result<OutboundConfig, String>) -> Result<ShareOutboundView, Seq<char>> {
    match r {
        Ok(o) => Ok(outbound_view(o)),
        Err(e) => Err(e@),
    }
}

fn prefixed_error(prefix: &str, e: &str) -> (r: String)
    ensures
        r@ == prefix@ + e@,
{
    let mut m = str_to_string(prefix);
    m.append(e);
    m
}

fn parse_vless(link: &str) -> (r: Result<OutboundConfig, String>)
    ensures
        outbound_result(r) == vless_spec(link@),
{
    match parse_url(link) {
        Ok(u) => vless_from_url(&u),
        Err(e) => Err(prefixed_error("Invalid VLESS link: ", e.as_str())),
    }
}

/// What a parsed `vless://` URL imports as.
pub fn vless_from_url(url: &UrlParts) -> (r: Result<OutboundConfig, String>)
    ensures
        outbound_result(r) == vless_url_spec(url@),
{
    let server = match required_host(url, "VLESS") {
        Ok(h) => h,
        Err(e) => return Err(e),
    };
    let server_port = match required_port(url, "VLESS") {
        Ok(p) => p,
        Err(e) => return Err(e),
    };
    let uuid = decode(url.username.as_str());
    if !is_uuid(uuid.as_str()) {
        return Err(str_to_string("VLESS link contains an invalid UUID."));
    }
    let q = &url.query;
    match query_value(q, "encryption") {
        Some(v) => if !text_eq(v.as_str(), "none") {
            return Err(str_to_string("Only VLESS encryption=none is supported by sing-box."));
        },
        None => {},
    }
    let security = match query_value(q, "security") {
        Some(x) => x,
        None => str_to_string("none"),
    };
    let tls = match tls_from_query(security.as_str(), server.as_str(), q) {
        Ok(t) => t,
        Err(e) => return Err(e),
    };
    let transport = match query_transport_exec(q) {
        Ok(t) => t,
        Err(e) => return Err(e),
    };
    Ok(
        OutboundConfig::Vless(
            VlessOutbound {
                tag: str_to_string(SECONDARY_TAG),
                server,
                server_port,
                uuid,
                flow: nonempty(query_value(q, "flow")),
                packet_encoding: nonempty(query_value(q, "packetencoding")),
                tls,
                transport,
            },
        ),
    )
}

fn parse_trojan(link: &str) -> (r: Result<OutboundConfig, String>)
    ensures
        outbound_result(r) == trojan_spec(link@),
{
    match parse_url(link) {
        Ok(u) => trojan_from_url(&u),
        Err(e) => Err(prefixed_error("Invalid Trojan link: ", e.as_str())),
    }
}

/// What a parsed `trojan://` URL imports as.
pub fn trojan_from_url(url: &UrlParts) -> (r: Result<OutboundConfig, String>)
    ensures
        outbound_result(r) == trojan_url_spec(url@),
{
    let server = match required_host(url, "Trojan") {
        Ok(h) => h,
        Err(e) => return Err(e),
    };
    let server_port = match required_port(url, "Trojan") {
        Ok(p) => p,
        Err(e) => return Err(e),
    };
    let password = decode(url.username.as_str());
    if password.as_str().unicode_len() == 0 {
        return Err(str_to_string("Trojan link is missing its password."));
    }
    let q = &url.query;
    let security = match query_value(q, "security") {
        Some(x) => x,
        None => str_to_string("tls"),
    };
    let tls = match tls_from_query(security.as_str(), server.as_str(), q) {
        Ok(t) => t,
        Err(e) => return Err(e),
    };
    let transport = match query_transport_exec(q) {
        Ok(t) => t,
        Err(e) => return Err(e),
    };
    Ok(
        OutboundConfig::Trojan(
            TrojanOutbound {
                tag: str_to_string(SECONDARY_TAG),
                server,
                server_port,
                password,
                tls,
                transport,
            },
        ),
    )
}

// ---------------------------------------------------------------------------
// Shadowsocks
// ---------------------------------------------------------------------------

/// Base64 under the first of the four alphabets that accepts the trimmed text.
pub open spec fn base64_any(value: Seq<char>) -> Option<Seq<u8>> {
    let v = trim(value);
    match base64_decoded(Base64Alphabet::Standard, v) {
        Some(b) => Some(b),
        None => match base64_decoded(Base64Alphabet::StandardNoPad, v) {
            Some(b) => Some(b),
            None => match base64_decoded(Base64Alphabet::UrlSafe, v) {
                Some(b) => Some(b),
                None => base64_decoded(Base64Alphabet::UrlSafeNoPad, v),
            },
        },
    }
}

/// Base64 under the first alphabet that accepts the trimmed text.
fn decode_base64(value: &str) -> (r: Option<Vec<u8>>)
    ensures
        match r {
            Some(b) => base64_any(value@) == Some(b@),
            None => base64_any(value@) is None,
        },
{
    let v = crate::text::trim_str(value);
    let vs = v.as_str();
    match base64_decode(Base64Alphabet::Standard, vs) {
        Some(b) => return Some(b),
        None => {},
    }
    match base64_decode(Base64Alphabet::StandardNoPad, vs) {
        Some(b) => return Some(b),
        None => {},
    }
    match base64_decode(Base64Alphabet::UrlSafe, vs) {
        Some(b) => return Some(b),
        None => {},
    }
    base64_decode(Base64Alphabet::UrlSafeNoPad, vs)
}

/// Base64 text decoded to UTF-8 text: `Err(false)` when no alphabet accepts it,
/// `Err(true)` when the bytes are not UTF-8.
pub open spec fn base64_text(value: Seq<char>) -> Result<Seq<char>, bool> {
    match base64_any(value) {
        None => Err(false),
        Some(b) => match utf8_text(b) {
            None => Err(true),
            Some(t) => Ok(t),
        },
    }
}

fn decode_base64_text(value: &str) -> (r: Result<String, bool>)
    ensures
        match r {
            Ok(t) => base64_text(value@) == Ok::<Seq<char>, bool>(t@),
            Err(b) => base64_text(value@) == Err::<Seq<char>, bool>(b),
        },
{
    match decode_base64(value) {
        None => Err(false),
        Some(b) => match text_from_utf8(b) {
            None => Err(true),
            Some(t) => Ok(t),
        },
    }
}

/// The text before the first `c`.
pub open spec fn before_char(s: Seq<char>, c: char) -> Seq<char> {
    match crate::text::find_char_from(s, c, 0) {
        Some(i) => s.subrange(0, i),
        None => s,
    }
}

fn before_char_exec(v: &[char], c: char) -> (r: Vec<char>)
    ensures
        r@ == before_char(v@, c),
{
    match crate::text::find_char_exec(v, c, 0) {
        Some(i) => crate::text::slice_chars(v, 0, i),
        None => crate::text::slice_chars(v, 0, v.len()),
    }
}

/// The text up to the last `@` and the text after it.
pub open spec fn rsplit_at_sign(s: Seq<char>) -> Option<(Seq<char>, Seq<char>)> {
    match crate::text::rfind_char_before(s, '@', s.len() as int) {
        Some(i) => Some((s.subrange(0, i), s.subrange(i + 1, s.len() as int))),
        None => None,
    }
}

/// The text up to the first `c` and the text after it.
pub open spec fn split_once_char(s: Seq<char>, c: char) -> Option<(Seq<char>, Seq<char>)> {
    match crate::text::find_char_from(s, c, 0) {
        Some(i) => Some((s.subrange(0, i), s.subrange(i + 1, s.len() as int))),
        None => None,
    }
}

/// Whether a text holds the character `c`.
pub open spec fn has_char(s: Seq<char>, c: char) -> bool {
    crate::text::find_char_from(s, c, 0) is Some
}

/// The `plugin` and `plugin_opts` of a `plugin=name;options` query value.
pub open spec fn plugin_parts(q: Seq<(Seq<char>, Seq<char>)>) -> (Option<Seq<char>>, Option<Seq<char>>) {
    match query_get(q, "plugin"@) {
        None => (None, None),
        Some(v) => match split_once_char(v, ';') {
            Some((a, b)) => (nonempty_text(Some(a)), nonempty_text(Some(b))),
            None => (nonempty_text(Some(v)), None),
        },
    }
}

/// What an `ss://` link imports as (SIP002, with legacy fully base64 bodies).
pub open spec fn shadowsocks_spec(link: Seq<char>) -> Result<ShareOutboundView, Seq<char>> {
    shadowsocks_parts_spec(
        link,
        match url_parse_result(link) {
            Ok(u) => u.query,
            Err(_) => Seq::empty(),
        },
    )
}

/// What an `ss://` link imports as, given the query pairs of its parsed URL (none when the
/// link is not a URL).
pub open spec fn shadowsocks_parts_spec(link: Seq<char>, q: Seq<(Seq<char>, Seq<char>)>) -> Result<ShareOutboundView, Seq<char>> {
    let body = before_char(before_char(crate::text::strip_all(link, "ss://"@), '#'), '?');
    let expanded: Result<Seq<char>, Seq<char>> = if has_char(body, '@') {
        Ok(body)
    } else {
        match base64_text(body) {
            Ok(t) => Ok(t),
            Err(false) => Err(
                "Shadowsocks link does not contain valid credentials and server details."@,
            ),
            Err(true) => Err("Shadowsocks link contains invalid text."@),
        }
    };
    match expanded {
        Err(m) => Err(m),
        Ok(x) => match rsplit_at_sign(x) {
            None => Err("Shadowsocks link is missing its server address."@),
            Some((encoded_credentials, endpoint)) => {
                let credentials: Result<Seq<char>, Seq<char>> = if has_char(
                    encoded_credentials,
                    ':',
                ) {
                    Ok(percent_decoded(encoded_credentials))
                } else {
                    match base64_text(encoded_credentials) {
                        Ok(t) => Ok(t),
                        Err(false) => Err("Shadowsocks credentials are not valid base64."@),
                        Err(true) => Err("Shadowsocks credentials contain invalid text."@),
                    }
                };
                match credentials {
                    Err(m) => Err(m),
                    Ok(c) => match split_once_char(c, ':') {
                        None => Err("Shadowsocks credentials must contain method:password."@),
                        Some((method, password)) => match url_parse_result(
                            "ss://user@"@ + endpoint,
                        ) {
                            Err(e) => Err("Invalid Shadowsocks server: "@ + e),
                            Ok(u) => match required_host_spec(u, "Shadowsocks"@) {
                                Err(m) => Err(m),
                                Ok(server) => match required_port_spec(u, "Shadowsocks"@) {
                                    Err(m) => Err(m),
                                    Ok(port) => Ok(
                                        ShareOutboundView::Shadowsocks {
                                            tag: "v2ray"@,
                                            server,
                                            server_port: port,
                                            method,
                                            password,
                                            plugin: plugin_parts(q).0,
                                            plugin_opts: plugin_parts(q).1,
                                        },
                                    ),
                                },
                            },
                        },
                    },
                }
            },
        },
    }
}

fn nonempty_chars(v: &[char]) -> (r: Option<String>)
    ensures
        text_opt(r) == nonempty_text(Some(v@)),
{
    if v.len() > 0 {
        Some(string_of(v))
    } else {
        None
    }
}

fn plugin_parts_exec(q: &Vec<(String, String)>) -> (r: (Option<String>, Option<String>))
    ensures
        (text_opt(r.0), text_opt(r.1)) == plugin_parts(pairs_view(q@)),
{
    match query_value(q, "plugin") {
        None => (None, None),
        Some(v) => {
            let chars = chars_of(v.as_str());
            match crate::text::find_char_exec(chars.as_slice(), ';', 0) {
                Some(i) => {
                    let n = chars.len();
                    let a = crate::text::slice_chars(&chars, 0, i);
                    let b = crate::text::slice_chars(&chars, i + 1, n);
                    (nonempty_chars(&a), nonempty_chars(&b))
                },
                None => (nonempty_chars(&chars), None),
            }
        },
    }
}

fn parse_shadowsocks(link: &str) -> (r: Result<OutboundConfig, String>)
    ensures
        outbound_result(r) == shadowsocks_spec(link@),
{
    let q: Vec<(String, String)> = match parse_url(link) {
        Ok(u) => u.query,
        Err(_) => {
            let empty: Vec<(String, String)> = Vec::new();
            proof {
                assert(pairs_view(empty@) =~= Seq::<(Seq<char>, Seq<char>)>::empty());
            }
            empty
        },
    };
    shadowsocks_from_parts(link, &q)
}

/// What an `ss://` link imports as, given the query pairs of its parsed URL (none when the
/// link is not a URL).
pub fn shadowsocks_from_parts(link: &str, query: &Vec<(String, String)>) -> (r: Result<OutboundConfig, String>)
    ensures
        outbound_result(r) == shadowsocks_parts_spec(link@, pairs_view(query@)),
{
    let q = query;
    let link_chars = chars_of(link);
    let prefix = chars_of("ss://");
    let stripped = crate::text::strip_all_exec(&link_chars, &prefix);
    let before_hash = before_char_exec(&stripped, '#');
    let body = before_char_exec(&before_hash, '?');
    let expanded: String = match crate::text::find_char_exec(&body, '@', 0) {
        Some(_) => string_of(&body),
        None => {
            let body_text = string_of(&body);
            match decode_base64_text(body_text.as_str()) {
                Ok(t) => t,
                Err(invalid_text) => if invalid_text {
                    return Err(str_to_string("Shadowsocks link contains invalid text."));
                } else {
                    return Err(
                        str_to_string(
                            "Shadowsocks link does not contain valid credentials and server details.",
                        ),
                    );
                },
            }
        },
    };
    let x = chars_of(expanded.as_str());
    let at = match crate::text::rfind_char_exec(&x, '@', x.len()) {
        Some(i) => i,
        None => return Err(str_to_string("Shadowsocks link is missing its server address.")),
    };
    let encoded_credentials = crate::text::slice_chars(&x, 0, at);
    let endpoint = crate::text::slice_chars(&x, at + 1, x.len());
    let credentials: String = match crate::text::find_char_exec(&encoded_credentials, ':', 0) {
        Some(_) => {
            let ec = string_of(&encoded_credentials);
            decode(ec.as_str())
        },
        None => {
            let ec = string_of(&encoded_credentials);
            match decode_base64_text(ec.as_str()) {
                Ok(t) => t,
                Err(invalid_text) => if invalid_text {
                    return Err(str_to_string("Shadowsocks credentials contain invalid text."));
                } else {
                    return Err(str_to_string("Shadowsocks credentials are not valid base64."));
                },
            }
        },
    };
    let c = chars_of(credentials.as_str());
    let colon = match crate::text::find_char_exec(c.as_slice(), ':', 0) {
        Some(i) => i,
        None => return Err(
            str_to_string("Shadowsocks credentials must contain method:password."),
        ),
    };
    let method = string_of(&crate::text::slice_chars(&c, 0, colon));
    let cn = c.len();
    let password = string_of(&crate::text::slice_chars(&c, colon + 1, cn));
    let mut endpoint_link = str_to_string("ss://user@");
    let endpoint_text = string_of(&endpoint);
    endpoint_link.append(endpoint_text.as_str());
    let endpoint_url = match parse_url(endpoint_link.as_str()) {
        Ok(u) => u,
        Err(e) => return Err(prefixed_error("Invalid Shadowsocks server: ", e.as_str())),
    };
    let server = match required_host(&endpoint_url, "Shadowsocks") {
        Ok(h) => h,
        Err(e) => return Err(e),
    };
    let server_port = match required_port(&endpoint_url, "Shadowsocks") {
        Ok(p) => p,
        Err(e) => return Err(e),
    };
    let (plugin, plugin_opts) = plugin_parts_exec(q);
    Ok(
        OutboundConfig::Shadowsocks(
            ShadowsocksOutbound {
                tag: str_to_string(SECONDARY_TAG),
                server,
                server_port,
                method,
                password,
                plugin,
                plugin_opts,
            },
        ),
    )
}

// ---------------------------------------------------------------------------
// VMess
// ---------------------------------------------------------------------------

/// The value of the last member with this key.
pub open spec fn json_get(m: Seq<(Seq<char>, JsonFieldView)>, key: Seq<char>) -> Option<JsonFieldView>
    decreases m.len(),
{
    if m.len() == 0 {
        None
    } else if m.last().0 == key {
        Some(m.last().1)
    } else {
        json_get(m.drop_last(), key)
    }
}

/// A text member of the VMess JSON; an absent optional member is empty.
pub open spec fn vmess_text(m: Seq<(Seq<char>, JsonFieldView)>, key: Seq<char>, required: bool) -> Result<
    Seq<char>,
    Seq<char>,
> {
    match json_get(m, key) {
        None => if required {
            Err("Invalid VMess JSON: missing field `"@ + key + "`"@)
        } else {
            Ok(Seq::empty())
        },
        Some(JsonFieldView::Text(t)) => Ok(t),
        Some(_) => Err("Invalid VMess JSON: invalid type for field `"@ + key + "`, expected a string"@),
    }
}

/// The members of a VMess link.
pub struct VmessFieldsView {
    pub add: Seq<char>,
    pub port: JsonFieldView,
    pub id: Seq<char>,
    pub aid: JsonFieldView,
    pub scy: Seq<char>,
    pub net: Seq<char>,
    pub host: Seq<char>,
    pub path: Seq<char>,
    pub tls: Seq<char>,
    pub sni: Seq<char>,
    pub alpn: Seq<char>,
    pub fp: Seq<char>,
    pub header_type: Seq<char>,
}

/// The members of a VMess link, read in declaration order: `add`, `port` and `id` are
/// required, `aid` defaults to null and the other text members to the empty text.
pub open spec fn vmess_fields(m: Seq<(Seq<char>, JsonFieldView)>) -> Result<VmessFieldsView, Seq<char>> {
    let add = vmess_text(m, "add"@, true);
    let id = vmess_text(m, "id"@, true);
    let scy = vmess_text(m, "scy"@, false);
    let net = vmess_text(m, "net"@, false);
    let host = vmess_text(m, "host"@, false);
    let path = vmess_text(m, "path"@, false);
    let tls = vmess_text(m, "tls"@, false);
    let sni = vmess_text(m, "sni"@, false);
    let alpn = vmess_text(m, "alpn"@, false);
    let fp = vmess_text(m, "fp"@, false);
    let header_type = vmess_text(m, "type"@, false);
    if add is Err {
        Err(add->Err_0)
    } else if json_get(m, "port"@) is None {
        Err("Invalid VMess JSON: missing field `port`"@)
    } else if id is Err {
        Err(id->Err_0)
    } else if scy is Err {
        Err(scy->Err_0)
    } else if net is Err {
        Err(net->Err_0)
    } else if host is Err {
        Err(host->Err_0)
    } else if path is Err {
        Err(path->Err_0)
    } else if tls is Err {
        Err(tls->Err_0)
    } else if sni is Err {
        Err(sni->Err_0)
    } else if alpn is Err {
        Err(alpn->Err_0)
    } else if fp is Err {
        Err(fp->Err_0)
    } else if header_type is Err {
        Err(header_type->Err_0)
    } else {
        Ok(
            VmessFieldsView {
                add: add->Ok_0,
                port: json_get(m, "port"@).unwrap(),
                id: id->Ok_0,
                aid: match json_get(m, "aid"@) {
                    Some(v) => v,
                    None => JsonFieldView::Null,
                },
                scy: scy->Ok_0,
                net: net->Ok_0,
                host: host->Ok_0,
                path: path->Ok_0,
                tls: tls->Ok_0,
                sni: sni->Ok_0,
                alpn: alpn->Ok_0,
                fp: fp->Ok_0,
                header_type: header_type->Ok_0,
            },
        )
    }
}

/// A non-negative integer held by a JSON number or a JSON text.
pub open spec fn json_unsigned(v: JsonFieldView) -> Option<nat> {
    match v {
        JsonFieldView::Number(Some(n)) => Some(n as nat),
        JsonFieldView::Text(t) => crate::text::parse_unsigned(t, u64::MAX as nat),
        _ => None,
    }
}

/// A port held by a JSON value.
pub open spec fn value_u16_spec(v: JsonFieldView, field: Seq<char>) -> Result<u16, Seq<char>> {
    match json_unsigned(v) {
        None => Err(field + " is invalid."@),
        Some(n) => if n > u16::MAX {
            Err(field + " is outside the valid port range."@)
        } else {
            Ok(n as u16)
        },
    }
}

/// A 32-bit count held by a JSON value.
pub open spec fn value_u32_spec(v: JsonFieldView, field: Seq<char>) -> Result<u32, Seq<char>> {
    match json_unsigned(v) {
        None => Err(field + " is invalid."@),
        Some(n) => if n > u32::MAX {
            Err(field + " is too large."@)
        } else {
            Ok(n as u32)
        },
    }
}

/// The outbound of VMess link members.
pub open spec fn vmess_from_fields(f: VmessFieldsView) -> Result<ShareOutboundView, Seq<char>> {
    if trim(f.add).len() == 0 {
        Err("VMess link is missing its server address."@)
    } else if !uuid_accepts(f.id) {
        Err("VMess link contains an invalid UUID."@)
    } else {
        match value_u16_spec(f.port, "VMess port"@) {
            Err(m) => Err(m),
            Ok(port) => {
                let alter: Result<u32, Seq<char>> = if f.aid is Null {
                    Ok(0)
                } else {
                    value_u32_spec(f.aid, "VMess alter ID"@)
                };
                match alter {
                    Err(m) => Err(m),
                    Ok(alter_id) => {
                        let tls: Result<Option<TlsView>, Seq<char>> = if f.tls.len() == 0 || f.tls
                            == "none"@ {
                            Ok(None)
                        } else if f.tls == "tls"@ {
                            Ok(
                                Some(
                                    TlsView {
                                        enabled: true,
                                        server_name: nonempty_text(
                                            Some(
                                                if f.sni.len() == 0 {
                                                    f.host
                                                } else {
                                                    f.sni
                                                },
                                            ),
                                        ),
                                        insecure: false,
                                        alpn: crate::text::csv_items(f.alpn),
                                        utls: match nonempty_text(Some(f.fp)) {
                                            Some(x) => Some((true, x)),
                                            None => None,
                                        },
                                        reality: None,
                                    },
                                ),
                            )
                        } else {
                            Err("Unsupported VMess security mode '"@ + f.tls + "'."@)
                        };
                        match tls {
                            Err(m) => Err(m),
                            Ok(t) => match transport_spec(
                                nonempty_text(Some(f.net)),
                                nonempty_text(Some(f.host)),
                                nonempty_text(Some(f.path)),
                                None,
                                nonempty_text(Some(f.header_type)),
                            ) {
                                Err(m) => Err(m),
                                Ok(transport) => Ok(
                                    ShareOutboundView::Vmess {
                                        tag: "v2ray"@,
                                        server: f.add,
                                        server_port: port,
                                        uuid: f.id,
                                        security: match nonempty_text(Some(f.scy)) {
                                            Some(x) => x,
                                            None => "auto"@,
                                        },
                                        alter_id,
                                        packet_encoding: Some("xudp"@),
                                        tls: t,
                                        transport,
                                    },
                                ),
                            },
                        }
                    },
                }
            },
        }
    }
}

/// What a `vmess://` link (base64 JSON) imports as.
pub open spec fn vmess_spec(link: Seq<char>) -> Result<ShareOutboundView, Seq<char>> {
    match base64_text(crate::text::strip_all(link, "vmess://"@)) {
        Err(false) => Err("VMess link does not contain valid base64 JSON."@),
        Err(true) => Err("VMess link does not contain valid UTF-8 JSON."@),
        Ok(decoded) => match json_object_members(decoded) {
            Err(e) => Err("Invalid VMess JSON: "@ + e),
            Ok(None) => Err("Invalid VMess JSON: expected a JSON object"@),
            Ok(Some(m)) => vmess_members_spec(m),
        },
    }
}

/// What the members of a VMess link's JSON object import as.
pub open spec fn vmess_members_spec(m: Seq<(Seq<char>, JsonFieldView)>) -> Result<ShareOutboundView, Seq<char>> {
    match vmess_fields(m) {
        Err(e) => Err(e),
        Ok(f) => vmess_from_fields(f),
    }
}

fn copy_field(f: &JsonField) -> (r: JsonField)
    ensures
        r@ == f@,
{
    match f {
        JsonField::Null => JsonField::Null,
        JsonField::Bool(b) => JsonField::Bool(*b),
        JsonField::Number(n) => JsonField::Number(*n),
        JsonField::Text(t) => JsonField::Text(t.clone()),
        JsonField::Composite => JsonField::Composite,
    }
}

fn json_get_exec(m: &Vec<(String, JsonField)>, key: &str) -> (r: Option<JsonField>)
    ensures
        match r {
            Some(f) => json_get(members_view(m@), key@) == Some(f@),
            None => json_get(members_view(m@), key@) is None,
        },
{
    let ghost mv = members_view(m@);
    let mut i: usize = m.len();
    proof {
        assert(mv.take(i as int) =~= mv);
    }
    while i > 0
        invariant
            i <= m@.len(),
            mv == members_view(m@),
            mv.len() == m@.len(),
            json_get(mv.take(i as int), key@) == json_get(mv, key@),
        decreases i,
    {
        proof {
            assert(mv.take(i as int).drop_last() =~= mv.take(i - 1));
            assert(mv.take(i as int).last() == mv[i - 1]);
        }
        if text_eq(m[i - 1].0.as_str(), key) {
            return Some(copy_field(&m[i - 1].1));
        }
        i = i - 1;
    }
    proof {
        assert(mv.take(0) =~= Seq::<(Seq<char>, JsonFieldView)>::empty());
    }
    None
}

fn vmess_text_exec(m: &Vec<(String, JsonField)>, key: &str, required: bool) -> (r: Result<String, String>)
    ensures
        match r {
            Ok(t) => vmess_text(members_view(m@), key@, required) == Ok::<Seq<char>, Seq<char>>(t@),
            Err(e) => vmess_text(members_view(m@), key@, required) == Err::<Seq<char>, Seq<char>>(e@),
        },
{
    match json_get_exec(m, key) {
        None => if required {
            let mut e = str_to_string("Invalid VMess JSON: missing field `");
            e.append(key);
            e.append("`");
            Err(e)
        } else {
            Ok(String::new())
        },
        Some(JsonField::Text(t)) => Ok(t),
        Some(_) => {
            let mut e = str_to_string("Invalid VMess JSON: invalid type for field `");
            e.append(key);
            e.append("`, expected a string");
            Err(e)
        },
    }
}

/// The members of a VMess link.
pub struct VmessFields {
    pub add: String,
    pub port: JsonField,
    pub id: String,
    pub aid: JsonField,
    pub scy: String,
    pub net: String,
    pub host: String,
    pub path: String,
    pub tls: String,
    pub sni: String,
    pub alpn: String,
    pub fp: String,
    pub header_type: String,
}

impl View for VmessFields {
    type V = VmessFieldsView;

    open spec fn view(&self) -> VmessFieldsView {
        VmessFieldsView {
            add: self.add@,
            port: self.port@,
            id: self.id@,
            aid: self.aid@,
            scy: self.scy@,
            net: self.net@,
            host: self.host@,
            path: self.path@,
            tls: self.tls@,
            sni: self.sni@,
            alpn: self.alpn@,
            fp: self.fp@,
            header_type: self.header_type@,
        }
    }
}

#[verifier::rlimit(30)]
fn vmess_fields_exec(m: &Vec<(String, JsonField)>) -> (r: Result<VmessFields, String>)
    ensures
        match r {
            Ok(f) => vmess_fields(members_view(m@)) == Ok::<VmessFieldsView, Seq<char>>(f@),
            Err(e) => vmess_fields(members_view(m@)) == Err::<VmessFieldsView, Seq<char>>(e@),
        },
{
    let add = vmess_text_exec(m, "add", true);
    let id = vmess_text_exec(m, "id", true);
    let scy = vmess_text_exec(m, "scy", false);
    let net = vmess_text_exec(m, "net", false);
    let host = vmess_text_exec(m, "host", false);
    let path = vmess_text_exec(m, "path", false);
    let tls = vmess_text_exec(m, "tls", false);
    let sni = vmess_text_exec(m, "sni", false);
    let alpn = vmess_text_exec(m, "alpn", false);
    let fp = vmess_text_exec(m, "fp", false);
    let header_type = vmess_text_exec(m, "type", false);
    let port = json_get_exec(m, "port");
    let add = match add { Ok(x) => x, Err(e) => return Err(e) };
    let port = match port {
        Some(p) => p,
        None => return Err(str_to_string("Invalid VMess JSON: missing field `port`")),
    };
    let id = match id { Ok(x) => x, Err(e) => return Err(e) };
    let scy = match scy { Ok(x) => x, Err(e) => return Err(e) };
    let net = match net { Ok(x) => x, Err(e) => return Err(e) };
    let host = match host { Ok(x) => x, Err(e) => return Err(e) };
    let path = match path { Ok(x) => x, Err(e) => return Err(e) };
    let tls = match tls { Ok(x) => x, Err(e) => return Err(e) };
    let sni = match sni { Ok(x) => x, Err(e) => return Err(e) };
    let alpn = match alpn { Ok(x) => x, Err(e) => return Err(e) };
    let fp = match fp { Ok(x) => x, Err(e) => return Err(e) };
    let header_type = match header_type { Ok(x) => x, Err(e) => return Err(e) };
    let aid = match json_get_exec(m, "aid") {
        Some(v) => v,
        None => JsonField::Null,
    };
    Ok(VmessFields { add, port, id, aid, scy, net, host, path, tls, sni, alpn, fp, header_type })
}

fn json_unsigned_exec(v: &JsonField) -> (r: Option<u64>)
    ensures
        match r {
            Some(n) => json_unsigned(v@) == Some(n as nat),
            None => json_unsigned(v@) is None,
        },
{
    match v {
        JsonField::Number(Some(n)) => Some(*n),
        JsonField::Text(t) => {
            let c = chars_of(t.as_str());
            crate::text::parse_unsigned_exec(&c, u64::MAX)
        },
        _ => None,
    }
}

fn value_u16(v: &JsonField, field: &str) -> (r: Result<u16, String>)
    ensures
        match r {
            Ok(p) => value_u16_spec(v@, field@) == Ok::<u16, Seq<char>>(p),
            Err(e) => value_u16_spec(v@, field@) == Err::<u16, Seq<char>>(e@),
        },
{
    match json_unsigned_exec(v) {
        None => Err(prefixed_error(field, " is invalid.")),
        Some(n) => if n > 65535 {
            Err(prefixed_error(field, " is outside the valid port range."))
        } else {
            Ok(n as u16)
        },
    }
}

fn value_u32(v: &JsonField, field: &str) -> (r: Result<u32, String>)
    ensures
        match r {
            Ok(p) => value_u32_spec(v@, field@) == Ok::<u32, Seq<char>>(p),
            Err(e) => value_u32_spec(v@, field@) == Err::<u32, Seq<char>>(e@),
        },
{
    match json_unsigned_exec(v) {
        None => Err(prefixed_error(field, " is invalid.")),
        Some(n) => if n > 4294967295 {
            Err(prefixed_error(field, " is too large."))
        } else {
            Ok(n as u32)
        },
    }
}

fn nonempty_ref(s: &String) -> (r: Option<&str>)
    ensures
        str_opt(r) == nonempty_text(Some(s@)),
{
    if s.as_str().unicode_len() > 0 {
        Some(s.as_str())
    } else {
        None
    }
}

#[verifier::rlimit(30)]
/// What the fields of a VMess link import as.
pub fn vmess_from_fields_exec(f: VmessFields) -> (r: Result<OutboundConfig, String>)
    ensures
        outbound_result(r) == vmess_from_fields(f@),
{
    let trimmed = crate::text::trim_str(f.add.as_str());
    if trimmed.as_str().unicode_len() == 0 {
        return Err(str_to_string("VMess link is missing its server address."));
    }
    if !is_uuid(f.id.as_str()) {
        return Err(str_to_string("VMess link contains an invalid UUID."));
    }
    let server_port = match value_u16(&f.port, "VMess port") {
        Ok(p) => p,
        Err(e) => return Err(e),
    };
    let alter_id: u32 = match &f.aid {
        JsonField::Null => 0,
        other => match value_u32(other, "VMess alter ID") {
            Ok(a) => a,
            Err(e) => return Err(e),
        },
    };
    let tls: Option<OutboundTls> = if f.tls.as_str().unicode_len() == 0 || text_eq(
        f.tls.as_str(),
        "none",
    ) {
        None
    } else if text_eq(f.tls.as_str(), "tls") {
        let name_source = if f.sni.as_str().unicode_len() == 0 {
            f.host.clone()
        } else {
            f.sni.clone()
        };
        let alpn = crate::text::split_csv(f.alpn.as_str());
        proof {
            assert(texts(alpn@) =~= alpn@.map_values(|x: String| x@));
        }
        let utls = match nonempty(Some(f.fp.clone())) {
            Some(x) => Some(OutboundUtls { enabled: true, fingerprint: x }),
            None => None,
        };
        Some(
            OutboundTls {
                enabled: true,
                server_name: nonempty(Some(name_source)),
                insecure: false,
                alpn,
                utls,
                reality: None,
            },
        )
    } else {
        let mut m = str_to_string("Unsupported VMess security mode '");
        m.append(f.tls.as_str());
        m.append("'.");
        return Err(m);
    };
    let transport = match transport_from_values(
        nonempty_ref(&f.net),
        nonempty_ref(&f.host),
        nonempty_ref(&f.path),
        None,
        nonempty_ref(&f.header_type),
    ) {
        Ok(t) => t,
        Err(e) => return Err(e),
    };
    let security = match nonempty(Some(f.scy)) {
        Some(x) => x,
        None => str_to_string("auto"),
    };
    Ok(
        OutboundConfig::Vmess(
            VmessOutbound {
                tag: str_to_string(SECONDARY_TAG),
                server: f.add,
                server_port,
                uuid: f.id,
                security,
                alter_id,
                packet_encoding: Some(str_to_string("xudp")),
                tls,
                transport,
            },
        ),
    )
}

fn parse_vmess(link: &str) -> (r: Result<OutboundConfig, String>)
    ensures
        outbound_result(r) == vmess_spec(link@),
{
    let link_chars = chars_of(link);
    let prefix = chars_of("vmess://");
    let encoded = string_of(&crate::text::strip_all_exec(&link_chars, &prefix));
    let decoded = match decode_base64_text(encoded.as_str()) {
        Ok(t) => t,
        Err(invalid_text) => if invalid_text {
            return Err(str_to_string("VMess link does not contain valid UTF-8 JSON."));
        } else {
            return Err(str_to_string("VMess link does not contain valid base64 JSON."));
        },
    };
    let members = match parse_json_object(decoded.as_str()) {
        Ok(Some(m)) => m,
        Ok(None) => return Err(str_to_string("Invalid VMess JSON: expected a JSON object")),
        Err(e) => return Err(prefixed_error("Invalid VMess JSON: ", e.as_str())),
    };
    vmess_from_members(&members)
}

/// What the members of a VMess link's JSON object (as `serde_json` reads them) import as.
pub fn vmess_from_members(members: &Vec<(String, JsonField)>) -> (r: Result<OutboundConfig, String>)
    ensures
        outbound_result(r) == vmess_members_spec(members_view(members@)),
{
    let fields = match vmess_fields_exec(members) {
        Ok(f) => f,
        Err(e) => return Err(e),
    };
    vmess_from_fields_exec(fields)
}

// ---------------------------------------------------------------------------
// Share links
// ---------------------------------------------------------------------------

/// The message of an empty share link.
pub open spec fn empty_link_message() -> Seq<char> {
    "Paste a VLESS, VMess, Trojan, or Shadowsocks share link."@
}

/// What a share link imports as: the trimmed text must be one line with a supported scheme.
pub open spec fn share_link_spec(input: Seq<char>) -> Result<ShareOutboundView, Seq<char>> {
    let link = trim(input);
    if link.len() == 0 {
        Err(empty_link_message())
    } else if crate::text::lines_of(link).len() != 1 {
        Err("Paste one secondary proxy share link at a time."@)
    } else if crate::text::starts_with(link, "vless://"@) {
        vless_spec(link)
    } else if crate::text::starts_with(link, "vmess://"@) {
        vmess_spec(link)
    } else if crate::text::starts_with(link, "trojan://"@) {
        trojan_spec(link)
    } else if crate::text::starts_with(link, "ss://"@) {
        shadowsocks_spec(link)
    } else {
        Err("Unsupported config. Use a vless://, vmess://, trojan://, or ss:// share link."@)
    }
}

/// Parses one VLESS, VMess, Trojan or Shadowsocks share link into the secondary outbound,
/// tagged `v2ray`.
pub fn parse_share_link(input: &str) -> (r: Result<OutboundConfig, String>)
    ensures
        outbound_result(r) == share_link_spec(input@),
{
    let link = crate::text::trim_str(input);
    let ls = link.as_str();
    if ls.unicode_len() == 0 {
        return Err(str_to_string("Paste a VLESS, VMess, Trojan, or Shadowsocks share link."));
    }
    let chars = chars_of(ls);
    let lines = crate::text::lines_exec(&chars);
    if lines.len() != 1 {
        return Err(str_to_string("Paste one secondary proxy share link at a time."));
    }
    if crate::text::starts_with_exec(&chars, &chars_of("vless://")) {
        parse_vless(ls)
    } else if crate::text::starts_with_exec(&chars, &chars_of("vmess://")) {
        parse_vmess(ls)
    } else if crate::text::starts_with_exec(&chars, &chars_of("trojan://")) {
        parse_trojan(ls)
    } else if crate::text::starts_with_exec(&chars, &chars_of("ss://")) {
        parse_shadowsocks(ls)
    } else {
        Err(
            str_to_string(
                "Unsupported config. Use a vless://, vmess://, trojan://, or ss:// share link.",
            ),
        )
    }
}

/// The name a link gives itself: the `ps` member of a VMess link, else the decoded URL
/// fragment.
pub open spec fn explicit_name(link: Seq<char>) -> Option<Seq<char>> {
    if crate::text::starts_with(link, "vmess://"@) {
        match base64_text(link.subrange(8, link.len() as int)) {
            Ok(t) => match json_object_members(t) {
                Ok(Some(m)) => match json_get(m, "ps"@) {
                    Some(JsonFieldView::Text(p)) => Some(p),
                    _ => None,
                },
                _ => None,
            },
            Err(_) => None,
        }
    } else {
        match url_parse_result(link) {
            Ok(u) => match u.fragment {
                Some(f) => Some(percent_decoded(f)),
                None => None,
            },
            Err(_) => None,
        }
    }
}

/// At most the first 120 characters.
pub open spec fn first_120(t: Seq<char>) -> Seq<char> {
    if t.len() <= 120 {
        t
    } else {
        t.take(120)
    }
}

/// The display name of the `index`-th imported profile: the link's own name, trimmed and
/// cut to 120 characters, else the upper-case scheme with the endpoint (or the index).
pub open spec fn share_link_name_spec(link: Seq<char>, index: nat) -> Seq<char> {
    let explicit = explicit_name(link);
    if explicit is Some && trim(explicit.unwrap()).len() > 0 {
        first_120(trim(explicit.unwrap()))
    } else {
        let protocol = match crate::text::find_text(link, "://"@) {
            Some(i) => crate::text::seq_ascii_upper(link.subrange(0, i)),
            None => "Proxy"@,
        };
        let endpoint = match url_parse_result(link) {
            Ok(u) => match u.host {
                Some(h) => Some(
                    match u.port {
                        Some(p) => h + ":"@ + crate::text::decimal(p as nat),
                        None => h,
                    },
                ),
                None => None,
            },
            Err(_) => None,
        };
        match endpoint {
            None => protocol + " "@ + crate::text::decimal(index),
            Some(e) => protocol + " \u{b7} "@ + e,
        }
    }
}

fn explicit_name_exec(link: &str) -> (r: Option<String>)
    ensures
        text_opt(r) == explicit_name(link@),
{
    let chars = chars_of(link);
    if crate::text::starts_with_exec(&chars, &chars_of("vmess://")) {
        proof {
            reveal_strlit("vmess://");
        }
        let encoded = string_of(&crate::text::slice_chars(&chars, 8, chars.len()));
        match decode_base64_text(encoded.as_str()) {
            Ok(t) => match parse_json_object(t.as_str()) {
                Ok(Some(m)) => match json_get_exec(&m, "ps") {
                    Some(JsonField::Text(p)) => Some(p),
                    _ => None,
                },
                _ => None,
            },
            Err(_) => None,
        }
    } else {
        match parse_url(link) {
            Ok(u) => match &u.fragment {
                Some(f) => Some(decode(f.as_str())),
                None => None,
            },
            Err(_) => None,
        }
    }
}

fn share_link_name(link: &str, index: usize) -> (r: String)
    ensures
        r@ == share_link_name_spec(link@, index as nat),
{
    match explicit_name_exec(link) {
        Some(name) => {
            let t = crate::text::trim_str(name.as_str());
            let tc = chars_of(t.as_str());
            if tc.len() > 0 {
                if tc.len() <= 120 {
                    return t;
                } else {
                    return string_of(&crate::text::slice_chars(&tc, 0, 120));
                }
            }
        },
        None => {},
    }
    let chars = chars_of(link);
    let sep = chars_of("://");
    let protocol = match crate::text::find_exec(&chars, &sep) {
        Some(i) => {
            proof {
                crate::text::lemma_find_iff_contains(chars@, sep@, 0);
            }
            crate::text::to_ascii_uppercase_chars(&crate::text::slice_chars(&chars, 0, i))
        },
        None => str_to_string("Proxy"),
    };
    let endpoint: Option<String> = match parse_url(link) {
        Ok(u) => match &u.host {
            Some(h) => match u.port {
                Some(p) => {
                    let mut e = h.clone();
                    e.append(":");
                    let d = crate::text::decimal_string(p as u64);
                    e.append(d.as_str());
                    Some(e)
                },
                None => Some(h.clone()),
            },
            None => None,
        },
        Err(_) => None,
    };
    let mut name = protocol;
    match endpoint {
        None => {
            name.append(" ");
            let d = crate::text::decimal_string(index as u64);
            name.append(d.as_str());
        },
        Some(e) => {
            name.append(" \u{b7} ");
            name.append(e.as_str());
        },
    }
    name
}

// ---------------------------------------------------------------------------
// Subscriptions
// ---------------------------------------------------------------------------

/// Profiles imported from a subscription and the number of entries that were skipped.
#[derive(Debug, Clone)]
pub struct ParsedSubscription {
    pub profiles: Vec<SecondaryProxyProfile>,
    pub skipped: usize,
}

/// The byte-order mark.
pub open spec fn bom() -> Seq<char> {
    seq!['\u{feff}']
}

/// The text without white space.
pub open spec fn without_ws(s: Seq<char>) -> Seq<char>
    decreases s.len(),
{
    if s.len() == 0 {
        s
    } else if crate::text::is_white_space(s.last()) {
        without_ws(s.drop_last())
    } else {
        without_ws(s.drop_last()).push(s.last())
    }
}

/// The share-link list a payload holds: the trimmed payload itself when it holds `://`,
/// else its base64-decoded text.
pub open spec fn payload_text(payload: Seq<char>) -> Result<Seq<char>, Seq<char>> {
    let raw = crate::text::strip_all(trim(payload), bom());
    if raw.len() == 0 {
        Err("Subscription returned an empty response."@)
    } else if crate::text::contains_text(raw, "://"@) {
        Ok(raw)
    } else {
        match base64_text(without_ws(raw)) {
            Err(false) => Err("Subscription is neither a share-link list nor valid base64."@),
            Err(true) => Err("Decoded subscription is not valid UTF-8 text."@),
            Ok(t) => Ok(crate::text::strip_all(trim(t), bom())),
        }
    }
}

/// The link of a subscription line: trimmed, list dashes removed, trimmed again.
pub open spec fn entry_link(line: Seq<char>) -> Seq<char> {
    trim(crate::text::strip_all(trim(line), "- "@))
}

/// State of the scan over subscription lines.
pub struct ScanState {
    /// `(name, link)` of every imported profile.
    pub profiles: Seq<(Seq<char>, Seq<char>)>,
    /// Every link already considered.
    pub seen: Seq<Seq<char>>,
    pub skipped: nat,
    pub first_error: Option<Seq<char>>,
}

/// The first error, kept once set.
pub open spec fn keep_first(first: Option<Seq<char>>, e: Seq<char>) -> Option<Seq<char>> {
    match first {
        Some(x) => Some(x),
        None => Some(e),
    }
}

/// The scan over subscription lines: comments, blank lines and lines without `://` are
/// passed over, entries over 65,536 bytes are skipped, repeated links are passed over,
/// links that do not import are skipped, and the others become profiles.
pub open spec fn scan_lines(lines: Seq<Seq<char>>) -> ScanState
    decreases lines.len(),
{
    if lines.len() == 0 {
        ScanState { profiles: Seq::empty(), seen: Seq::empty(), skipped: 0, first_error: None }
    } else {
        let st = scan_lines(lines.drop_last());
        let link = entry_link(lines.last());
        if link.len() == 0 || link[0] == '#' || !crate::text::contains_text(link, "://"@) {
            st
        } else if crate::text::utf8_len(link) > 65536 {
            ScanState {
                skipped: st.skipped + 1,
                first_error: keep_first(st.first_error, "A subscription entry is too large."@),
                ..st
            }
        } else if st.seen.contains(link) {
            st
        } else {
            match share_link_spec(link) {
                Ok(_) => ScanState {
                    profiles: st.profiles.push(
                        (share_link_name_spec(link, st.profiles.len() + 1), link),
                    ),
                    seen: st.seen.push(link),
                    ..st
                },
                Err(e) => ScanState {
                    seen: st.seen.push(link),
                    skipped: st.skipped + 1,
                    first_error: keep_first(st.first_error, e),
                    ..st
                },
            }
        }
    }
}

/// What a subscription payload imports as: its profiles `(name, link)` and the number of
/// skipped entries.
pub open spec fn subscription_spec(payload: Seq<char>) -> Result<
    (Seq<(Seq<char>, Seq<char>)>, nat),
    Seq<char>,
> {
    match payload_text(payload) {
        Err(e) => Err(e),
        Ok(text) => {
            let st = scan_lines(crate::text::lines_of(text));
            if st.profiles.len() == 0 {
                Err(
                    match st.first_error {
                        Some(e) => e,
                        None => "Subscription contains no supported VLESS, VMess, Trojan, or Shadowsocks profiles."@,
                    },
                )
            } else if st.profiles.len() > 200 {
                Err(
                    "Subscription contains "@ + crate::text::decimal(st.profiles.len())
                        + " supported profiles; maximum is 200."@,
                )
            } else {
                Ok((st.profiles, st.skipped))
            }
        },
    }
}

/// Model of imported profiles.
pub open spec fn profiles_view(p: Seq<SecondaryProxyProfile>) -> Seq<(Seq<char>, Seq<char>)> {
    p.map_values(|x: SecondaryProxyProfile| (x.name@, x.share_link@))
}

/// Model of a subscription result.
pub open spec fn subscription_result(r: Result<ParsedSubscription, String>) -> Result<
    (Seq<(Seq<char>, Seq<char>)>, nat),
    Seq<char>,
> {
    match r {
        Ok(p) => Ok((profiles_view(p.profiles@), p.skipped as nat)),
        Err(e) => Err(e@),
    }
}

fn without_ws_exec(v: &[char]) -> (r: Vec<char>)
    ensures
        r@ == without_ws(v@),
{
    let mut out: Vec<char> = Vec::new();
    let mut i: usize = 0;
    while i < v.len()
        invariant
            i <= v@.len(),
            out@ == without_ws(v@.take(i as int)),
        decreases v@.len() - i,
    {
        proof {
            assert(v@.take(i + 1).drop_last() =~= v@.take(i as int));
        }
        if !crate::text::is_whitespace_exec(v[i]) {
            out.push(v[i]);
        }
        i = i + 1;
    }
    proof {
        assert(v@.take(i as int) =~= v@);
    }
    out
}

fn strip_bom(s: &str) -> (r: String)
    ensures
        r@ == crate::text::strip_all(s@, bom()),
{
    let c = chars_of(s);
    let mut b: Vec<char> = Vec::new();
    b.push('\u{feff}');
    proof {
        assert(b@ =~= bom());
    }
    string_of(&crate::text::strip_all_exec(&c, &b))
}

fn payload_text_exec(payload: &str) -> (r: Result<String, String>)
    ensures
        match r {
            Ok(t) => payload_text(payload@) == Ok::<Seq<char>, Seq<char>>(t@),
            Err(e) => payload_text(payload@) == Err::<Seq<char>, Seq<char>>(e@),
        },
{
    let trimmed = crate::text::trim_str(payload);
    let raw = strip_bom(trimmed.as_str());
    let rc = chars_of(raw.as_str());
    if rc.len() == 0 {
        return Err(str_to_string("Subscription returned an empty response."));
    }
    if crate::text::contains_exec(&rc, &chars_of("://")) {
        return Ok(raw);
    }
    let compact = string_of(&without_ws_exec(&rc));
    match decode_base64_text(compact.as_str()) {
        Err(invalid_text) => if invalid_text {
            Err(str_to_string("Decoded subscription is not valid UTF-8 text."))
        } else {
            Err(str_to_string("Subscription is neither a share-link list nor valid base64."))
        },
        Ok(t) => {
            let tt = crate::text::trim_str(t.as_str());
            Ok(strip_bom(tt.as_str()))
        },
    }
}

fn entry_link_exec(line: &[char]) -> (r: Vec<char>)
    ensures
        r@ == entry_link(line@),
{
    let t = crate::text::trim_chars(line);
    let s = crate::text::strip_all_exec(&t, &chars_of("- "));
    crate::text::trim_chars(&s)
}

fn seen_contains(seen: &Vec<Vec<char>>, link: &[char]) -> (r: bool)
    ensures
        r == crate::text::texts_of(seen@).contains(link@),
{
    let ghost sv = crate::text::texts_of(seen@);
    let mut i: usize = 0;
    while i < seen.len()
        invariant
            i <= seen@.len(),
            sv == crate::text::texts_of(seen@),
            forall|j: int| 0 <= j < i ==> sv[j] != link@,
        decreases seen@.len() - i,
    {
        if seen[i].len() == link.len() {
            let a = string_of(seen[i].as_slice());
            let b = string_of(link);
            if text_eq(a.as_str(), b.as_str()) {
                proof {
                    assert(sv[i as int] == link@);
                }
                return true;
            }
        }
        i = i + 1;
    }
    false
}

/// Parses a subscription payload: a list of share links, plain or base64, one per line.
/// Comments and blank lines are passed over, repeated links are imported once, entries that
/// do not import are skipped and counted, and at most 200 profiles are accepted.
#[verifier::rlimit(40)]
pub fn parse_subscription_payload(payload: &str) -> (r: Result<ParsedSubscription, String>)
    ensures
        subscription_result(r) == subscription_spec(payload@),
{
    let text = match payload_text_exec(payload) {
        Ok(t) => t,
        Err(e) => return Err(e),
    };
    let tc = chars_of(text.as_str());
    let lines = crate::text::lines_exec(&tc);
    let ghost lv = crate::text::texts_of(lines@);
    let mut profiles: Vec<SecondaryProxyProfile> = Vec::new();
    let mut seen: Vec<Vec<char>> = Vec::new();
    let mut skipped: usize = 0;
    let mut first_error: Option<String> = None;
    let mut k: usize = 0;
    while k < lines.len()
        invariant
            k <= lines@.len(),
            lv == crate::text::texts_of(lines@),
            skipped <= k,
            profiles@.len() <= k,
            ({
                let st = scan_lines(lv.take(k as int));
                &&& profiles_view(profiles@) == st.profiles
                &&& crate::text::texts_of(seen@) == st.seen
                &&& skipped == st.skipped
                &&& text_opt(first_error) == st.first_error
            }),
        decreases lines@.len() - k,
    {
        proof {
            assert(lv.take(k + 1).drop_last() =~= lv.take(k as int));
            assert(lv.take(k + 1).last() == lines@[k as int]@);
        }
        let link = entry_link_exec(lines[k].as_slice());
        let has_scheme = crate::text::contains_exec(&link, &chars_of("://"));
        if link.len() == 0 || link[0] == '#' || !has_scheme {
            k = k + 1;
            continue;
        }
        if crate::text::utf8_len_exceeds(&link, 65536) {
            skipped = skipped + 1;
            if first_error.is_none() {
                first_error = Some(str_to_string("A subscription entry is too large."));
            }
            k = k + 1;
            continue;
        }
        if seen_contains(&seen, &link) {
            k = k + 1;
            continue;
        }
        let link_text = string_of(&link);
        let link_copy = crate::text::slice_chars(&link, 0, link.len());
        proof {
            assert(link@.subrange(0, link@.len() as int) =~= link@);
            assert(link_copy@ == link@);
            assert(crate::text::texts_of(seen@.push(link_copy)) =~= crate::text::texts_of(seen@).push(
                link@,
            ));
        }
        seen.push(link_copy);
        match parse_share_link(link_text.as_str()) {
            Ok(_) => {
                let name = share_link_name(link_text.as_str(), profiles.len() + 1);
                let profile = SecondaryProxyProfile { name, share_link: link_text };
                proof {
                    assert(profiles_view(profiles@.push(profile)) =~= profiles_view(profiles@).push(
                        (profile.name@, profile.share_link@),
                    ));
                }
                profiles.push(profile);
            },
            Err(e) => {
                skipped = skipped + 1;
                if first_error.is_none() {
                    first_error = Some(e);
                }
            },
        }
        k = k + 1;
    }
    proof {
        assert(lv.take(k as int) =~= lv);
    }
    if profiles.len() == 0 {
        return Err(
            match first_error {
                Some(e) => e,
                None => str_to_string(
                    "Subscription contains no supported VLESS, VMess, Trojan, or Shadowsocks profiles.",
                ),
            },
        );
    }
    if profiles.len() > MAX_SUBSCRIPTION_PROFILES {
        let mut m = str_to_string("Subscription contains ");
        let d = crate::text::decimal_string(profiles.len() as u64);
        m.append(d.as_str());
        m.append(" supported profiles; maximum is 200.");
        return Err(m);
    }
    Ok(ParsedSubscription { profiles, skipped })
}

// ---------------------------------------------------------------------------
// Laws of subscription import
// ---------------------------------------------------------------------------

/// Every profile of the scan imports, was seen, and no link occurs twice.
proof fn lemma_scan_profiles(lines: Seq<Seq<char>>)
    ensures
        ({
            let st = scan_lines(lines);
            &&& forall|i: int|
                0 <= i < st.profiles.len() ==> st.seen.contains(#[trigger] st.profiles[i].1)
            &&& forall|i: int|
                0 <= i < st.profiles.len() ==> share_link_spec(#[trigger] st.profiles[i].1) is Ok
            &&& forall|i: int, j: int|
                0 <= i < j < st.profiles.len() ==> st.profiles[i].1 != st.profiles[j].1
        }),
    decreases lines.len(),
{
    if lines.len() > 0 {
        lemma_scan_profiles(lines.drop_last());
        let st = scan_lines(lines.drop_last());
        let link = entry_link(lines.last());
        assert forall|i: int| 0 <= i < st.profiles.len() implies st.seen.push(
            link,
        ).contains(#[trigger] st.profiles[i].1) by {
            assert(st.seen.contains(st.profiles[i].1));
            let w = choose|w: int| 0 <= w < st.seen.len() && st.seen[w] == st.profiles[i].1;
            assert(st.seen.push(link)[w] == st.profiles[i].1);
        }
        assert(st.seen.push(link)[st.seen.len() as int] == link);
    }
}

/// A subscription that imports holds between one and 200 profiles, each of which imports
/// as a share link on its own, and no share link occurs twice.
pub proof fn law_subscription_profiles_are_bounded_and_distinct(payload: Seq<char>)
    requires
        subscription_spec(payload) is Ok,
    ensures
        ({
            let profiles = subscription_spec(payload)->Ok_0.0;
            &&& 1 <= profiles.len() <= 200
            &&& forall|i: int| 0 <= i < profiles.len() ==> share_link_spec(#[trigger] profiles[i].1) is Ok
            &&& forall|i: int, j: int|
                0 <= i < j < profiles.len() ==> profiles[i].1 != profiles[j].1
        }),
{
    let text = payload_text(payload)->Ok_0;
    lemma_scan_profiles(crate::text::lines_of(text));
    let st = scan_lines(crate::text::lines_of(text));
    assert forall|i: int| 0 <= i < st.profiles.len() implies share_link_spec(
        #[trigger] st.profiles[i].1,
    ) is Ok by {
        assert(st.seen.contains(st.profiles[i].1));
    }
}

/// A share link imports only when its trimmed text is one line of a supported scheme, and
/// the import is always tagged `v2ray`.
pub proof fn law_imported_outbound_is_tagged(input: Seq<char>)
    requires
        share_link_spec(input) is Ok,
    ensures
        ({
            let link = trim(input);
            &&& link.len() > 0
            &&& crate::text::lines_of(link).len() == 1
            &&& match share_link_spec(input)->Ok_0 {
                ShareOutboundView::Vless { tag, .. } => tag == "v2ray"@ && crate::text::starts_with(link, "vless://"@),
                ShareOutboundView::Vmess { tag, .. } => tag == "v2ray"@ && crate::text::starts_with(link, "vmess://"@),
                ShareOutboundView::Trojan { tag, .. } => tag == "v2ray"@ && crate::text::starts_with(link, "trojan://"@),
                ShareOutboundView::Shadowsocks { tag, .. } => tag == "v2ray"@ && crate::text::starts_with(link, "ss://"@),
                ShareOutboundView::Other => false,
            }
        }),
{
    reveal_strlit("vless://");
    reveal_strlit("vmess://");
    reveal_strlit("trojan://");
    reveal_strlit("ss://");
}

/// A query lookup finds the value of the last pair whose key is the wanted one (ASCII case
/// ignored).
proof fn lemma_query_get_last(q: Seq<(Seq<char>, Seq<char>)>, key: Seq<char>, i: int)
    requires
        0 <= i < q.len(),
        seq_ascii_lower(q[i].0) == key,
        forall|j: int| i < j < q.len() ==> seq_ascii_lower(#[trigger] q[j].0) != key,
    ensures
        query_get(q, key) == Some(q[i].1),
    decreases q.len(),
{
    if i < q.len() - 1 {
        let d = q.drop_last();
        assert(seq_ascii_lower(q[q.len() - 1].0) != key);
        assert forall|j: int| i < j < d.len() implies seq_ascii_lower(#[trigger] d[j].0) != key by {
            assert(d[j] == q[j]);
        }
        lemma_query_get_last(d, key, i);
        assert(d[i] == q[i]);
    }
}

/// A query without the wanted key has no value for it.
proof fn lemma_query_get_absent(q: Seq<(Seq<char>, Seq<char>)>, key: Seq<char>)
    requires
        forall|j: int| 0 <= j < q.len() ==> seq_ascii_lower(#[trigger] q[j].0) != key,
    ensures
        query_get(q, key) is None,
    decreases q.len(),
{
    if q.len() > 0 {
        let d = q.drop_last();
        assert(seq_ascii_lower(q[q.len() - 1].0) != key);
        assert forall|j: int| 0 <= j < d.len() implies seq_ascii_lower(#[trigger] d[j].0) != key by {
            assert(d[j] == q[j]);
        }
        lemma_query_get_absent(d, key);
    }
}

/// An imported VLESS link keeps its flow: the outbound's flow is the value of the link's
/// (last) `flow` query parameter, key compared ignoring ASCII case, when that value is not
/// empty.
pub proof fn law_vless_keeps_the_flow(u: UrlView, i: int)
    requires
        vless_url_spec(u) is Ok,
        0 <= i < u.query.len(),
        seq_ascii_lower(u.query[i].0) == "flow"@,
        forall|j: int| i < j < u.query.len() ==> seq_ascii_lower(#[trigger] u.query[j].0) != "flow"@,
    ensures
        vless_url_spec(u) matches Ok(ShareOutboundView::Vless { flow, .. }) && flow == (if u.query[i].1.len() > 0 {
            Some(u.query[i].1)
        } else {
            None
        }),
{
    lemma_query_get_last(u.query, "flow"@, i);
}

/// A VLESS link without a `flow` query parameter imports with no flow.
pub proof fn law_vless_without_flow_has_none(u: UrlView)
    requires
        vless_url_spec(u) is Ok,
        forall|j: int| 0 <= j < u.query.len() ==> seq_ascii_lower(#[trigger] u.query[j].0) != "flow"@,
    ensures
        vless_url_spec(u) matches Ok(ShareOutboundView::Vless { flow, .. }) && flow is None,
{
    lemma_query_get_absent(u.query, "flow"@);
}

/// A member lookup finds the value of the last member with the wanted key.
proof fn lemma_json_get_last(m: Seq<(Seq<char>, JsonFieldView)>, key: Seq<char>, i: int)
    requires
        0 <= i < m.len(),
        m[i].0 == key,
        forall|j: int| i < j < m.len() ==> (#[trigger] m[j]).0 != key,
    ensures
        json_get(m, key) == Some(m[i].1),
    decreases m.len(),
{
    if i < m.len() - 1 {
        let d = m.drop_last();
        assert(m[m.len() - 1].0 != key);
        assert forall|j: int| i < j < d.len() implies (#[trigger] d[j]).0 != key by {
            assert(d[j] == m[j]);
        }
        lemma_json_get_last(d, key, i);
        assert(d[i] == m[i]);
    }
}

/// A profile imported from a VMess link is named by the link's own `ps` name: when the
/// link's JSON object has a `ps` text that is not blank, the profile's name is that text,
/// trimmed and cut to its first 120 characters, whatever the profile's position.
pub proof fn law_vmess_profile_is_named_by_ps(
    link: Seq<char>,
    index: nat,
    decoded: Seq<char>,
    m: Seq<(Seq<char>, JsonFieldView)>,
    i: int,
    p: Seq<char>,
)
    requires
        crate::text::starts_with(link, "vmess://"@),
        base64_text(link.subrange(8, link.len() as int)) == Ok::<Seq<char>, bool>(decoded),
        json_object_members(decoded) == Ok::<_, Seq<char>>(Some(m)),
        0 <= i < m.len(),
        m[i] == ("ps"@, JsonFieldView::Text(p)),
        forall|j: int| i < j < m.len() ==> (#[trigger] m[j]).0 != "ps"@,
        trim(p).len() > 0,
    ensures
        share_link_name_spec(link, index) == (if trim(p).len() <= 120 {
            trim(p)
        } else {
            trim(p).take(120)
        }),
{
    lemma_json_get_last(m, "ps"@, i);
}

/// An imported VLESS link keeps its packet encoding: the outbound's packet encoding is the
/// value of the link's (last) `packetEncoding` query parameter, key compared ignoring ASCII
/// case, when that value is not empty.
pub proof fn law_vless_keeps_the_packet_encoding(u: UrlView, i: int)
    requires
        vless_url_spec(u) is Ok,
        0 <= i < u.query.len(),
        seq_ascii_lower(u.query[i].0) == "packetencoding"@,
        forall|j: int| i < j < u.query.len() ==> seq_ascii_lower(#[trigger] u.query[j].0) != "packetencoding"@,
    ensures
        vless_url_spec(u) matches Ok(ShareOutboundView::Vless { packet_encoding, .. })
            && packet_encoding == (if u.query[i].1.len() > 0 {
            Some(u.query[i].1)
        } else {
            None
        }),
{
    lemma_query_get_last(u.query, "packetencoding"@, i);
}

} // verus!
