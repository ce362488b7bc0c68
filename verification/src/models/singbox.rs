//! The sing-box configuration document produced by the generator.
use vstd::prelude::*;

verus! {

/// A complete sing-box configuration.
#[derive(Debug, Clone)]
pub struct SingBoxConfig {
    pub log: LogConfig,
    pub dns: Option<DnsConfig>,
    pub inbounds: Vec<InboundConfig>,
    pub outbounds: Vec<OutboundConfig>,
    pub route: RouteConfig,
}

/// Logging section.
#[derive(Debug, Clone)]
pub struct LogConfig {
    pub level: String,
    pub timestamp: bool,
}

/// DNS section.
#[derive(Debug, Clone)]
pub struct DnsConfig {
    pub servers: Vec<DnsServer>,
    pub strategy: String,
    pub independent_cache: bool,
}

/// A DNS server, tagged by its `type`.
#[derive(Debug, Clone)]
pub enum DnsServer {
    Udp(UdpDnsServer),
    Tcp(TcpDnsServer),
    Https(HttpsDnsServer),
    Local(LocalDnsServer),
}

/// Plain UDP DNS server.
#[derive(Debug, Clone)]
pub struct UdpDnsServer {
    pub tag: String,
    pub server: String,
    pub server_port: Option<u16>,
    pub detour: Option<String>,
}

/// Plain TCP DNS server.
#[derive(Debug, Clone)]
pub struct TcpDnsServer {
    pub tag: String,
    pub server: String,
    pub server_port: Option<u16>,
    pub detour: Option<String>,
}

/// DNS-over-HTTPS server.
#[derive(Debug, Clone)]
pub struct HttpsDnsServer {
    pub tag: String,
    pub server: String,
    pub detour: Option<String>,
}

/// The system resolver.
#[derive(Debug, Clone)]
pub struct LocalDnsServer {
    pub tag: String,
    pub detour: Option<String>,
}

/// An inbound, tagged by its `type`.
#[derive(Debug, Clone)]
pub enum InboundConfig {
    Tun(TunInbound),
}

/// The TUN inbound.
#[derive(Debug, Clone)]
pub struct TunInbound {
    pub tag: String,
    pub interface_name: String,
    pub address: Vec<String>,
    pub mtu: u32,
    pub auto_route: bool,
    pub strict_route: bool,
    pub stack: String,
}

/// An outbound, tagged by its `type`.
#[derive(Debug, Clone)]
pub enum OutboundConfig {
    Socks(SocksOutbound),
    Vless(VlessOutbound),
    Vmess(VmessOutbound),
    Trojan(TrojanOutbound),
    Shadowsocks(ShadowsocksOutbound),
    Direct(DirectOutbound),
}

/// SOCKS outbound.
#[derive(Debug, Clone)]
pub struct SocksOutbound {
    pub tag: String,
    pub server: String,
    pub server_port: u16,
    pub version: String,
}

/// Direct outbound.
#[derive(Debug, Clone)]
pub struct DirectOutbound {
    pub tag: String,
}

/// The V2Ray transport of an outbound (`transport` object of the JSON document).
#[derive(Debug, Clone)]
pub enum Transport {
    /// `{"type":"ws","path":..,"headers":{"Host":..}}`; the header map is empty when no host.
    WebSocket { path: String, host_header: Option<String> },
    /// `{"type":"grpc","service_name":..}`.
    Grpc { service_name: String },
    /// `{"type":"httpupgrade","host":..,"path":..}`.
    HttpUpgrade { host: String, path: String },
    /// `{"type":"http","host":[..],"path":..}`.
    Http { host: Vec<String>, path: String },
}

/// VLESS outbound.
#[derive(Debug, Clone)]
pub struct VlessOutbound {
    pub tag: String,
    pub server: String,
    pub server_port: u16,
    pub uuid: String,
    pub flow: Option<String>,
    pub packet_encoding: Option<String>,
    pub tls: Option<OutboundTls>,
    pub transport: Option<Transport>,
}

/// VMess outbound.
#[derive(Debug, Clone)]
pub struct VmessOutbound {
    pub tag: String,
    pub server: String,
    pub server_port: u16,
    pub uuid: String,
    pub security: String,
    pub alter_id: u32,
    pub packet_encoding: Option<String>,
    pub tls: Option<OutboundTls>,
    pub transport: Option<Transport>,
}

/// Trojan outbound.
#[derive(Debug, Clone)]
pub struct TrojanOutbound {
    pub tag: String,
    pub server: String,
    pub server_port: u16,
    pub password: String,
    pub tls: Option<OutboundTls>,
    pub transport: Option<Transport>,
}

/// Shadowsocks outbound.
#[derive(Debug, Clone)]
pub struct ShadowsocksOutbound {
    pub tag: String,
    pub server: String,
    pub server_port: u16,
    pub method: String,
    pub password: String,
    pub plugin: Option<String>,
    pub plugin_opts: Option<String>,
}

/// TLS settings of an outbound.
#[derive(Debug, Clone)]
pub struct OutboundTls {
    pub enabled: bool,
    pub server_name: Option<String>,
    pub insecure: bool,
    pub alpn: Vec<String>,
    pub utls: Option<OutboundUtls>,
    pub reality: Option<OutboundReality>,
}

/// uTLS fingerprint settings.
#[derive(Debug, Clone)]
pub struct OutboundUtls {
    pub enabled: bool,
    pub fingerprint: String,
}

/// Reality settings.
#[derive(Debug, Clone)]
pub struct OutboundReality {
    pub enabled: bool,
    pub public_key: String,
    pub short_id: String,
}

/// The `insecure` flag is omitted from the JSON document when false.
pub fn is_false(value: &bool) -> (r: bool)
    ensures
        r == !*value,
{
    !*value
}

/// Route section.
#[derive(Debug, Clone)]
pub struct RouteConfig {
    pub auto_detect_interface: bool,
    pub default_domain_resolver: Option<String>,
    pub rules: Vec<RouteRule>,
    pub final_outbound: String,
}

/// One route rule; absent fields do not constrain the match.
#[derive(Debug, Clone)]
pub struct RouteRule {
    pub protocol: Option<Vec<String>>,
    pub process_name: Option<Vec<String>>,
    pub port: Option<Vec<u16>>,
    pub port_range: Option<Vec<String>>,
    pub network: Option<String>,
    pub ip_is_private: Option<bool>,
    pub action: Option<String>,
    pub outbound: Option<String>,
}

/// Mathematical model of a route rule.
#[verifier::ext_equal]
pub struct RouteRuleView {
    pub protocol: Option<Seq<Seq<char>>>,
    pub process_name: Option<Seq<Seq<char>>>,
    pub port: Option<Seq<u16>>,
    pub port_range: Option<Seq<Seq<char>>>,
    pub network: Option<Seq<char>>,
    pub ip_is_private: Option<bool>,
    pub action: Option<Seq<char>>,
    pub outbound: Option<Seq<char>>,
}

/// The texts of an optional list of strings.
pub open spec fn opt_texts(o: Option<Vec<String>>) -> Option<Seq<Seq<char>>> {
    match o {
        Some(v) => Some(v.deep_view()),
        None => None,
    }
}

/// The text of an optional string.
pub open spec fn opt_text(o: Option<String>) -> Option<Seq<char>> {
    match o {
        Some(s) => Some(s@),
        None => None,
    }
}

/// The elements of an optional list of ports.
pub open spec fn opt_ports(o: Option<Vec<u16>>) -> Option<Seq<u16>> {
    match o {
        Some(v) => Some(v@),
        None => None,
    }
}

impl View for RouteRule {
    type V = RouteRuleView;

    open spec fn view(&self) -> RouteRuleView {
        RouteRuleView {
            protocol: opt_texts(self.protocol),
            process_name: opt_texts(self.process_name),
            port: opt_ports(self.port),
            port_range: opt_texts(self.port_range),
            network: opt_text(self.network),
            ip_is_private: self.ip_is_private,
            action: opt_text(self.action),
            outbound: opt_text(self.outbound),
        }
    }
}

/// The models of a list of route rules.
pub open spec fn rule_views(rules: Seq<RouteRule>) -> Seq<RouteRuleView> {
    rules.map_values(|r: RouteRule| r@)
}

} // verus!
