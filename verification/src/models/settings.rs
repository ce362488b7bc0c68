//! Persistent user settings and the Aether launch-argument builder.
use vstd::prelude::*;
use crate::models::app_rule::{ApplicationRule, RouteDestination};
use crate::routing::presets::{get_default_rules, default_rules_spec};
use crate::text::{
    chars_of, decimal, decimal_string, str_to_string, trim, trim_chars,
};

verus! {

/// All persisted settings of the application.
#[derive(Debug, Clone)]
pub struct AppSettings {
    pub aether: AetherSettings,
    pub secondary_proxy: SecondaryProxySettings,
    pub sing_box: SingBoxSettings,
    pub compatibility: CompatibilitySettings,
    pub general: GeneralSettings,
    pub application_rules: Vec<ApplicationRule>,
    pub first_run_completed: bool,
}

/// Tunnel protocol used by Aether.
#[derive(Debug, Clone, Copy, PartialEq, Eq, Structural)]
pub enum AetherProtocol {
    Wireguard,
    Masque,
    WarpInWarp,
}

/// IP family used by Aether.
#[derive(Debug, Clone, Copy, PartialEq, Eq, Structural)]
pub enum AetherIpMode {
    Ipv4,
    Ipv6,
    Dual,
}

/// Endpoint scan strategy of Aether.
#[derive(Debug, Clone, Copy, PartialEq, Eq, Structural)]
pub enum AetherScanMode {
    Turbo,
    Balanced,
    Thorough,
    Stealth,
    Ironclad,
}

/// Protocol used when a stored settings file does not name one.
pub fn default_protocol() -> (r: AetherProtocol)
    ensures
        r == AetherProtocol::Wireguard,
{
    AetherProtocol::Wireguard
}

/// IP mode used when a stored settings file does not name one.
pub fn default_ip_mode() -> (r: AetherIpMode)
    ensures
        r == AetherIpMode::Ipv4,
{
    AetherIpMode::Ipv4
}

/// Scan mode used when a stored settings file does not name one.
pub fn default_scan_mode() -> (r: AetherScanMode)
    ensures
        r == AetherScanMode::Thorough,
{
    AetherScanMode::Thorough
}

/// Quick Reconnect is on when a stored settings file does not say.
pub fn default_true() -> (r: bool)
    ensures
        r,
{
    true
}

/// Settings of the primary Aether tunnel.
#[derive(Debug, Clone)]
pub struct AetherSettings {
    pub executable_path: String,
    pub host: String,
    pub port: u16,
    pub protocol: AetherProtocol,
    pub ip_mode: AetherIpMode,
    pub scan_mode: AetherScanMode,
    pub quick_reconnect: bool,
    pub additional_arguments: Vec<String>,
    pub launch_arguments: Vec<String>,
}

/// Quick Reconnect handling for one launch.
#[derive(Debug, Clone, Copy, PartialEq, Eq, Structural)]
pub enum QuickReconnectOption {
    /// Follow the saved setting.
    InheritSettings,
    /// Always `--quick-reconnect`.
    ForceEnabled,
    /// Always `--no-quick-reconnect` (fresh scan).
    ForceFreshScan,
}

impl Default for QuickReconnectOption {
    /// Launches follow the saved setting unless told otherwise.
    fn default() -> (r: Self)
        ensures
            r == QuickReconnectOption::InheritSettings,
    {
        QuickReconnectOption::InheritSettings
    }
}

/// Per-launch overrides that never change the saved settings.
#[derive(Debug, Clone, Copy, PartialEq, Eq, Structural)]
pub struct AetherLaunchOptions {
    pub quick_reconnect: QuickReconnectOption,
    pub scan_mode_override: Option<AetherScanMode>,
}

impl Default for AetherLaunchOptions {
    /// Inherit everything from the saved settings.
    fn default() -> (r: Self)
        ensures
            r.quick_reconnect == QuickReconnectOption::InheritSettings,
            r.scan_mode_override is None,
    {
        AetherLaunchOptions {
            quick_reconnect: QuickReconnectOption::InheritSettings,
            scan_mode_override: None,
        }
    }
}

impl AetherLaunchOptions {
    /// A fresh scan (Quick Reconnect disabled), optionally with another scan mode.
    pub fn force_fresh(scan_mode: Option<AetherScanMode>) -> (r: Self)
        ensures
            r.quick_reconnect == QuickReconnectOption::ForceFreshScan,
            r.scan_mode_override == scan_mode,
    {
        AetherLaunchOptions {
            quick_reconnect: QuickReconnectOption::ForceFreshScan,
            scan_mode_override: scan_mode,
        }
    }

    /// Reuse of the last working endpoint (Quick Reconnect forced on).
    pub fn force_quick_reconnect() -> (r: Self)
        ensures
            r.quick_reconnect == QuickReconnectOption::ForceEnabled,
            r.scan_mode_override is None,
    {
        AetherLaunchOptions {
            quick_reconnect: QuickReconnectOption::ForceEnabled,
            scan_mode_override: None,
        }
    }
}

/// Command-line flag of a protocol.
pub open spec fn protocol_flag(p: AetherProtocol) -> Seq<char> {
    match p {
        AetherProtocol::Wireguard => "--wg"@,
        AetherProtocol::Masque => "--masque"@,
        AetherProtocol::WarpInWarp => "--gool"@,
    }
}

/// Command-line flag of an IP mode.
pub open spec fn ip_mode_flag(m: AetherIpMode) -> Seq<char> {
    match m {
        AetherIpMode::Ipv4 => "-4"@,
        AetherIpMode::Ipv6 => "-6"@,
        AetherIpMode::Dual => "--dual"@,
    }
}

/// Command-line flag of a scan mode.
pub open spec fn scan_mode_flag(m: AetherScanMode) -> Seq<char> {
    match m {
        AetherScanMode::Turbo => "--turbo"@,
        AetherScanMode::Balanced => "--balanced"@,
        AetherScanMode::Thorough => "--thorough"@,
        AetherScanMode::Stealth => "--stealth"@,
        AetherScanMode::Ironclad => "--ironclad"@,
    }
}

/// The scan mode a launch uses: the override when given, else the saved one.
pub open spec fn effective_scan_mode(s: AetherSettings, o: AetherLaunchOptions) -> AetherScanMode {
    match o.scan_mode_override {
        Some(m) => m,
        None => s.scan_mode,
    }
}

/// Whether a launch passes `--quick-reconnect` (else `--no-quick-reconnect`).
pub open spec fn launch_quick_reconnect(s: AetherSettings, o: AetherLaunchOptions) -> bool {
    match o.quick_reconnect {
        QuickReconnectOption::ForceEnabled => true,
        QuickReconnectOption::ForceFreshScan => false,
        QuickReconnectOption::InheritSettings => s.quick_reconnect,
    }
}

/// The Quick Reconnect flag of a launch.
pub open spec fn quick_reconnect_flag(s: AetherSettings, o: AetherLaunchOptions) -> Seq<char> {
    if launch_quick_reconnect(s, o) {
        "--quick-reconnect"@
    } else {
        "--no-quick-reconnect"@
    }
}

/// The extra developer arguments that are not blank, in order.
pub open spec fn nonblank_args(a: Seq<Seq<char>>) -> Seq<Seq<char>>
    decreases a.len(),
{
    if a.len() == 0 {
        Seq::empty()
    } else if trim(a.last()).len() > 0 {
        nonblank_args(a.drop_last()).push(a.last())
    } else {
        nonblank_args(a.drop_last())
    }
}

/// The full argument list of one Aether launch.
pub open spec fn cli_arguments(
    s: AetherSettings,
    config_path: Option<Seq<char>>,
    o: AetherLaunchOptions,
) -> Seq<Seq<char>> {
    let config_part = match config_path {
        Some(p) => seq!["--config"@, p],
        None => Seq::empty(),
    };
    config_part + seq![
        "--bind"@,
        s.host@ + ":"@ + decimal(s.port as nat),
        protocol_flag(s.protocol),
        ip_mode_flag(s.ip_mode),
        scan_mode_flag(effective_scan_mode(s, o)),
        quick_reconnect_flag(s, o),
    ] + nonblank_args(s.additional_arguments.deep_view())
}

/// A text consisting only of white space, computed without building the trimmed copy.
fn is_blank(s: &str) -> (r: bool)
    ensures
        r == (trim(s@).len() == 0),
{
    let v = chars_of(s);
    let t = trim_chars(&v);
    t.len() == 0
}

impl AetherSettings {
    /// Arguments for a launch that follows the saved settings.
    pub fn build_cli_arguments(&self, aether_config_path: Option<&str>) -> (r: Vec<String>)
        ensures
            r.deep_view() == cli_arguments(
                *self,
                match aether_config_path {
                    Some(p) => Some(p@),
                    None => None,
                },
                AetherLaunchOptions {
                    quick_reconnect: QuickReconnectOption::InheritSettings,
                    scan_mode_override: None,
                },
            ),
    {
        let options = AetherLaunchOptions {
            quick_reconnect: QuickReconnectOption::InheritSettings,
            scan_mode_override: None,
        };
        self.build_cli_arguments_with_options(aether_config_path, &options)
    }

    /// Arguments for one launch: managed config, SOCKS bind, protocol, IP mode, scan mode,
    /// Quick Reconnect flag, then the non-blank developer arguments.
    pub fn build_cli_arguments_with_options(
        &self,
        aether_config_path: Option<&str>,
        options: &AetherLaunchOptions,
    ) -> (r: Vec<String>)
        ensures
            r.deep_view() == cli_arguments(
                *self,
                match aether_config_path {
                    Some(p) => Some(p@),
                    None => None,
                },
                *options,
            ),
    {
        let mut args: Vec<String> = Vec::new();
        if let Some(config_path) = aether_config_path {
            args.push(str_to_string("--config"));
            args.push(str_to_string(config_path));
        }
        args.push(str_to_string("--bind"));
        let mut bind = self.host.clone();
        bind.append(":");
        let port_text = decimal_string(self.port as u64);
        bind.append(port_text.as_str());
        args.push(bind);
        match self.protocol {
            AetherProtocol::Wireguard => args.push(str_to_string("--wg")),
            AetherProtocol::Masque => args.push(str_to_string("--masque")),
            AetherProtocol::WarpInWarp => args.push(str_to_string("--gool")),
        }
        match self.ip_mode {
            AetherIpMode::Ipv4 => args.push(str_to_string("-4")),
            AetherIpMode::Ipv6 => args.push(str_to_string("-6")),
            AetherIpMode::Dual => args.push(str_to_string("--dual")),
        }
        let effective = match options.scan_mode_override {
            Some(m) => m,
            None => self.scan_mode,
        };
        match effective {
            AetherScanMode::Turbo => args.push(str_to_string("--turbo")),
            AetherScanMode::Balanced => args.push(str_to_string("--balanced")),
            AetherScanMode::Thorough => args.push(str_to_string("--thorough")),
            AetherScanMode::Stealth => args.push(str_to_string("--stealth")),
            AetherScanMode::Ironclad => args.push(str_to_string("--ironclad")),
        }
        let quick = match options.quick_reconnect {
            QuickReconnectOption::ForceEnabled => true,
            QuickReconnectOption::ForceFreshScan => false,
            QuickReconnectOption::InheritSettings => self.quick_reconnect,
        };
        if quick {
            args.push(str_to_string("--quick-reconnect"));
        } else {
            args.push(str_to_string("--no-quick-reconnect"));
        }
        let ghost fixed = args.deep_view();
        let ghost extra = self.additional_arguments.deep_view();
        let mut i: usize = 0;
        while i < self.additional_arguments.len()
            invariant
                i <= self.additional_arguments@.len(),
                extra == self.additional_arguments.deep_view(),
                args.deep_view() == fixed + nonblank_args(extra.subrange(0, i as int)),
            decreases self.additional_arguments.len() - i,
        {
            let arg = &self.additional_arguments[i];
            proof {
                assert(extra.subrange(0, i + 1).drop_last() =~= extra.subrange(0, i as int));
                assert(extra.subrange(0, i + 1).last() == arg@);
            }
            if !is_blank(arg.as_str()) {
                let ghost before = args.deep_view();
                args.push(arg.clone());
                proof {
                    assert(args.deep_view() =~= before.push(arg@));
                    assert(args.deep_view() =~= fixed + nonblank_args(extra.subrange(0, i + 1)));
                }
            }
            i = i + 1;
        }
        proof {
            assert(extra.subrange(0, extra.len() as int) =~= extra);
            assert(args.deep_view() =~= cli_arguments(
                *self,
                match aether_config_path {
                    Some(p) => Some(p@),
                    None => None,
                },
                *options,
            ));
        }
        args
    }
}

/// Desktop startup deadline in seconds for a scan mode: the upstream Aether budget plus a
/// safety margin.
pub open spec fn startup_timeout_secs(m: AetherScanMode) -> u64 {
    match m {
        AetherScanMode::Turbo => 60,
        AetherScanMode::Balanced => 150,
        AetherScanMode::Thorough => 340,
        AetherScanMode::Stealth => 210,
        AetherScanMode::Ironclad => 210,
    }
}

/// Upstream Aether overall scan budget in seconds for a scan mode.
pub open spec fn upstream_budget_secs(m: AetherScanMode) -> u64 {
    match m {
        AetherScanMode::Turbo => 45,
        AetherScanMode::Balanced => 120,
        AetherScanMode::Thorough => 300,
        AetherScanMode::Stealth => 180,
        AetherScanMode::Ironclad => 180,
    }
}

/// Startup and scan deadline in seconds for a scan mode. Every deadline strictly exceeds
/// the upstream budget of that mode, and the bounded restore window is shorter than all.
pub fn aether_startup_timeout_secs(scan_mode: &AetherScanMode) -> (r: u64)
    ensures
        r == startup_timeout_secs(*scan_mode),
        r > upstream_budget_secs(*scan_mode),
        AETHER_RESTORE_TIMEOUT_SECS < r,
{
    match scan_mode {
        AetherScanMode::Turbo => 60,
        AetherScanMode::Balanced => 150,
        AetherScanMode::Thorough => 340,
        AetherScanMode::Stealth => 210,
        AetherScanMode::Ironclad => 210,
    }
}

/// The `Duration` of a whole number of seconds that `std::time::Duration::from_secs` makes.
pub uninterp spec fn duration_of_secs(secs: u64) -> core::time::Duration;

/// `std::time::Duration::from_secs`: the duration of `secs` whole seconds. `Duration` is
/// opaque here, so its value is named `duration_of_secs(secs)`: equal seconds give equal
/// durations.
pub assume_specification[ core::time::Duration::from_secs ](secs: u64) -> (r: core::time::Duration)
    ensures
        r == duration_of_secs(secs),
;

/// Startup and scan deadline for a scan mode, as a `Duration` of
/// `aether_startup_timeout_secs(scan_mode)` seconds.
pub fn aether_startup_timeout(scan_mode: &AetherScanMode) -> (r: core::time::Duration)
    ensures
        r == duration_of_secs(startup_timeout_secs(*scan_mode)),
{
    core::time::Duration::from_secs(aether_startup_timeout_secs(scan_mode))
}

/// Bounded restore deadline (seconds) for Quick Reconnect during optimization rollback.
pub const AETHER_RESTORE_TIMEOUT_SECS: u64 = 25;

/// Secondary SOCKS5 proxy (Xray / V2Ray) endpoint.
#[derive(Debug, Clone)]
pub struct SecondaryProxySettings {
    pub enabled: bool,
    pub host: String,
    pub port: u16,
}

/// A named secondary-proxy profile from a subscription.
#[derive(Debug, Clone)]
pub struct SecondaryProxyProfile {
    pub name: String,
    pub share_link: String,
}

/// Settings of the sing-box TUN router.
#[derive(Debug, Clone)]
pub struct SingBoxSettings {
    pub executable_path: String,
    pub interface_name: String,
    pub tun_address: String,
    pub mtu: u32,
    pub log_level: String,
    pub strict_route: bool,
}

/// Whether a compatibility rule is scoped to processes or applies globally.
#[derive(Debug, Clone, Copy, PartialEq, Eq, Structural)]
pub enum CompatibilityScope {
    AppScoped,
    GlobalFallback,
}

/// Transport protocol selector of a compatibility rule.
#[derive(Debug, Clone, Copy, PartialEq, Eq, Structural)]
pub enum NetworkProtocol {
    Tcp,
    Udp,
    Both,
}

/// A port/process compatibility rule.
#[derive(Debug, Clone)]
pub struct CompatibilityRule {
    pub id: String,
    pub name: String,
    pub description: String,
    pub enabled: bool,
    pub process_names: Option<Vec<String>>,
    pub ports: Option<Vec<u16>>,
    pub port_ranges: Option<Vec<String>>,
    pub network: Option<NetworkProtocol>,
    pub destination: RouteDestination,
    pub scope: CompatibilityScope,
}

/// Compatibility switches and custom compatibility rules.
#[derive(Debug, Clone)]
pub struct CompatibilitySettings {
    pub generals_stun_turn_fallback: bool,
    pub private_ip_bypass: bool,
    pub custom_compatibility_rules: Vec<CompatibilityRule>,
}

/// Desktop integration switches.
#[derive(Debug, Clone)]
pub struct GeneralSettings {
    pub start_with_windows: bool,
    pub auto_connect: bool,
    pub minimize_to_tray: bool,
    pub start_minimized: bool,
    pub reconnect_automatically: bool,
}

impl Default for AppSettings {
    /// Factory defaults: local Aether on 127.0.0.1:1819, secondary proxy on 127.0.0.1:10808,
    /// `singbox-tun` at 172.19.0.1/30, both compatibility switches on, preset rules seeded.
    fn default() -> (r: Self)
        ensures
            r.aether.executable_path@ == "C:\\Aether\\aether.exe"@,
            r.aether.host@ == "127.0.0.1"@,
            r.aether.port == 1819,
            r.aether.protocol == AetherProtocol::Wireguard,
            r.aether.ip_mode == AetherIpMode::Ipv4,
            r.aether.scan_mode == AetherScanMode::Thorough,
            r.aether.quick_reconnect,
            r.aether.additional_arguments@.len() == 0,
            r.aether.launch_arguments@.len() == 0,
            r.secondary_proxy.enabled,
            r.secondary_proxy.host@ == "127.0.0.1"@,
            r.secondary_proxy.port == 10808,
            r.sing_box.executable_path@ == "C:\\sing-box\\sing-box.exe"@,
            r.sing_box.interface_name@ == "singbox-tun"@,
            r.sing_box.tun_address@ == "172.19.0.1/30"@,
            r.sing_box.mtu == 1500,
            r.sing_box.log_level@ == "info"@,
            r.sing_box.strict_route,
            r.compatibility.generals_stun_turn_fallback,
            r.compatibility.private_ip_bypass,
            r.compatibility.custom_compatibility_rules@.len() == 0,
            !r.general.start_with_windows,
            !r.general.auto_connect,
            r.general.minimize_to_tray,
            !r.general.start_minimized,
            r.general.reconnect_automatically,
            default_rules_spec(r.application_rules@),
            !r.first_run_completed,
    {
        AppSettings {
            aether: AetherSettings {
                executable_path: str_to_string("C:\\Aether\\aether.exe"),
                host: str_to_string("127.0.0.1"),
                port: 1819,
                protocol: AetherProtocol::Wireguard,
                ip_mode: AetherIpMode::Ipv4,
                scan_mode: AetherScanMode::Thorough,
                quick_reconnect: true,
                additional_arguments: Vec::new(),
                launch_arguments: Vec::new(),
            },
            secondary_proxy: SecondaryProxySettings {
                enabled: true,
                host: str_to_string("127.0.0.1"),
                port: 10808,
            },
            sing_box: SingBoxSettings {
                executable_path: str_to_string("C:\\sing-box\\sing-box.exe"),
                interface_name: str_to_string("singbox-tun"),
                tun_address: str_to_string("172.19.0.1/30"),
                mtu: 1500,
                log_level: str_to_string("info"),
                strict_route: true,
            },
            compatibility: CompatibilitySettings {
                generals_stun_turn_fallback: true,
                private_ip_bypass: true,
                custom_compatibility_rules: Vec::new(),
            },
            general: GeneralSettings {
                start_with_windows: false,
                auto_connect: false,
                minimize_to_tray: true,
                start_minimized: false,
                reconnect_automatically: true,
            },
            application_rules: get_default_rules(),
            first_run_completed: false,
        }
    }
}

} // verus!
