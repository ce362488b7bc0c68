//! Connection lifecycle decisions: the connect sequence, the gateway optimization sequence
//! with its rollback, and the entry gates of every lifecycle operation.
//!
//! The sequences are state machines: the caller performs each command (probes, process
//! launches, verification) and hands the observation back as the next event.
use vstd::prelude::*;
use crate::models::settings::{
    effective_scan_mode, startup_timeout_secs, aether_startup_timeout_secs, AetherLaunchOptions,
    AetherScanMode, QuickReconnectOption, AETHER_RESTORE_TIMEOUT_SECS,
};
use crate::models::state::ConnectionState;
use crate::text::{
    chars_of, concat, decimal, decimal_string, starts_with, starts_with_exec, str_to_string,
    to_lowercase, unicode_lowercase,
};

verus! {

// ---------------------------------------------------------------------------
// Gateway optimization decision
// ---------------------------------------------------------------------------

/// Outcome of comparing a freshly scanned gateway with the current one.
#[derive(Debug, Clone, Copy, PartialEq, Eq, Structural)]
pub enum GatewayOptimizationDecision {
    KeptFaster,
    NotEnoughLatencyImprovement,
    CandidateTooUnstable,
}

impl GatewayOptimizationDecision {
    /// Name of the decision.
    pub fn as_str(&self) -> (r: &'static str)
        ensures
            r@ == decision_name(*self),
    {
        match self {
            GatewayOptimizationDecision::KeptFaster => "KeptFaster",
            GatewayOptimizationDecision::NotEnoughLatencyImprovement => "NotEnoughLatencyImprovement",
            GatewayOptimizationDecision::CandidateTooUnstable => "CandidateTooUnstable",
        }
    }

    /// The candidate gateway is kept.
    pub fn is_keep(&self) -> (r: bool)
        ensures
            r == (*self == GatewayOptimizationDecision::KeptFaster),
    {
        match self {
            GatewayOptimizationDecision::KeptFaster => true,
            _ => false,
        }
    }
}

/// Name of a decision.
pub open spec fn decision_name(d: GatewayOptimizationDecision) -> Seq<char> {
    match d {
        GatewayOptimizationDecision::KeptFaster => "KeptFaster"@,
        GatewayOptimizationDecision::NotEnoughLatencyImprovement => "NotEnoughLatencyImprovement"@,
        GatewayOptimizationDecision::CandidateTooUnstable => "CandidateTooUnstable"@,
    }
}

/// Minimum latency drop required: the larger of 10 ms and 5% of the baseline median
/// (rounded half up).
pub open spec fn required_improvement(baseline_median: u64) -> int {
    let five_percent = (baseline_median + 10) / 20;
    if five_percent > 10 {
        five_percent
    } else {
        10
    }
}

/// Maximum tolerated candidate jitter: the larger of baseline + 10 ms and twice the
/// baseline.
pub open spec fn max_allowable_jitter(baseline_jitter: u64) -> int {
    if baseline_jitter * 2 > baseline_jitter + 10 {
        baseline_jitter * 2
    } else {
        baseline_jitter + 10
    }
}

/// The decision for measured baseline and candidate figures.
pub open spec fn gateway_decision(
    baseline_median: u64,
    baseline_jitter: u64,
    candidate_median: u64,
    candidate_jitter: u64,
) -> GatewayOptimizationDecision {
    if candidate_median + required_improvement(baseline_median) > baseline_median {
        GatewayOptimizationDecision::NotEnoughLatencyImprovement
    } else if candidate_jitter > max_allowable_jitter(baseline_jitter) {
        GatewayOptimizationDecision::CandidateTooUnstable
    } else {
        GatewayOptimizationDecision::KeptFaster
    }
}

/// Evaluates a candidate gateway against the baseline with an anti-noise latency threshold
/// and a stability threshold. Returns the decision, the required improvement, the measured
/// latency drop (baseline - candidate) and the maximum tolerated jitter.
pub fn evaluate_gateway_optimization(
    baseline_median_ms: u64,
    baseline_jitter_ms: u64,
    candidate_median_ms: u64,
    candidate_jitter_ms: u64,
) -> (r: (GatewayOptimizationDecision, u64, i64, u64))
    requires
        baseline_median_ms <= i64::MAX,
        candidate_median_ms <= i64::MAX,
        baseline_jitter_ms <= u64::MAX / 2,
    ensures
        r.0 == gateway_decision(
            baseline_median_ms,
            baseline_jitter_ms,
            candidate_median_ms,
            candidate_jitter_ms,
        ),
        r.1 == required_improvement(baseline_median_ms),
        r.2 == baseline_median_ms - candidate_median_ms,
        r.3 == max_allowable_jitter(baseline_jitter_ms),
{
    let five_percent: u64 = baseline_median_ms / 20 + if baseline_median_ms % 20 >= 10 {
        1u64
    } else {
        0u64
    };
    assert(five_percent == (baseline_median_ms + 10) / 20);
    let required_improvement_ms: u64 = if five_percent > 10 {
        five_percent
    } else {
        10
    };
    let latency_delta_ms: i64 = (baseline_median_ms as i64) - (candidate_median_ms as i64);
    let is_latency_sufficient = candidate_median_ms <= baseline_median_ms && baseline_median_ms
        - candidate_median_ms >= required_improvement_ms;
    let doubled = baseline_jitter_ms * 2;
    let max_allowable_jitter_ms: u64 = if doubled > baseline_jitter_ms + 10 {
        doubled
    } else {
        baseline_jitter_ms + 10
    };
    let is_jitter_acceptable = candidate_jitter_ms <= max_allowable_jitter_ms;
    let decision = if !is_latency_sufficient {
        GatewayOptimizationDecision::NotEnoughLatencyImprovement
    } else if !is_jitter_acceptable {
        GatewayOptimizationDecision::CandidateTooUnstable
    } else {
        GatewayOptimizationDecision::KeptFaster
    };
    (decision, required_improvement_ms, latency_delta_ms, max_allowable_jitter_ms)
}

/// A candidate is kept only when it is faster than the baseline by at least 10 ms and by at
/// least 5% of the baseline, and its jitter is within both baseline + 10 ms and twice the
/// baseline jitter whichever is larger; a candidate that is not faster is never kept.
pub proof fn law_kept_gateway_is_faster_and_stable(
    baseline_median: u64,
    baseline_jitter: u64,
    candidate_median: u64,
    candidate_jitter: u64,
)
    requires
        gateway_decision(baseline_median, baseline_jitter, candidate_median, candidate_jitter)
            == GatewayOptimizationDecision::KeptFaster,
    ensures
        candidate_median + 10 <= baseline_median,
        candidate_median + (baseline_median + 10) / 20 <= baseline_median,
        candidate_jitter <= baseline_jitter + 10 || candidate_jitter <= baseline_jitter * 2,
        candidate_median < baseline_median,
{
}

// ---------------------------------------------------------------------------
// Pre-launch TUN conflict
// ---------------------------------------------------------------------------

/// The message of a pre-existing TUN adapter.
pub open spec fn tun_conflict_message(interface_name: Seq<char>, matched: Option<Seq<char>>) -> Seq<
    char,
> {
    "An existing '"@ + interface_name + "' interface is already active in the network stack"@
        + match matched {
        Some(d) => " (adapter: "@ + d + ")"@,
        None => Seq::empty(),
    }
        + ". Another Aether Desktop or sing-box instance may still be running. Close the other instance and retry."@
}

/// Refuses to launch a new TUN router over a pre-existing adapter of the same name or
/// address; a router already managed by the application is no conflict.
pub fn evaluate_prelaunch_tun_conflict(
    is_singbox_already_running: bool,
    tun_preexists: bool,
    interface_name: &str,
    _tun_address: &str,
    matched_adapter_desc: Option<&str>,
) -> (r: Result<(), String>)
    ensures
        r is Ok <==> (is_singbox_already_running || !tun_preexists),
        r matches Err(m) ==> m@ == tun_conflict_message(
            interface_name@,
            match matched_adapter_desc {
                Some(d) => Some(d@),
                None => None,
            },
        ),
{
    if is_singbox_already_running {
        return Ok(());
    }
    if tun_preexists {
        let mut m = str_to_string("An existing '");
        m.append(interface_name);
        m.append("' interface is already active in the network stack");
        match matched_adapter_desc {
            Some(d) => {
                m.append(" (adapter: ");
                m.append(d);
                m.append(")");
            },
            None => {},
        }
        m.append(
            ". Another Aether Desktop or sing-box instance may still be running. Close the other instance and retry.",
        );
        return Err(m);
    }
    Ok(())
}

// ---------------------------------------------------------------------------
// Lifecycle record and entry gates
// ---------------------------------------------------------------------------

/// Result of a gateway optimization.
#[derive(Debug, Clone)]
pub struct RouteOptimizationResult {
    pub success: bool,
    pub previous_latency_ms: Option<u64>,
    pub previous_jitter_ms: Option<u64>,
    pub previous_pop: Option<String>,
    pub previous_ip: Option<String>,
    pub new_latency_ms: Option<u64>,
    pub new_jitter_ms: Option<u64>,
    pub new_pop: Option<String>,
    pub new_ip: Option<String>,
    pub latency_delta_ms: Option<i64>,
    pub decision: String,
    pub message: String,
}

/// Shared lifecycle record of the orchestrator.
#[derive(Debug, Clone)]
pub struct Lifecycle {
    pub state: ConnectionState,
    pub aether_managed: bool,
    pub active_aether_ip: Option<String>,
    pub last_error: Option<String>,
}

/// The message of a refused concurrent operation.
pub open spec fn busy_message() -> Seq<char> {
    "Connection operation already in progress"@
}

/// Text of the error of a result, if it failed.
pub open spec fn err_text<T>(r: Result<T, String>) -> Option<Seq<char>> {
    match r {
        Ok(_) => None,
        Err(m) => Some(m@),
    }
}

/// Text of a refusal, if the request was refused.
pub open spec fn refusal_text(e: OptimizeEntry) -> Option<Seq<char>> {
    match e {
        OptimizeEntry::Refused(m) => Some(m@),
        _ => None,
    }
}

/// Gate of a connect request: a new attempt first clears any earlier cancellation; then the
/// operation lock must be free and the connection must be disconnected or failed, and the
/// state moves to `StartingAether` at once.
pub fn connect_entry(op_lock_free: bool, state: ConnectionState, cancel_requested: &mut bool) -> (r:
    Result<ConnectionState, String>)
    ensures
        !*final(cancel_requested),
        !op_lock_free ==> err_text(r) == Some(busy_message()),
        op_lock_free && (state == ConnectionState::Disconnected || state == ConnectionState::Error)
            ==> r == Ok::<ConnectionState, String>(ConnectionState::StartingAether),
        op_lock_free && !(state == ConnectionState::Disconnected || state
            == ConnectionState::Error) ==> err_text(r)
            == Some("Connection already in progress or connected"@),
{
    *cancel_requested = false;
    if !op_lock_free {
        return Err(str_to_string("Connection operation already in progress"));
    }
    match state {
        ConnectionState::Disconnected | ConnectionState::Error => Ok(ConnectionState::StartingAether),
        _ => Err(str_to_string("Connection already in progress or connected")),
    }
}

/// Which gateway optimization flow a request starts.
#[derive(Debug, Clone)]
pub enum OptimizeEntry {
    /// Refused; nothing is disturbed.
    Refused(String),
    /// Connected through a managed Aether: measure, rescan, compare, keep or roll back.
    ConnectedFlow,
    /// Disconnected or failed: probe the port, then connect through a fresh scan.
    InitialScanFlow,
}

/// Gate of a gateway optimization request.
pub fn optimize_entry(op_lock_free: bool, state: ConnectionState, aether_managed: bool) -> (r:
    OptimizeEntry)
    ensures
        !op_lock_free ==> refusal_text(r) == Some(busy_message()),
        op_lock_free && state == ConnectionState::Connected && !aether_managed
            ==> refusal_text(r) == Some(external_aether_message()),
        op_lock_free && state == ConnectionState::Connected && aether_managed ==> r
            is ConnectedFlow,
        op_lock_free && (state == ConnectionState::Disconnected || state == ConnectionState::Error)
            ==> r is InitialScanFlow,
        op_lock_free && !(state == ConnectionState::Connected || state
            == ConnectionState::Disconnected || state == ConnectionState::Error) ==> refusal_text(r)
            == Some(busy_message()),
{
    if !op_lock_free {
        return OptimizeEntry::Refused(str_to_string("Connection operation already in progress"));
    }
    match state {
        ConnectionState::Connected => {
            if !aether_managed {
                OptimizeEntry::Refused(
                    str_to_string(
                        "Gateway optimization requires an Aether instance managed by Aether Desktop. Close the external Aether instance and reconnect through Aether Desktop first.",
                    ),
                )
            } else {
                OptimizeEntry::ConnectedFlow
            }
        },
        ConnectionState::Disconnected | ConnectionState::Error => OptimizeEntry::InitialScanFlow,
        _ => OptimizeEntry::Refused(str_to_string("Connection operation already in progress")),
    }
}

/// The refusal of an optimization over an external Aether.
pub open spec fn external_aether_message() -> Seq<char> {
    "Gateway optimization requires an Aether instance managed by Aether Desktop. Close the external Aether instance and reconnect through Aether Desktop first."@
}

/// The refusal of an initial fresh scan while an external listener holds the port.
pub open spec fn external_listener_message() -> Seq<char> {
    "Gateway optimization requires an Aether instance managed by Aether Desktop. Port 1819 is in use by an external process. Close the external instance and try again."@
}

/// The refusal of an initial fresh scan while an external listener holds the port.
pub fn external_listener_refusal() -> (r: String)
    ensures
        r@ == external_listener_message(),
{
    str_to_string(
        "Gateway optimization requires an Aether instance managed by Aether Desktop. Port 1819 is in use by an external process. Close the external instance and try again.",
    )
}

/// Cancels the connection: every component is torn down and the state is `Disconnected`.
pub fn cancel_connection(lc: &mut Lifecycle, cancel_requested: &mut bool)
    ensures
        *final(cancel_requested),
        final(lc).state == ConnectionState::Disconnected,
        final(lc).active_aether_ip is None,
        final(lc).aether_managed == old(lc).aether_managed,
        final(lc).last_error == old(lc).last_error,
{
    *cancel_requested = true;
    force_shutdown(lc);
}

/// Unconditional teardown bookkeeping: no active Aether address and `Disconnected`.
pub fn force_shutdown(lc: &mut Lifecycle)
    ensures
        final(lc).state == ConnectionState::Disconnected,
        final(lc).active_aether_ip is None,
        final(lc).aether_managed == old(lc).aether_managed,
        final(lc).last_error == old(lc).last_error,
{
    lc.active_aether_ip = None;
    lc.state = ConnectionState::Disconnected;
}

/// Start of a disconnect: the state becomes `Disconnecting`; the teardown that follows ends
/// as `force_shutdown` does.
pub fn begin_disconnect(lc: &mut Lifecycle)
    ensures
        final(lc).state == ConnectionState::Disconnecting,
        final(lc).active_aether_ip == old(lc).active_aether_ip,
        final(lc).aether_managed == old(lc).aether_managed,
        final(lc).last_error == old(lc).last_error,
{
    lc.state = ConnectionState::Disconnecting;
}

/// Whether new settings must be applied to the running router: only while connected.
pub fn live_apply_required(state: ConnectionState) -> (r: bool)
    ensures
        r == (state == ConnectionState::Connected),
{
    match state {
        ConnectionState::Connected => true,
        _ => false,
    }
}

/// Records a failure: the message becomes the last error and the state `Error`.
pub fn set_error(lc: &mut Lifecycle, msg: &str)
    ensures
        final(lc).state == ConnectionState::Error,
        opt_text(final(lc).last_error) == Some(msg@),
        final(lc).active_aether_ip == old(lc).active_aether_ip,
        final(lc).aether_managed == old(lc).aether_managed,
{
    lc.last_error = Some(str_to_string(msg));
    lc.state = ConnectionState::Error;
}

/// The text of an optional string.
pub open spec fn opt_text(o: Option<String>) -> Option<Seq<char>> {
    match o {
        Some(s) => Some(s@),
        None => None,
    }
}

// ---------------------------------------------------------------------------
// Connect sequence
// ---------------------------------------------------------------------------

/// Fixed facts of one connect attempt.
#[derive(Debug, Clone)]
pub struct ConnectContext {
    pub attempt_id: u64,
    pub host: String,
    pub port: u16,
    pub scan_mode: AetherScanMode,
    pub options: AetherLaunchOptions,
    pub interface_name: String,
    pub tun_address: String,
}

/// Where the connect sequence stands.
#[derive(Debug, Clone, Copy, PartialEq, Eq, Structural)]
pub enum ConnectStage {
    /// Probing whether the SOCKS port is already open.
    AwaitPortProbe,
    /// Looking up the owner of the open port.
    AwaitOwner,
    /// Probing the existing listener; `pid` is its owner when known.
    AwaitExistingTrace { owner_known: bool, pid: u32 },
    /// A stale listener is being terminated.
    AwaitStaleCleanup,
    /// A managed Aether is being launched.
    AwaitSpawn,
    /// Waiting for the managed Aether's SOCKS proxy.
    AwaitAetherReady,
    /// Checking administrator rights.
    AwaitElevation,
    /// Checking for a pre-existing TUN adapter.
    AwaitTunCheck,
    /// Launching the sing-box router.
    AwaitRouter,
    /// Verifying routing and egress.
    AwaitVerification,
    /// Finished.
    Done,
}

/// What one poll of the managed Aether observed.
#[derive(Debug, Clone)]
pub enum AetherObservation {
    /// The startup deadline has passed without a ready proxy.
    DeadlinePassed,
    /// The user cancelled.
    Cancelled,
    /// Aether asked an interactive question.
    InteractivePrompt,
    /// The Aether process is gone.
    Exited,
    /// Not ready yet.
    NotReady,
    /// The SOCKS proxy answered a trace; its egress address.
    Ready(String),
}

/// The observation handed back after a command.
#[derive(Debug)]
pub enum ConnectEvent {
    /// Starts the sequence.
    Begin,
    /// The SOCKS port is open.
    PortProbed(bool),
    /// Owner of the open port (PID and process name), when it could be determined.
    OwnerFound(Option<(u32, String)>),
    /// Trace through the existing listener: its egress address, or the failure.
    ExistingTrace(Result<String, String>),
    /// The stale listener was handled.
    StaleCleaned,
    /// Launch of the managed Aether.
    Spawned(Result<(), String>),
    /// One poll of the managed Aether.
    AetherPolled(AetherObservation),
    /// The process runs elevated.
    Elevation(bool),
    /// TUN check: router already running, adapter pre-exists, adapter description, and
    /// whether cancellation was requested.
    TunChecked { singbox_running: bool, tun_preexists: bool, matched: Option<String>, cancelled: bool },
    /// Router launch result and whether cancellation was requested afterwards.
    RouterStarted { result: Result<(), String>, cancelled: bool },
    /// Verification result and whether cancellation was requested.
    Verified { result: Result<(), String>, cancelled: bool },
}

/// The end of the sequence: teardown to perform and the result.
#[derive(Debug)]
pub struct ConnectOutcome {
    pub stop_aether: bool,
    pub stop_singbox: bool,
    pub force_shutdown: bool,
    pub result: Result<(), String>,
}

/// The next command for the caller.
#[derive(Debug)]
pub enum ConnectCommand {
    ProbePort,
    LookupPortOwner,
    QueryExistingTrace,
    KillStaleAether(u32),
    KillPortOwnerIfAether,
    SpawnAether(AetherLaunchOptions),
    PollAether { deadline_secs: u64 },
    CheckElevation,
    CheckTun,
    StartRouter,
    VerifyRouting,
    Finish(ConnectOutcome),
}

/// The message of a cancelled attempt.
pub open spec fn cancelled_message() -> Seq<char> {
    "Connection cancelled by user"@
}

/// `[Attempt #id] ` prefix.
pub open spec fn attempt_prefix(id: u64) -> Seq<char> {
    "[Attempt #"@ + decimal(id as nat) + "] "@
}

/// Debug name of a scan mode.
pub open spec fn scan_mode_name(m: AetherScanMode) -> Seq<char> {
    match m {
        AetherScanMode::Turbo => "Turbo"@,
        AetherScanMode::Balanced => "Balanced"@,
        AetherScanMode::Thorough => "Thorough"@,
        AetherScanMode::Stealth => "Stealth"@,
        AetherScanMode::Ironclad => "Ironclad"@,
    }
}

/// Startup deadline of an attempt: the bounded restore window under forced Quick Reconnect,
/// else the budget of the effective scan mode.
pub open spec fn attempt_deadline(ctx: ConnectContext) -> u64 {
    if ctx.options.quick_reconnect == QuickReconnectOption::ForceEnabled {
        AETHER_RESTORE_TIMEOUT_SECS
    } else {
        startup_timeout_secs(attempt_scan_mode(ctx))
    }
}

/// Effective scan mode of an attempt.
pub open spec fn attempt_scan_mode(ctx: ConnectContext) -> AetherScanMode {
    match ctx.options.scan_mode_override {
        Some(m) => m,
        None => ctx.scan_mode,
    }
}

/// A terminal command.
pub open spec fn finish(stop_aether: bool, stop_singbox: bool, force: bool, result: Result<(), Seq<char>>) -> ConnectCommandView {
    ConnectCommandView::Finish { stop_aether, stop_singbox, force_shutdown: force, result }
}

/// Model of a command.
pub enum ConnectCommandView {
    ProbePort,
    LookupPortOwner,
    QueryExistingTrace,
    KillStaleAether(u32),
    KillPortOwnerIfAether,
    SpawnAether(AetherLaunchOptions),
    PollAether { deadline_secs: u64 },
    CheckElevation,
    CheckTun,
    StartRouter,
    VerifyRouting,
    Finish { stop_aether: bool, stop_singbox: bool, force_shutdown: bool, result: Result<(), Seq<char>> },
}

/// Model of a lifecycle record.
pub struct LifecycleView {
    pub state: ConnectionState,
    pub aether_managed: bool,
    pub active_aether_ip: Option<Seq<char>>,
    pub last_error: Option<Seq<char>>,
}

impl View for Lifecycle {
    type V = LifecycleView;

    open spec fn view(&self) -> LifecycleView {
        LifecycleView {
            state: self.state,
            aether_managed: self.aether_managed,
            active_aether_ip: opt_text(self.active_aether_ip),
            last_error: opt_text(self.last_error),
        }
    }
}

impl View for ConnectCommand {
    type V = ConnectCommandView;

    open spec fn view(&self) -> ConnectCommandView {
        match self {
            ConnectCommand::ProbePort => ConnectCommandView::ProbePort,
            ConnectCommand::LookupPortOwner => ConnectCommandView::LookupPortOwner,
            ConnectCommand::QueryExistingTrace => ConnectCommandView::QueryExistingTrace,
            ConnectCommand::KillStaleAether(p) => ConnectCommandView::KillStaleAether(*p),
            ConnectCommand::KillPortOwnerIfAether => ConnectCommandView::KillPortOwnerIfAether,
            ConnectCommand::SpawnAether(o) => ConnectCommandView::SpawnAether(*o),
            ConnectCommand::PollAether { deadline_secs } => ConnectCommandView::PollAether {
                deadline_secs: *deadline_secs,
            },
            ConnectCommand::CheckElevation => ConnectCommandView::CheckElevation,
            ConnectCommand::CheckTun => ConnectCommandView::CheckTun,
            ConnectCommand::StartRouter => ConnectCommandView::StartRouter,
            ConnectCommand::VerifyRouting => ConnectCommandView::VerifyRouting,
            ConnectCommand::Finish(o) => ConnectCommandView::Finish {
                stop_aether: o.stop_aether,
                stop_singbox: o.stop_singbox,
                force_shutdown: o.force_shutdown,
                result: match o.result {
                    Ok(()) => Ok(()),
                    Err(m) => Err(m@),
                },
            },
        }
    }
}

/// Model of an event.
pub enum ConnectEventView {
    Begin,
    PortProbed(bool),
    OwnerFound(Option<(u32, Seq<char>)>),
    ExistingTrace(Result<Seq<char>, Seq<char>>),
    StaleCleaned,
    Spawned(Result<(), Seq<char>>),
    AetherPolled(AetherObservationView),
    Elevation(bool),
    TunChecked { singbox_running: bool, tun_preexists: bool, matched: Option<Seq<char>>, cancelled: bool },
    RouterStarted { result: Result<(), Seq<char>>, cancelled: bool },
    Verified { result: Result<(), Seq<char>>, cancelled: bool },
}

/// Model of a poll observation.
pub enum AetherObservationView {
    DeadlinePassed,
    Cancelled,
    InteractivePrompt,
    Exited,
    NotReady,
    Ready(Seq<char>),
}

/// Model of a unit result.
pub open spec fn unit_result(r: Result<(), String>) -> Result<(), Seq<char>> {
    match r {
        Ok(()) => Ok(()),
        Err(m) => Err(m@),
    }
}

impl View for ConnectEvent {
    type V = ConnectEventView;

    open spec fn view(&self) -> ConnectEventView {
        match self {
            ConnectEvent::Begin => ConnectEventView::Begin,
            ConnectEvent::PortProbed(b) => ConnectEventView::PortProbed(*b),
            ConnectEvent::OwnerFound(o) => ConnectEventView::OwnerFound(
                match o {
                    Some((pid, name)) => Some((*pid, name@)),
                    None => None,
                },
            ),
            ConnectEvent::ExistingTrace(r) => ConnectEventView::ExistingTrace(
                match r {
                    Ok(ip) => Ok(ip@),
                    Err(e) => Err(e@),
                },
            ),
            ConnectEvent::StaleCleaned => ConnectEventView::StaleCleaned,
            ConnectEvent::Spawned(r) => ConnectEventView::Spawned(unit_result(*r)),
            ConnectEvent::AetherPolled(o) => ConnectEventView::AetherPolled(
                match o {
                    AetherObservation::DeadlinePassed => AetherObservationView::DeadlinePassed,
                    AetherObservation::Cancelled => AetherObservationView::Cancelled,
                    AetherObservation::InteractivePrompt => AetherObservationView::InteractivePrompt,
                    AetherObservation::Exited => AetherObservationView::Exited,
                    AetherObservation::NotReady => AetherObservationView::NotReady,
                    AetherObservation::Ready(ip) => AetherObservationView::Ready(ip@),
                },
            ),
            ConnectEvent::Elevation(b) => ConnectEventView::Elevation(*b),
            ConnectEvent::TunChecked { singbox_running, tun_preexists, matched, cancelled } =>
                ConnectEventView::TunChecked {
                singbox_running: *singbox_running,
                tun_preexists: *tun_preexists,
                matched: opt_text(*matched),
                cancelled: *cancelled,
            },
            ConnectEvent::RouterStarted { result, cancelled } => ConnectEventView::RouterStarted {
                result: unit_result(*result),
                cancelled: *cancelled,
            },
            ConnectEvent::Verified { result, cancelled } => ConnectEventView::Verified {
                result: unit_result(*result),
                cancelled: *cancelled,
            },
        }
    }
}

/// The lifecycle record after `set_error(msg)`.
pub open spec fn with_error(lc: LifecycleView, msg: Seq<char>) -> LifecycleView {
    LifecycleView { state: ConnectionState::Error, last_error: Some(msg), ..lc }
}

/// The lifecycle record after a forced shutdown.
pub open spec fn shut_down(lc: LifecycleView) -> LifecycleView {
    LifecycleView { state: ConnectionState::Disconnected, active_aether_ip: None, ..lc }
}

/// The lifecycle record with another state.
pub open spec fn with_state(lc: LifecycleView, s: ConnectionState) -> LifecycleView {
    LifecycleView { state: s, ..lc }
}

/// The cancelled end of an attempt.
pub open spec fn cancelled_end(lc: LifecycleView, stop_singbox: bool) -> (
    LifecycleView,
    ConnectStage,
    ConnectCommandView,
) {
    (shut_down(lc), ConnectStage::Done, finish(false, stop_singbox, true, Err(cancelled_message())))
}

/// Message of a port held by a non-Aether process.
pub open spec fn port_conflict_message(ctx: ConnectContext, pid: u32, name: Seq<char>) -> Seq<char> {
    attempt_prefix(ctx.attempt_id) + "Port "@ + ctx.host@ + ":"@ + decimal(ctx.port as nat)
        + " is in use by another process ('"@ + name + "', PID: "@ + decimal(pid as nat)
        + "), which is not Aether. Resolve port conflict."@
}

/// Message of an Aether that did not get ready in time.
pub open spec fn deadline_message(ctx: ConnectContext) -> Seq<char> {
    attempt_prefix(ctx.attempt_id) + "Aether started, but local proxy on "@ + ctx.host@ + ":"@
        + decimal(ctx.port as nat) + " did not become ready within "@ + decimal(
        attempt_deadline(ctx) as nat,
    ) + "s deadline (Scan Mode: "@ + scan_mode_name(attempt_scan_mode(ctx))
        + "). View Diagnostics for details."@
}

/// One transition of the connect sequence: the new lifecycle record, the next stage and
/// the next command for the caller.
pub open spec fn connect_transition(
    ctx: ConnectContext,
    lc: LifecycleView,
    stage: ConnectStage,
    event: ConnectEventView,
) -> (LifecycleView, ConnectStage, ConnectCommandView) {
    let p = attempt_prefix(ctx.attempt_id);
    match (stage, event) {
        (_, ConnectEventView::Begin) => (
            LifecycleView { last_error: None, active_aether_ip: None, ..lc },
            ConnectStage::AwaitPortProbe,
            ConnectCommandView::ProbePort,
        ),
        (ConnectStage::AwaitPortProbe, ConnectEventView::PortProbed(open)) => if open {
            (lc, ConnectStage::AwaitOwner, ConnectCommandView::LookupPortOwner)
        } else {
            (lc, ConnectStage::AwaitSpawn, ConnectCommandView::SpawnAether(ctx.options))
        },
        (ConnectStage::AwaitOwner, ConnectEventView::OwnerFound(owner)) => match owner {
            Some((pid, name)) => if !starts_with(unicode_lowercase(name), "aether"@) {
                let m = port_conflict_message(ctx, pid, name);
                (with_error(lc, m), ConnectStage::Done, finish(false, false, false, Err(m)))
            } else {
                (
                    lc,
                    ConnectStage::AwaitExistingTrace { owner_known: true, pid },
                    ConnectCommandView::QueryExistingTrace,
                )
            },
            None => (
                lc,
                ConnectStage::AwaitExistingTrace { owner_known: false, pid: 0 },
                ConnectCommandView::QueryExistingTrace,
            ),
        },
        (ConnectStage::AwaitExistingTrace { owner_known, pid }, ConnectEventView::ExistingTrace(t)) =>
            match t {
            Ok(ip) => (
                LifecycleView { active_aether_ip: Some(ip), aether_managed: false, ..lc },
                ConnectStage::AwaitElevation,
                ConnectCommandView::CheckElevation,
            ),
            Err(_) => if owner_known {
                (lc, ConnectStage::AwaitStaleCleanup, ConnectCommandView::KillStaleAether(pid))
            } else {
                (lc, ConnectStage::AwaitStaleCleanup, ConnectCommandView::KillPortOwnerIfAether)
            },
        },
        (ConnectStage::AwaitStaleCleanup, ConnectEventView::StaleCleaned) => (
            lc,
            ConnectStage::AwaitElevation,
            ConnectCommandView::CheckElevation,
        ),
        (ConnectStage::AwaitSpawn, ConnectEventView::Spawned(r)) => match r {
            Err(e) => {
                let m = p + "Failed to start Aether: "@ + e;
                (with_error(lc, m), ConnectStage::Done, finish(false, false, false, Err(e)))
            },
            Ok(()) => (
                LifecycleView { aether_managed: true, state: ConnectionState::ScanningAether, ..lc },
                ConnectStage::AwaitAetherReady,
                ConnectCommandView::PollAether { deadline_secs: attempt_deadline(ctx) },
            ),
        },
        (ConnectStage::AwaitAetherReady, ConnectEventView::AetherPolled(o)) => match o {
            AetherObservationView::Cancelled => cancelled_end(lc, false),
            AetherObservationView::InteractivePrompt => {
                let m = p
                    + "Aether entered interactive mode. Managed launch arguments were incomplete."@;
                (with_error(lc, m), ConnectStage::Done, finish(true, false, false, Err(m)))
            },
            AetherObservationView::Exited => {
                let m = p
                    + "Aether process stopped unexpectedly. View Diagnostics for details."@;
                (with_error(lc, m), ConnectStage::Done, finish(true, false, false, Err(m)))
            },
            AetherObservationView::DeadlinePassed => {
                let m = deadline_message(ctx);
                (with_error(lc, m), ConnectStage::Done, finish(true, false, false, Err(m)))
            },
            AetherObservationView::NotReady => (
                lc,
                ConnectStage::AwaitAetherReady,
                ConnectCommandView::PollAether { deadline_secs: attempt_deadline(ctx) },
            ),
            AetherObservationView::Ready(ip) => (
                LifecycleView { active_aether_ip: Some(ip), ..lc },
                ConnectStage::AwaitElevation,
                ConnectCommandView::CheckElevation,
            ),
        },
        (ConnectStage::AwaitElevation, ConnectEventView::Elevation(elevated)) => if elevated {
            (lc, ConnectStage::AwaitTunCheck, ConnectCommandView::CheckTun)
        } else {
            let m = p
                + "Administrator privileges are required to create the Windows TUN adapter."@;
            (with_error(lc, m), ConnectStage::Done, finish(lc.aether_managed, false, false, Err(m)))
        },
        (
            ConnectStage::AwaitTunCheck,
            ConnectEventView::TunChecked { singbox_running, tun_preexists, matched, cancelled },
        ) => if !singbox_running && tun_preexists {
            let m = tun_conflict_message(ctx.interface_name@, matched);
            (
                with_error(lc, p + m),
                ConnectStage::Done,
                finish(lc.aether_managed, false, false, Err(m)),
            )
        } else if cancelled {
            cancelled_end(lc, false)
        } else {
            (
                with_state(lc, ConnectionState::StartingRouter),
                ConnectStage::AwaitRouter,
                ConnectCommandView::StartRouter,
            )
        },
        (ConnectStage::AwaitRouter, ConnectEventView::RouterStarted { result, cancelled }) =>
            match result {
            Err(e) => if cancelled {
                cancelled_end(lc, false)
            } else {
                let m = p + "Failed to start sing-box TUN router: "@ + e;
                (with_error(lc, m), ConnectStage::Done, finish(lc.aether_managed, false, false, Err(e)))
            },
            Ok(()) => if cancelled {
                cancelled_end(lc, false)
            } else {
                (
                    with_state(lc, ConnectionState::TestingRouting),
                    ConnectStage::AwaitVerification,
                    ConnectCommandView::VerifyRouting,
                )
            },
        },
        (ConnectStage::AwaitVerification, ConnectEventView::Verified { result, cancelled }) =>
            match result {
            Err(v) => if cancelled {
                cancelled_end(lc, true)
            } else {
                let m = p + "Routing verification failed: "@ + v
                    + ". Stopping connection attempt."@;
                (with_error(lc, m), ConnectStage::Done, finish(lc.aether_managed, true, false, Err(m)))
            },
            Ok(()) => (
                with_state(lc, ConnectionState::Connected),
                ConnectStage::Done,
                finish(false, false, false, Ok(())),
            ),
        },
        _ => (lc, stage, ConnectCommandView::Finish {
            stop_aether: false,
            stop_singbox: false,
            force_shutdown: false,
            result: Err("Unexpected event for the current connection stage"@),
        }),
    }
}

// ---------------------------------------------------------------------------
// Connect sequence: executable step
// ---------------------------------------------------------------------------

fn attempt_prefix_exec(id: u64) -> (r: String)
    ensures
        r@ == attempt_prefix(id),
{
    let mut s = str_to_string("[Attempt #");
    let d = decimal_string(id);
    s.append(d.as_str());
    s.append("] ");
    s
}

fn scan_mode_str(m: AetherScanMode) -> (r: &'static str)
    ensures
        r@ == scan_mode_name(m),
{
    match m {
        AetherScanMode::Turbo => "Turbo",
        AetherScanMode::Balanced => "Balanced",
        AetherScanMode::Thorough => "Thorough",
        AetherScanMode::Stealth => "Stealth",
        AetherScanMode::Ironclad => "Ironclad",
    }
}

/// Effective scan mode of an attempt.
pub fn attempt_scan_mode_exec(ctx: &ConnectContext) -> (r: AetherScanMode)
    ensures
        r == attempt_scan_mode(*ctx),
{
    match ctx.options.scan_mode_override {
        Some(m) => m,
        None => ctx.scan_mode,
    }
}

/// Startup deadline of an attempt in seconds.
pub fn attempt_deadline_exec(ctx: &ConnectContext) -> (r: u64)
    ensures
        r == attempt_deadline(*ctx),
{
    if ctx.options.quick_reconnect == QuickReconnectOption::ForceEnabled {
        AETHER_RESTORE_TIMEOUT_SECS
    } else {
        let m = attempt_scan_mode_exec(ctx);
        aether_startup_timeout_secs(&m)
    }
}

fn port_conflict_exec(ctx: &ConnectContext, pid: u32, name: &str) -> (r: String)
    ensures
        r@ == port_conflict_message(*ctx, pid, name@),
{
    let mut s = attempt_prefix_exec(ctx.attempt_id);
    s.append("Port ");
    s.append(ctx.host.as_str());
    s.append(":");
    let port = decimal_string(ctx.port as u64);
    s.append(port.as_str());
    s.append(" is in use by another process ('");
    s.append(name);
    s.append("', PID: ");
    let pid_text = decimal_string(pid as u64);
    s.append(pid_text.as_str());
    s.append("), which is not Aether. Resolve port conflict.");
    s
}

fn deadline_exec(ctx: &ConnectContext) -> (r: String)
    ensures
        r@ == deadline_message(*ctx),
{
    let mut s = attempt_prefix_exec(ctx.attempt_id);
    s.append("Aether started, but local proxy on ");
    s.append(ctx.host.as_str());
    s.append(":");
    let port = decimal_string(ctx.port as u64);
    s.append(port.as_str());
    s.append(" did not become ready within ");
    let secs = decimal_string(attempt_deadline_exec(ctx));
    s.append(secs.as_str());
    s.append("s deadline (Scan Mode: ");
    s.append(scan_mode_str(attempt_scan_mode_exec(ctx)));
    s.append("). View Diagnostics for details.");
    s
}

fn prefixed1(ctx: &ConnectContext, a: &str) -> (r: String)
    ensures
        r@ == attempt_prefix(ctx.attempt_id) + a@,
{
    let mut s = attempt_prefix_exec(ctx.attempt_id);
    s.append(a);
    s
}

fn prefixed2(ctx: &ConnectContext, a: &str, b: &str) -> (r: String)
    ensures
        r@ == attempt_prefix(ctx.attempt_id) + a@ + b@,
{
    let mut s = attempt_prefix_exec(ctx.attempt_id);
    s.append(a);
    s.append(b);
    s
}

fn prefixed3(ctx: &ConnectContext, a: &str, b: &str, c: &str) -> (r: String)
    ensures
        r@ == attempt_prefix(ctx.attempt_id) + a@ + b@ + c@,
{
    let mut s = attempt_prefix_exec(ctx.attempt_id);
    s.append(a);
    s.append(b);
    s.append(c);
    s
}

fn finish_exec(stop_aether: bool, stop_singbox: bool, force: bool, result: Result<(), String>) -> (r:
    ConnectCommand)
    ensures
        r@ == finish(stop_aether, stop_singbox, force, unit_result(result)),
{
    ConnectCommand::Finish(
        ConnectOutcome { stop_aether, stop_singbox, force_shutdown: force, result },
    )
}

fn cancelled_exec(lc: &mut Lifecycle, stop_singbox: bool) -> (r: (ConnectStage, ConnectCommand))
    ensures
        (final(lc)@, r.0, r.1@) == cancelled_end(old(lc)@, stop_singbox),
{
    force_shutdown(lc);
    let r = (
        ConnectStage::Done,
        finish_exec(false, stop_singbox, true, Err(str_to_string("Connection cancelled by user"))),
    );
    r
}

fn fail_exec(
    lc: &mut Lifecycle,
    recorded: String,
    stop_aether: bool,
    stop_singbox: bool,
    returned: String,
) -> (r: (ConnectStage, ConnectCommand))
    ensures
        final(lc)@ == with_error(old(lc)@, recorded@),
        r.0 == ConnectStage::Done,
        r.1@ == finish(stop_aether, stop_singbox, false, Err(returned@)),
{
    set_error(lc, recorded.as_str());
    (ConnectStage::Done, finish_exec(stop_aether, stop_singbox, false, Err(returned)))
}

/// One step of the connect sequence: applies the event observed after the previous command
/// to the lifecycle record and returns the next stage and the next command.
///
/// The caller starts with `ConnectEvent::Begin`, performs each command and hands back what
/// it observed, until a `Finish` command ends the attempt.
#[verifier::rlimit(60)]
#[verifier::spinoff_prover]
pub fn connect_step(
    ctx: &ConnectContext,
    lc: &mut Lifecycle,
    stage: ConnectStage,
    event: ConnectEvent,
) -> (r: (ConnectStage, ConnectCommand))
    ensures
        (final(lc)@, r.0, r.1@) == connect_transition(*ctx, old(lc)@, stage, event@),
{
    match event {
        ConnectEvent::Begin => {
            lc.last_error = None;
            lc.active_aether_ip = None;
            return (ConnectStage::AwaitPortProbe, ConnectCommand::ProbePort);
        },
        _ => {},
    }
    match (stage, event) {
        (ConnectStage::AwaitPortProbe, ConnectEvent::PortProbed(open)) => {
            if open {
                (ConnectStage::AwaitOwner, ConnectCommand::LookupPortOwner)
            } else {
                (ConnectStage::AwaitSpawn, ConnectCommand::SpawnAether(ctx.options))
            }
        },
        (ConnectStage::AwaitOwner, ConnectEvent::OwnerFound(owner)) => match owner {
            Some((pid, name)) => {
                let lower = to_lowercase(name.as_str());
                let lower_chars = chars_of(lower.as_str());
                let prefix_chars = chars_of("aether");
                if !starts_with_exec(lower_chars.as_slice(), prefix_chars.as_slice()) {
                    let m = port_conflict_exec(ctx, pid, name.as_str());
                    let m2 = m.clone();
                    fail_exec(lc, m, false, false, m2)
                } else {
                    (
                        ConnectStage::AwaitExistingTrace { owner_known: true, pid },
                        ConnectCommand::QueryExistingTrace,
                    )
                }
            },
            None => (
                ConnectStage::AwaitExistingTrace { owner_known: false, pid: 0 },
                ConnectCommand::QueryExistingTrace,
            ),
        },
        (ConnectStage::AwaitExistingTrace { owner_known, pid }, ConnectEvent::ExistingTrace(t)) =>
            match t {
            Ok(ip) => {
                lc.active_aether_ip = Some(ip);
                lc.aether_managed = false;
                (ConnectStage::AwaitElevation, ConnectCommand::CheckElevation)
            },
            Err(_) => if owner_known {
                (ConnectStage::AwaitStaleCleanup, ConnectCommand::KillStaleAether(pid))
            } else {
                (ConnectStage::AwaitStaleCleanup, ConnectCommand::KillPortOwnerIfAether)
            },
        },
        (ConnectStage::AwaitStaleCleanup, ConnectEvent::StaleCleaned) => (
            ConnectStage::AwaitElevation,
            ConnectCommand::CheckElevation,
        ),
        (ConnectStage::AwaitSpawn, ConnectEvent::Spawned(r)) => match r {
            Err(e) => {
                let m = prefixed2(ctx, "Failed to start Aether: ", e.as_str());
                fail_exec(lc, m, false, false, e)
            },
            Ok(()) => {
                lc.aether_managed = true;
                lc.state = ConnectionState::ScanningAether;
                (
                    ConnectStage::AwaitAetherReady,
                    ConnectCommand::PollAether { deadline_secs: attempt_deadline_exec(ctx) },
                )
            },
        },
        (ConnectStage::AwaitAetherReady, ConnectEvent::AetherPolled(o)) => match o {
            AetherObservation::Cancelled => cancelled_exec(lc, false),
            AetherObservation::InteractivePrompt => {
                let m = prefixed1(ctx, "Aether entered interactive mode. Managed launch arguments were incomplete.");
                let m2 = m.clone();
                fail_exec(lc, m, true, false, m2)
            },
            AetherObservation::Exited => {
                let m = prefixed1(ctx, "Aether process stopped unexpectedly. View Diagnostics for details.");
                let m2 = m.clone();
                fail_exec(lc, m, true, false, m2)
            },
            AetherObservation::DeadlinePassed => {
                let m = deadline_exec(ctx);
                let m2 = m.clone();
                fail_exec(lc, m, true, false, m2)
            },
            AetherObservation::NotReady => (
                ConnectStage::AwaitAetherReady,
                ConnectCommand::PollAether { deadline_secs: attempt_deadline_exec(ctx) },
            ),
            AetherObservation::Ready(ip) => {
                lc.active_aether_ip = Some(ip);
                (ConnectStage::AwaitElevation, ConnectCommand::CheckElevation)
            },
        },
        (ConnectStage::AwaitElevation, ConnectEvent::Elevation(elevated)) => {
            if elevated {
                (ConnectStage::AwaitTunCheck, ConnectCommand::CheckTun)
            } else {
                let m = prefixed1(ctx, "Administrator privileges are required to create the Windows TUN adapter.");
                let m2 = m.clone();
                let managed = lc.aether_managed;
                fail_exec(lc, m, managed, false, m2)
            }
        },
        (
            ConnectStage::AwaitTunCheck,
            ConnectEvent::TunChecked { singbox_running, tun_preexists, matched, cancelled },
        ) => {
            let desc: Option<&str> = match &matched {
                Some(d) => Some(d.as_str()),
                None => None,
            };
            match evaluate_prelaunch_tun_conflict(
                singbox_running,
                tun_preexists,
                ctx.interface_name.as_str(),
                ctx.tun_address.as_str(),
                desc,
            ) {
                Err(m) => {
                    let recorded = prefixed1(ctx, m.as_str());
                    let managed = lc.aether_managed;
                    fail_exec(lc, recorded, managed, false, m)
                },
                Ok(()) => {
                    if cancelled {
                        cancelled_exec(lc, false)
                    } else {
                        lc.state = ConnectionState::StartingRouter;
                        (ConnectStage::AwaitRouter, ConnectCommand::StartRouter)
                    }
                },
            }
        },
        (ConnectStage::AwaitRouter, ConnectEvent::RouterStarted { result, cancelled }) =>
            match result {
            Err(e) => if cancelled {
                cancelled_exec(lc, false)
            } else {
                let m = prefixed2(ctx, "Failed to start sing-box TUN router: ", e.as_str());
                let managed = lc.aether_managed;
                fail_exec(lc, m, managed, false, e)
            },
            Ok(()) => if cancelled {
                cancelled_exec(lc, false)
            } else {
                lc.state = ConnectionState::TestingRouting;
                (ConnectStage::AwaitVerification, ConnectCommand::VerifyRouting)
            },
        },
        (ConnectStage::AwaitVerification, ConnectEvent::Verified { result, cancelled }) =>
            match result {
            Err(v) => if cancelled {
                cancelled_exec(lc, true)
            } else {
                let m = prefixed3(
                    ctx,
                    "Routing verification failed: ",
                    v.as_str(),
                    ". Stopping connection attempt.",
                );
                let m2 = m.clone();
                let managed = lc.aether_managed;
                fail_exec(lc, m, managed, true, m2)
            },
            Ok(()) => {
                lc.state = ConnectionState::Connected;
                (ConnectStage::Done, finish_exec(false, false, false, Ok(())))
            },
        },
        _ => (
            stage,
            finish_exec(
                false,
                false,
                false,
                Err(str_to_string("Unexpected event for the current connection stage")),
            ),
        ),
    }
}

// ---------------------------------------------------------------------------
// Laws of the connect sequence
// ---------------------------------------------------------------------------

/// The event is one that the stage waits for.
pub open spec fn connect_expects(stage: ConnectStage, event: ConnectEventView) -> bool {
    match (stage, event) {
        (_, ConnectEventView::Begin) => true,
        (ConnectStage::AwaitPortProbe, ConnectEventView::PortProbed(_)) => true,
        (ConnectStage::AwaitOwner, ConnectEventView::OwnerFound(_)) => true,
        (ConnectStage::AwaitExistingTrace { .. }, ConnectEventView::ExistingTrace(_)) => true,
        (ConnectStage::AwaitStaleCleanup, ConnectEventView::StaleCleaned) => true,
        (ConnectStage::AwaitSpawn, ConnectEventView::Spawned(_)) => true,
        (ConnectStage::AwaitAetherReady, ConnectEventView::AetherPolled(_)) => true,
        (ConnectStage::AwaitElevation, ConnectEventView::Elevation(_)) => true,
        (ConnectStage::AwaitTunCheck, ConnectEventView::TunChecked { .. }) => true,
        (ConnectStage::AwaitRouter, ConnectEventView::RouterStarted { .. }) => true,
        (ConnectStage::AwaitVerification, ConnectEventView::Verified { .. }) => true,
        _ => false,
    }
}

/// The event reports a cancellation that the stage acts on.
pub open spec fn connect_cancels(stage: ConnectStage, event: ConnectEventView) -> bool {
    match (stage, event) {
        (ConnectStage::AwaitAetherReady, ConnectEventView::AetherPolled(AetherObservationView::Cancelled)) => true,
        (
            ConnectStage::AwaitTunCheck,
            ConnectEventView::TunChecked { singbox_running, tun_preexists, cancelled, .. },
        ) => cancelled && (singbox_running || !tun_preexists),
        (ConnectStage::AwaitRouter, ConnectEventView::RouterStarted { cancelled, .. }) => cancelled,
        (ConnectStage::AwaitVerification, ConnectEventView::Verified { result, cancelled }) =>
            cancelled && result is Err,
        _ => false,
    }
}

/// The command ends the attempt with an error.
pub open spec fn finishes_with_error(c: ConnectCommandView) -> bool {
    match c {
        ConnectCommandView::Finish { result, .. } => result is Err,
        _ => false,
    }
}

/// The stages reached only after a managed Aether may have been launched.
pub open spec fn after_launch(stage: ConnectStage) -> bool {
    match stage {
        ConnectStage::AwaitAetherReady | ConnectStage::AwaitElevation | ConnectStage::AwaitTunCheck
        | ConnectStage::AwaitRouter | ConnectStage::AwaitVerification => true,
        _ => false,
    }
}

/// A connection becomes `Connected` only through a successful routing verification, and
/// a successful verification always ends the attempt connected.
pub proof fn law_connected_only_after_verification(
    ctx: ConnectContext,
    lc: LifecycleView,
    stage: ConnectStage,
    event: ConnectEventView,
)
    ensures
        ({
            let (lc2, _, cmd) = connect_transition(ctx, lc, stage, event);
            lc.state != ConnectionState::Connected && lc2.state == ConnectionState::Connected ==> {
                &&& stage == ConnectStage::AwaitVerification
                &&& event matches ConnectEventView::Verified { result: Ok(()), .. }
                &&& cmd == finish(false, false, false, Ok(()))
            }
        }),
        stage == ConnectStage::AwaitVerification && (event matches ConnectEventView::Verified {
            result: Ok(()),
            ..
        }) ==> connect_transition(ctx, lc, stage, event).0.state == ConnectionState::Connected,
{
}

/// Wherever the attempt observes a cancellation, it ends `Disconnected`, forgets the Aether
/// address, asks for a forced teardown of every component and reports
/// "Connection cancelled by user".
pub proof fn law_cancellation_tears_down(
    ctx: ConnectContext,
    lc: LifecycleView,
    stage: ConnectStage,
    event: ConnectEventView,
)
    requires
        connect_cancels(stage, event),
    ensures
        ({
            let (lc2, st2, cmd) = connect_transition(ctx, lc, stage, event);
            &&& lc2.state == ConnectionState::Disconnected
            &&& lc2.active_aether_ip is None
            &&& st2 == ConnectStage::Done
            &&& cmd matches ConnectCommandView::Finish { force_shutdown: true, result: Err(m), .. }
            &&& cmd->result == Err::<(), Seq<char>>(cancelled_message())
        }),
{
}

/// Every attempt that fails records why: the state becomes `Error` and the message is kept
/// as the last error. A managed Aether never outlives a failed attempt.
pub proof fn law_failed_attempt_is_recorded_and_cleaned_up(
    ctx: ConnectContext,
    lc: LifecycleView,
    stage: ConnectStage,
    event: ConnectEventView,
)
    requires
        connect_expects(stage, event),
        !connect_cancels(stage, event),
        finishes_with_error(connect_transition(ctx, lc, stage, event).2),
    ensures
        ({
            let (lc2, st2, cmd) = connect_transition(ctx, lc, stage, event);
            &&& lc2.state == ConnectionState::Error
            &&& lc2.last_error is Some
            &&& st2 == ConnectStage::Done
            &&& after_launch(stage) && lc.aether_managed ==> cmd->stop_aether
            &&& stage == ConnectStage::AwaitVerification ==> cmd->stop_singbox
        }),
{
}

/// The command ends the attempt.
pub open spec fn finishes(c: ConnectCommandView) -> bool {
    c is Finish
}

/// One step that an attempt can take: the event is one that its stage waits for, and
/// the attempt has not ended yet.
pub open spec fn attempt_step_ok(stage: ConnectStage, event: ConnectEventView) -> bool {
    stage != ConnectStage::Done && connect_expects(stage, event)
}

/// A whole attempt run by the driver: starting at `Begin`, each later event answers the
/// stage that the previous step left, no step but the last ends the attempt, and the last
/// does. The result is the lifecycle and the final command.
pub open spec fn connect_run(
    ctx: ConnectContext,
    lc: LifecycleView,
    stage: ConnectStage,
    events: Seq<ConnectEventView>,
) -> (LifecycleView, ConnectStage, ConnectCommandView)
    decreases events.len(),
{
    if events.len() == 0 {
        (lc, stage, ConnectCommandView::ProbePort)
    } else {
        let (lc2, st2, cmd) = connect_transition(ctx, lc, stage, events[0]);
        if events.len() == 1 {
            (lc2, st2, cmd)
        } else {
            connect_run(ctx, lc2, st2, events.drop_first())
        }
    }
}

/// The events form a well-run attempt from `stage`: each answers the stage it meets and
/// only the last step ends the attempt.
pub open spec fn well_run(
    ctx: ConnectContext,
    lc: LifecycleView,
    stage: ConnectStage,
    events: Seq<ConnectEventView>,
) -> bool
    decreases events.len(),
{
    if events.len() == 0 {
        true
    } else {
        let (lc2, st2, cmd) = connect_transition(ctx, lc, stage, events[0]);
        &&& (events[0] is Begin || attempt_step_ok(stage, events[0]))
        &&& (events.len() == 1 <==> finishes(cmd))
        &&& well_run(ctx, lc2, st2, events.drop_first())
    }
}

/// A step that does not end the attempt keeps the last error and never connects.
proof fn lemma_open_step(ctx: ConnectContext, lc: LifecycleView, stage: ConnectStage, event: ConnectEventView)
    requires
        !(event is Begin),
        attempt_step_ok(stage, event),
        !finishes(connect_transition(ctx, lc, stage, event).2),
    ensures
        connect_transition(ctx, lc, stage, event).0.last_error == lc.last_error,
        connect_transition(ctx, lc, stage, event).1 != ConnectStage::Done,
{
}

/// A step that ends the attempt leaves a state that tells how: `Connected` after success,
/// `Disconnected` after a cancellation, and `Error` with the message kept otherwise.
proof fn lemma_closing_step(ctx: ConnectContext, lc: LifecycleView, stage: ConnectStage, event: ConnectEventView)
    requires
        !(event is Begin),
        attempt_step_ok(stage, event),
        finishes(connect_transition(ctx, lc, stage, event).2),
    ensures
        ({
            let (lc2, _, cmd) = connect_transition(ctx, lc, stage, event);
            &&& cmd->result is Ok ==> lc2.state == ConnectionState::Connected && lc2.last_error
                == lc.last_error
            &&& connect_cancels(stage, event) ==> lc2.state == ConnectionState::Disconnected
                && cmd->result == Err::<(), Seq<char>>(cancelled_message())
            &&& cmd->result is Err && !connect_cancels(stage, event) ==> lc2.state
                == ConnectionState::Error && lc2.last_error is Some
        }),
{
}

/// Over a whole attempt that starts with `Begin` and is run to its end: it ends `Connected`
/// with no last error exactly when it succeeds, and a failed attempt ends either
/// `Disconnected` after a cancellation (reporting "Connection cancelled by user") or in
/// `Error` with a last error kept. (A failure whose own text reads like the cancellation
/// message still ends in `Error`.)
pub proof fn law_attempt_outcome(
    ctx: ConnectContext,
    lc: LifecycleView,
    stage: ConnectStage,
    events: Seq<ConnectEventView>,
)
    requires
        events.len() >= 1,
        events[0] is Begin,
        forall|j: int| 1 <= j < events.len() ==> !(#[trigger] events[j] is Begin),
        well_run(ctx, lc, stage, events),
    ensures
        ({
            let (lc2, _, cmd) = connect_run(ctx, lc, stage, events);
            &&& finishes(cmd)
            &&& cmd->result is Ok <==> (lc2.state == ConnectionState::Connected && lc2.last_error is None)
            &&& cmd->result is Err ==> (lc2.state == ConnectionState::Disconnected && cmd->result
                == Err::<(), Seq<char>>(cancelled_message())) || (lc2.state == ConnectionState::Error
                && lc2.last_error is Some)
        }),
{
    let (lc1, st1, cmd1) = connect_transition(ctx, lc, stage, events[0]);
    assert(lc1.last_error is None);
    assert(st1 == ConnectStage::AwaitPortProbe);
    assert(!finishes(cmd1));
    assert(events.len() != 1);
    let rest = events.drop_first();
    assert forall|j: int| 0 <= j < rest.len() implies !(#[trigger] rest[j] is Begin) by {
        assert(rest[j] == events[j + 1]);
    }
    assert(well_run(ctx, lc1, st1, rest));
    assert(connect_run(ctx, lc, stage, events) == connect_run(ctx, lc1, st1, rest));
    lemma_attempt_tail(ctx, lc1, st1, rest);
}

/// The rest of an attempt after `Begin`, with no last error recorded yet.
proof fn lemma_attempt_tail(
    ctx: ConnectContext,
    lc: LifecycleView,
    stage: ConnectStage,
    events: Seq<ConnectEventView>,
)
    requires
        events.len() >= 1,
        lc.last_error is None,
        stage != ConnectStage::Done,
        forall|j: int| 0 <= j < events.len() ==> !(#[trigger] events[j] is Begin),
        well_run(ctx, lc, stage, events),
    ensures
        ({
            let (lc2, _, cmd) = connect_run(ctx, lc, stage, events);
            &&& finishes(cmd)
            &&& cmd->result is Ok <==> (lc2.state == ConnectionState::Connected && lc2.last_error is None)
            &&& cmd->result is Err ==> (lc2.state == ConnectionState::Disconnected && cmd->result
                == Err::<(), Seq<char>>(cancelled_message())) || (lc2.state == ConnectionState::Error
                && lc2.last_error is Some)
        }),
    decreases events.len(),
{
    let e = events[0];
    assert(!(e is Begin));
    let (lc1, st1, cmd1) = connect_transition(ctx, lc, stage, e);
    assert(attempt_step_ok(stage, e));
    if events.len() == 1 {
        assert(finishes(cmd1));
        assert(connect_run(ctx, lc, stage, events) == (lc1, st1, cmd1));
        lemma_closing_step(ctx, lc, stage, e);
        if connect_cancels(stage, e) {
            assert(cmd1->result == Err::<(), Seq<char>>(cancelled_message()));
        }
    } else {
        assert(!finishes(cmd1));
        lemma_open_step(ctx, lc, stage, e);
        let rest = events.drop_first();
        assert(well_run(ctx, lc1, st1, rest));
        assert(connect_run(ctx, lc, stage, events) == connect_run(ctx, lc1, st1, rest));
        assert forall|j: int| 0 <= j < rest.len() implies !(#[trigger] rest[j] is Begin) by {
            assert(rest[j] == events[j + 1]);
        }
        lemma_attempt_tail(ctx, lc1, st1, rest);
    }
}

} // verus!
