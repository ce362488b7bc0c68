//! The gateway optimization sequence ("Find Faster Gateway") and its rollback.
//!
//! Connected through a managed Aether, the sequence measures the current path, prepares a
//! rollback snapshot, tears the router down, runs a fresh Thorough scan, measures the
//! candidate path and keeps it only when it is meaningfully faster and stable; every failure
//! after the teardown restores the previous gateway through Quick Reconnect. Disconnected, it
//! connects through a fresh scan. The caller performs each command and hands back what it
//! observed.
use vstd::prelude::*;
use crate::models::health::{CloudflareTrace, LatencyProfile};
use crate::models::settings::{
    aether_startup_timeout_secs, startup_timeout_secs, AetherLaunchOptions, AetherScanMode,
    QuickReconnectOption,
};
use crate::models::state::ConnectionState;
use crate::process::orchestrator::{
    evaluate_gateway_optimization, external_listener_message, external_listener_refusal,
    gateway_decision, max_allowable_jitter, opt_text, required_improvement, set_error,
    GatewayOptimizationDecision, Lifecycle, LifecycleView, OptimizeEntry, RouteOptimizationResult,
    with_error, with_state,
};
use crate::text::{decimal, decimal_string, str_to_string};

verus! {

/// Latency figures of one measured path.
#[derive(Debug, Clone)]
pub struct PathFigures {
    pub latency_ms: u64,
    pub jitter_ms: u64,
    pub pop: Option<String>,
    pub ip: Option<String>,
}

/// Model of path figures.
pub struct PathFiguresView {
    pub latency_ms: u64,
    pub jitter_ms: u64,
    pub pop: Option<Seq<char>>,
    pub ip: Option<Seq<char>>,
}

impl View for PathFigures {
    type V = PathFiguresView;

    open spec fn view(&self) -> PathFiguresView {
        PathFiguresView {
            latency_ms: self.latency_ms,
            jitter_ms: self.jitter_ms,
            pop: opt_text(self.pop),
            ip: opt_text(self.ip),
        }
    }
}

/// What the sequence remembers between steps.
#[derive(Debug)]
pub struct OptimizeRecord {
    pub opt_id: u64,
    /// The path before the optimization.
    pub previous: Option<PathFigures>,
    /// The candidate path found by the fresh scan.
    pub candidate: Option<PathFigures>,
    /// Decision name and reason of a rollback in progress.
    pub decision: String,
    pub reason: String,
}

/// Model of the record.
pub struct OptimizeRecordView {
    pub opt_id: u64,
    pub previous: Option<PathFiguresView>,
    pub candidate: Option<PathFiguresView>,
    pub decision: Seq<char>,
    pub reason: Seq<char>,
}

/// Model of optional figures.
pub open spec fn opt_figures(o: Option<PathFigures>) -> Option<PathFiguresView> {
    match o {
        Some(f) => Some(f@),
        None => None,
    }
}

impl View for OptimizeRecord {
    type V = OptimizeRecordView;

    open spec fn view(&self) -> OptimizeRecordView {
        OptimizeRecordView {
            opt_id: self.opt_id,
            previous: opt_figures(self.previous),
            candidate: opt_figures(self.candidate),
            decision: self.decision@,
            reason: self.reason@,
        }
    }
}

/// Where the optimization sequence stands.
#[derive(Debug, Clone, Copy, PartialEq, Eq, Structural)]
pub enum OptimizeStage {
    /// Measuring the current path.
    AwaitBaseline,
    /// Preparing the rollback snapshot of the persisted endpoint.
    AwaitSnapshot,
    /// Router stopped; waiting for the TUN adapter to go away.
    AwaitTeardown,
    /// Launching Aether for a fresh scan.
    AwaitFreshSpawn,
    /// Waiting for the fresh scan's SOCKS proxy.
    AwaitFreshReady,
    /// Checking whether the scan really was fresh.
    AwaitScanKind,
    /// Measuring the candidate path.
    AwaitCandidate,
    /// Launching the router over the candidate.
    AwaitRouter,
    /// Verifying routing over the candidate.
    AwaitVerification,
    /// Rollback: teardown and snapshot restore.
    AwaitRestore,
    /// Rollback: reconnecting through Quick Reconnect.
    AwaitReconnect,
    /// Disconnected flow: probing the SOCKS port.
    AwaitInitialProbe,
    /// Disconnected flow: connecting through a fresh scan.
    AwaitInitialConnect,
    /// Disconnected flow: measuring the new path.
    AwaitInitialSamples,
    /// Finished.
    Done,
}

/// What one poll of the fresh scan observed.
#[derive(Debug)]
pub enum FreshScanObservation {
    NotReady,
    /// The proxy answered; its egress address.
    Ready(String),
    /// The deadline passed (or the process stopped) with no ready proxy; the elapsed time
    /// as shown to the user, in seconds with one decimal.
    TimedOut(String),
}

/// The observation handed back after a command.
#[derive(Debug)]
pub enum OptimizeEvent {
    BaselineMeasured(Result<LatencyProfile, String>),
    SnapshotPrepared(Result<(), String>),
    TeardownConfirmed(Result<(), String>),
    FreshSpawned(Result<(), String>),
    FreshPolled(FreshScanObservation),
    /// The scan reused a cached endpoint instead of scanning.
    ScanKind { cached_reuse: bool },
    CandidateMeasured(Result<LatencyProfile, String>),
    RouterStarted(Result<(), String>),
    Verified(Result<(), String>),
    /// The snapshot was restored after the rollback teardown.
    SnapshotRestored(Result<(), String>),
    /// End of the Quick Reconnect connect sequence.
    Reconnected(Result<(), String>),
    /// The SOCKS port is open.
    PortProbed(bool),
    /// End of the fresh-scan connect sequence.
    InitialConnected(Result<(), String>),
    /// Latency samples of the new path, when they could be taken.
    SamplesMeasured(Option<LatencyProfile>),
}

/// End of the sequence: whether to discard the rollback snapshot, and the result.
#[derive(Debug)]
pub struct OptimizeOutcome {
    pub commit_snapshot: bool,
    pub result: Result<RouteOptimizationResult, String>,
}

/// The next command for the caller.
#[derive(Debug)]
pub enum OptimizeCommand {
    MeasureBaseline,
    PrepareSnapshot,
    /// Stop the router and wait for the TUN adapter to be released.
    StopRouterAndAwaitTeardown,
    /// Stop the managed Aether when asked to, then launch Aether with these options.
    SpawnFreshScan { stop_managed_first: bool, options: AetherLaunchOptions },
    PollFreshScan { deadline_secs: u64 },
    InspectScanKind,
    MeasureCandidate,
    StartRouter,
    VerifyRouting,
    /// Stop the router (and the managed Aether when asked to), wait for the TUN teardown,
    /// then restore and discard the snapshot.
    RollbackTeardownAndRestore { stop_aether: bool },
    /// Run the connect sequence with these options.
    Reconnect(AetherLaunchOptions),
    ProbePort,
    /// Wait for a stale TUN adapter to go away, then run the connect sequence.
    AwaitTeardownThenConnect(AetherLaunchOptions),
    MeasureSamples,
    Finish(OptimizeOutcome),
}

/// Model of a route optimization result.
pub struct RouteOptimizationView {
    pub success: bool,
    pub previous_latency_ms: Option<u64>,
    pub previous_jitter_ms: Option<u64>,
    pub previous_pop: Option<Seq<char>>,
    pub previous_ip: Option<Seq<char>>,
    pub new_latency_ms: Option<u64>,
    pub new_jitter_ms: Option<u64>,
    pub new_pop: Option<Seq<char>>,
    pub new_ip: Option<Seq<char>>,
    pub latency_delta_ms: Option<int>,
    pub decision: Seq<char>,
    pub message: Seq<char>,
}

impl View for RouteOptimizationResult {
    type V = RouteOptimizationView;

    open spec fn view(&self) -> RouteOptimizationView {
        RouteOptimizationView {
            success: self.success,
            previous_latency_ms: self.previous_latency_ms,
            previous_jitter_ms: self.previous_jitter_ms,
            previous_pop: opt_text(self.previous_pop),
            previous_ip: opt_text(self.previous_ip),
            new_latency_ms: self.new_latency_ms,
            new_jitter_ms: self.new_jitter_ms,
            new_pop: opt_text(self.new_pop),
            new_ip: opt_text(self.new_ip),
            latency_delta_ms: match self.latency_delta_ms {
                Some(d) => Some(d as int),
                None => None,
            },
            decision: self.decision@,
            message: self.message@,
        }
    }
}

/// Model of a command.
pub enum OptimizeCommandView {
    MeasureBaseline,
    PrepareSnapshot,
    StopRouterAndAwaitTeardown,
    SpawnFreshScan { stop_managed_first: bool, options: AetherLaunchOptions },
    PollFreshScan { deadline_secs: u64 },
    InspectScanKind,
    MeasureCandidate,
    StartRouter,
    VerifyRouting,
    RollbackTeardownAndRestore { stop_aether: bool },
    Reconnect(AetherLaunchOptions),
    ProbePort,
    AwaitTeardownThenConnect(AetherLaunchOptions),
    MeasureSamples,
    Finish { commit_snapshot: bool, result: Result<RouteOptimizationView, Seq<char>> },
}

impl View for OptimizeCommand {
    type V = OptimizeCommandView;

    open spec fn view(&self) -> OptimizeCommandView {
        match self {
            OptimizeCommand::MeasureBaseline => OptimizeCommandView::MeasureBaseline,
            OptimizeCommand::PrepareSnapshot => OptimizeCommandView::PrepareSnapshot,
            OptimizeCommand::StopRouterAndAwaitTeardown => OptimizeCommandView::StopRouterAndAwaitTeardown,
            OptimizeCommand::SpawnFreshScan { stop_managed_first, options } =>
                OptimizeCommandView::SpawnFreshScan {
                stop_managed_first: *stop_managed_first,
                options: *options,
            },
            OptimizeCommand::PollFreshScan { deadline_secs } => OptimizeCommandView::PollFreshScan {
                deadline_secs: *deadline_secs,
            },
            OptimizeCommand::InspectScanKind => OptimizeCommandView::InspectScanKind,
            OptimizeCommand::MeasureCandidate => OptimizeCommandView::MeasureCandidate,
            OptimizeCommand::StartRouter => OptimizeCommandView::StartRouter,
            OptimizeCommand::VerifyRouting => OptimizeCommandView::VerifyRouting,
            OptimizeCommand::RollbackTeardownAndRestore { stop_aether } =>
                OptimizeCommandView::RollbackTeardownAndRestore { stop_aether: *stop_aether },
            OptimizeCommand::Reconnect(o) => OptimizeCommandView::Reconnect(*o),
            OptimizeCommand::ProbePort => OptimizeCommandView::ProbePort,
            OptimizeCommand::AwaitTeardownThenConnect(o) => OptimizeCommandView::AwaitTeardownThenConnect(*o),
            OptimizeCommand::MeasureSamples => OptimizeCommandView::MeasureSamples,
            OptimizeCommand::Finish(o) => OptimizeCommandView::Finish {
                commit_snapshot: o.commit_snapshot,
                result: match o.result {
                    Ok(r) => Ok(r@),
                    Err(m) => Err(m@),
                },
            },
        }
    }
}

/// Model of a measured profile, as far as the sequence reads it.
pub struct ProfileView {
    pub median_ms: u64,
    pub jitter_ms: u64,
    pub colo: Option<Seq<char>>,
    pub ip: Option<Seq<char>>,
}

/// The fields of a profile that the sequence reads.
pub open spec fn profile_view(p: LatencyProfile) -> ProfileView {
    ProfileView {
        median_ms: p.median_ms,
        jitter_ms: p.jitter_mad_ms,
        colo: match p.latest_trace {
            Some(t) => Some(t.colo@),
            None => None,
        },
        ip: match p.latest_trace {
            Some(t) => Some(t.ip@),
            None => None,
        },
    }
}

/// Model of a fresh-scan poll.
pub enum FreshScanView {
    NotReady,
    Ready(Seq<char>),
    TimedOut(Seq<char>),
}

/// Model of an event.
pub enum OptimizeEventView {
    BaselineMeasured(Result<ProfileView, Seq<char>>),
    SnapshotPrepared(Result<(), Seq<char>>),
    TeardownConfirmed(Result<(), Seq<char>>),
    FreshSpawned(Result<(), Seq<char>>),
    FreshPolled(FreshScanView),
    ScanKind { cached_reuse: bool },
    CandidateMeasured(Result<ProfileView, Seq<char>>),
    RouterStarted(Result<(), Seq<char>>),
    Verified(Result<(), Seq<char>>),
    SnapshotRestored(Result<(), Seq<char>>),
    Reconnected(Result<(), Seq<char>>),
    PortProbed(bool),
    InitialConnected(Result<(), Seq<char>>),
    SamplesMeasured(Option<ProfileView>),
}

/// Model of a unit result.
pub open spec fn unit_view(r: Result<(), String>) -> Result<(), Seq<char>> {
    match r {
        Ok(()) => Ok(()),
        Err(m) => Err(m@),
    }
}

/// Model of a measurement result.
pub open spec fn profile_result(r: Result<LatencyProfile, String>) -> Result<ProfileView, Seq<char>> {
    match r {
        Ok(p) => Ok(profile_view(p)),
        Err(m) => Err(m@),
    }
}

impl View for OptimizeEvent {
    type V = OptimizeEventView;

    open spec fn view(&self) -> OptimizeEventView {
        match self {
            OptimizeEvent::BaselineMeasured(r) => OptimizeEventView::BaselineMeasured(profile_result(*r)),
            OptimizeEvent::SnapshotPrepared(r) => OptimizeEventView::SnapshotPrepared(unit_view(*r)),
            OptimizeEvent::TeardownConfirmed(r) => OptimizeEventView::TeardownConfirmed(unit_view(*r)),
            OptimizeEvent::FreshSpawned(r) => OptimizeEventView::FreshSpawned(unit_view(*r)),
            OptimizeEvent::FreshPolled(o) => OptimizeEventView::FreshPolled(
                match o {
                    FreshScanObservation::NotReady => FreshScanView::NotReady,
                    FreshScanObservation::Ready(ip) => FreshScanView::Ready(ip@),
                    FreshScanObservation::TimedOut(t) => FreshScanView::TimedOut(t@),
                },
            ),
            OptimizeEvent::ScanKind { cached_reuse } => OptimizeEventView::ScanKind {
                cached_reuse: *cached_reuse,
            },
            OptimizeEvent::CandidateMeasured(r) => OptimizeEventView::CandidateMeasured(profile_result(*r)),
            OptimizeEvent::RouterStarted(r) => OptimizeEventView::RouterStarted(unit_view(*r)),
            OptimizeEvent::Verified(r) => OptimizeEventView::Verified(unit_view(*r)),
            OptimizeEvent::SnapshotRestored(r) => OptimizeEventView::SnapshotRestored(unit_view(*r)),
            OptimizeEvent::Reconnected(r) => OptimizeEventView::Reconnected(unit_view(*r)),
            OptimizeEvent::PortProbed(b) => OptimizeEventView::PortProbed(*b),
            OptimizeEvent::InitialConnected(r) => OptimizeEventView::InitialConnected(unit_view(*r)),
            OptimizeEvent::SamplesMeasured(o) => OptimizeEventView::SamplesMeasured(
                match o {
                    Some(p) => Some(profile_view(*p)),
                    None => None,
                },
            ),
        }
    }
}

// ---------------------------------------------------------------------------
// Transition function
// ---------------------------------------------------------------------------

/// `[Optimize #id] ` prefix.
pub open spec fn optimize_prefix(id: u64) -> Seq<char> {
    "[Optimize #"@ + decimal(id as nat) + "] "@
}

/// Figures of the path before the optimization.
pub open spec fn baseline_figures(p: ProfileView) -> PathFiguresView {
    PathFiguresView { latency_ms: p.median_ms, jitter_ms: p.jitter_ms, pop: p.colo, ip: p.ip }
}

/// Figures of the candidate path; a missing trace reads as `unknown`.
pub open spec fn candidate_figures(p: ProfileView) -> PathFiguresView {
    PathFiguresView {
        latency_ms: p.median_ms,
        jitter_ms: p.jitter_ms,
        pop: Some(
            match p.colo {
                Some(c) => c,
                None => "unknown"@,
            },
        ),
        ip: Some(
            match p.ip {
                Some(i) => i,
                None => "unknown"@,
            },
        ),
    }
}

/// A terminal command.
pub open spec fn done(commit: bool, result: Result<RouteOptimizationView, Seq<char>>) -> OptimizeCommandView {
    OptimizeCommandView::Finish { commit_snapshot: commit, result }
}

/// Entering the rollback: the decision and reason are recorded with the candidate figures
/// known so far, the state becomes `StartingAether`, and the teardown and snapshot restore
/// are requested.
pub open spec fn enter_rollback(
    rec: OptimizeRecordView,
    lc: LifecycleView,
    candidate: Option<PathFiguresView>,
    decision: Seq<char>,
    reason: Seq<char>,
) -> (OptimizeRecordView, LifecycleView, OptimizeStage, OptimizeCommandView) {
    (
        OptimizeRecordView { candidate, decision, reason, ..rec },
        with_state(lc, ConnectionState::StartingAether),
        OptimizeStage::AwaitRestore,
        OptimizeCommandView::RollbackTeardownAndRestore { stop_aether: lc.aether_managed },
    )
}

/// The result of a rollback that restored the previous gateway.
pub open spec fn rolled_back_result(rec: OptimizeRecordView) -> RouteOptimizationView {
    RouteOptimizationView {
        success: false,
        previous_latency_ms: fig_latency(rec.previous),
        previous_jitter_ms: fig_jitter(rec.previous),
        previous_pop: fig_pop(rec.previous),
        previous_ip: fig_ip(rec.previous),
        new_latency_ms: fig_latency(rec.candidate),
        new_jitter_ms: fig_jitter(rec.candidate),
        new_pop: fig_pop(rec.candidate),
        new_ip: fig_ip(rec.candidate),
        latency_delta_ms: match (rec.previous, rec.candidate) {
            (Some(p), Some(c)) => Some(p.latency_ms - c.latency_ms),
            _ => None,
        },
        decision: rec.decision,
        message: rec.reason,
    }
}

/// Latency of optional figures.
pub open spec fn fig_latency(f: Option<PathFiguresView>) -> Option<u64> {
    match f {
        Some(x) => Some(x.latency_ms),
        None => None,
    }
}

/// Jitter of optional figures.
pub open spec fn fig_jitter(f: Option<PathFiguresView>) -> Option<u64> {
    match f {
        Some(x) => Some(x.jitter_ms),
        None => None,
    }
}

/// POP of optional figures.
pub open spec fn fig_pop(f: Option<PathFiguresView>) -> Option<Seq<char>> {
    match f {
        Some(x) => x.pop,
        None => None,
    }
}

/// Egress address of optional figures.
pub open spec fn fig_ip(f: Option<PathFiguresView>) -> Option<Seq<char>> {
    match f {
        Some(x) => x.ip,
        None => None,
    }
}

/// The result of a kept candidate.
pub open spec fn kept_result(prev: PathFiguresView, cand: PathFiguresView) -> RouteOptimizationView {
    RouteOptimizationView {
        success: true,
        previous_latency_ms: Some(prev.latency_ms),
        previous_jitter_ms: Some(prev.jitter_ms),
        previous_pop: prev.pop,
        previous_ip: prev.ip,
        new_latency_ms: Some(cand.latency_ms),
        new_jitter_ms: Some(cand.jitter_ms),
        new_pop: cand.pop,
        new_ip: cand.ip,
        latency_delta_ms: Some(prev.latency_ms - cand.latency_ms),
        decision: "KeptFaster"@,
        message: "New faster gateway kept (Median: "@ + decimal(cand.latency_ms as nat)
            + " ms, Jitter: "@ + decimal(cand.jitter_ms as nat) + " ms, improved by "@ + decimal(
            (prev.latency_ms - cand.latency_ms) as nat,
        ) + " ms vs previous "@ + decimal(prev.latency_ms as nat) + " ms)."@,
    }
}

/// The result of the disconnected flow.
pub open spec fn initial_result(p: Option<ProfileView>) -> RouteOptimizationView {
    RouteOptimizationView {
        success: true,
        previous_latency_ms: None,
        previous_jitter_ms: None,
        previous_pop: None,
        previous_ip: None,
        new_latency_ms: match p {
            Some(x) => Some(x.median_ms),
            None => None,
        },
        new_jitter_ms: match p {
            Some(x) => Some(x.jitter_ms),
            None => None,
        },
        new_pop: match p {
            Some(x) => x.colo,
            None => None,
        },
        new_ip: match p {
            Some(x) => x.ip,
            None => None,
        },
        latency_delta_ms: None,
        decision: "InitialConnected"@,
        message: match p {
            Some(x) => "Connected via fresh Thorough scan (Median: "@ + decimal(x.median_ms as nat)
                + " ms, Jitter: "@ + decimal(x.jitter_ms as nat) + " ms)."@,
            None => "Connected via fresh Thorough scan."@,
        },
    }
}

/// Reason of a candidate that is not meaningfully faster.
pub open spec fn not_faster_reason(prev: PathFiguresView, cand: PathFiguresView) -> Seq<char> {
    "Candidate path (Median: "@ + decimal(cand.latency_ms as nat)
        + " ms) was not meaningfully faster than previous path (Median: "@ + decimal(
        prev.latency_ms as nat,
    ) + " ms, required improvement: "@ + decimal(required_improvement(prev.latency_ms) as nat)
        + " ms). Restoring previous gateway."@
}

/// Reason of a candidate that is too unstable.
pub open spec fn unstable_reason(prev: PathFiguresView, cand: PathFiguresView) -> Seq<char> {
    "Candidate path jitter ("@ + decimal(cand.jitter_ms as nat)
        + " ms) exceeded maximum stability threshold ("@ + decimal(
        max_allowable_jitter(prev.jitter_ms) as nat,
    ) + " ms, baseline jitter: "@ + decimal(prev.jitter_ms as nat)
        + " ms). Restoring previous gateway."@
}

/// Options of a fresh Thorough scan with Quick Reconnect disabled.
pub open spec fn fresh_thorough() -> AetherLaunchOptions {
    AetherLaunchOptions {
        quick_reconnect: QuickReconnectOption::ForceFreshScan,
        scan_mode_override: Some(AetherScanMode::Thorough),
    }
}

/// Options of the Quick Reconnect restore.
pub open spec fn quick_restore() -> AetherLaunchOptions {
    AetherLaunchOptions {
        quick_reconnect: QuickReconnectOption::ForceEnabled,
        scan_mode_override: None,
    }
}

/// How the sequence begins for an entry decision.
pub open spec fn optimize_start(entry: OptimizeEntry) -> (OptimizeStage, OptimizeCommandView) {
    match entry {
        OptimizeEntry::Refused(m) => (OptimizeStage::Done, done(false, Err(m@))),
        OptimizeEntry::ConnectedFlow => (OptimizeStage::AwaitBaseline, OptimizeCommandView::MeasureBaseline),
        OptimizeEntry::InitialScanFlow => (OptimizeStage::AwaitInitialProbe, OptimizeCommandView::ProbePort),
    }
}

/// One transition of the optimization sequence.
pub open spec fn optimize_transition(
    rec: OptimizeRecordView,
    lc: LifecycleView,
    stage: OptimizeStage,
    event: OptimizeEventView,
) -> (OptimizeRecordView, LifecycleView, OptimizeStage, OptimizeCommandView) {
    let p = optimize_prefix(rec.opt_id);
    match (stage, event) {
        (OptimizeStage::AwaitBaseline, OptimizeEventView::BaselineMeasured(r)) => match r {
            Err(e) => (
                rec,
                lc,
                OptimizeStage::Done,
                done(
                    false,
                    Err(
                        p + "Baseline latency measurement failed: "@ + e
                            + ". Aborting optimization without disrupting active connection."@,
                    ),
                ),
            ),
            Ok(b) => (
                OptimizeRecordView { previous: Some(baseline_figures(b)), ..rec },
                lc,
                OptimizeStage::AwaitSnapshot,
                OptimizeCommandView::PrepareSnapshot,
            ),
        },
        (OptimizeStage::AwaitSnapshot, OptimizeEventView::SnapshotPrepared(r)) => match r {
            Err(e) => (
                rec,
                lc,
                OptimizeStage::Done,
                done(
                    false,
                    Err(
                        p + "Rollback snapshot preparation failed: "@ + e
                            + ". Aborting optimization without disrupting active connection."@,
                    ),
                ),
            ),
            Ok(()) => (
                rec,
                with_state(lc, ConnectionState::ScanningAether),
                OptimizeStage::AwaitTeardown,
                OptimizeCommandView::StopRouterAndAwaitTeardown,
            ),
        },
        (OptimizeStage::AwaitTeardown, OptimizeEventView::TeardownConfirmed(r)) => match r {
            Err(e) => enter_rollback(
                rec,
                lc,
                None,
                "AbortTunTeardownFailed"@,
                "TUN teardown could not be confirmed before fresh scan: "@ + e,
            ),
            Ok(()) => (
                rec,
                lc,
                OptimizeStage::AwaitFreshSpawn,
                OptimizeCommandView::SpawnFreshScan {
                    stop_managed_first: lc.aether_managed,
                    options: fresh_thorough(),
                },
            ),
        },
        (OptimizeStage::AwaitFreshSpawn, OptimizeEventView::FreshSpawned(r)) => match r {
            Err(e) => enter_rollback(rec, lc, None, "RollbackSpawnFailed"@, e),
            Ok(()) => (
                rec,
                LifecycleView { aether_managed: true, ..lc },
                OptimizeStage::AwaitFreshReady,
                OptimizeCommandView::PollFreshScan {
                    deadline_secs: startup_timeout_secs(AetherScanMode::Thorough),
                },
            ),
        },
        (OptimizeStage::AwaitFreshReady, OptimizeEventView::FreshPolled(o)) => match o {
            FreshScanView::NotReady => (
                rec,
                lc,
                OptimizeStage::AwaitFreshReady,
                OptimizeCommandView::PollFreshScan {
                    deadline_secs: startup_timeout_secs(AetherScanMode::Thorough),
                },
            ),
            FreshScanView::Ready(ip) => (
                rec,
                LifecycleView { active_aether_ip: Some(ip), ..lc },
                OptimizeStage::AwaitScanKind,
                OptimizeCommandView::InspectScanKind,
            ),
            FreshScanView::TimedOut(t) => enter_rollback(
                rec,
                lc,
                None,
                "RollbackTimeout"@,
                "Fresh scan did not yield a responsive gateway within "@ + t + "s deadline"@,
            ),
        },
        (OptimizeStage::AwaitScanKind, OptimizeEventView::ScanKind { cached_reuse }) =>
            if cached_reuse {
            enter_rollback(
                rec,
                lc,
                None,
                "FreshScanBypassed"@,
                "Fresh scan was bypassed by cached endpoint reuse; restoring previous path."@,
            )
        } else {
            (rec, lc, OptimizeStage::AwaitCandidate, OptimizeCommandView::MeasureCandidate)
        },
        (OptimizeStage::AwaitCandidate, OptimizeEventView::CandidateMeasured(r)) => match r {
            Err(e) => enter_rollback(
                rec,
                lc,
                None,
                "RollbackCandidateFailed"@,
                "Candidate latency measurement failed: "@ + e,
            ),
            Ok(c) => {
                let prev = rec.previous.unwrap();
                let cand = candidate_figures(c);
                match gateway_decision(
                    prev.latency_ms,
                    prev.jitter_ms,
                    cand.latency_ms,
                    cand.jitter_ms,
                ) {
                    GatewayOptimizationDecision::NotEnoughLatencyImprovement => enter_rollback(
                        rec,
                        lc,
                        Some(cand),
                        "NotEnoughLatencyImprovement"@,
                        not_faster_reason(prev, cand),
                    ),
                    GatewayOptimizationDecision::CandidateTooUnstable => enter_rollback(
                        rec,
                        lc,
                        Some(cand),
                        "CandidateTooUnstable"@,
                        unstable_reason(prev, cand),
                    ),
                    GatewayOptimizationDecision::KeptFaster => (
                        OptimizeRecordView { candidate: Some(cand), ..rec },
                        with_state(lc, ConnectionState::StartingRouter),
                        OptimizeStage::AwaitRouter,
                        OptimizeCommandView::StartRouter,
                    ),
                }
            },
        },
        (OptimizeStage::AwaitRouter, OptimizeEventView::RouterStarted(r)) => match r {
            Err(e) => enter_rollback(rec, lc, rec.candidate, "RollbackSingboxFailed"@, e),
            Ok(()) => (
                rec,
                with_state(lc, ConnectionState::TestingRouting),
                OptimizeStage::AwaitVerification,
                OptimizeCommandView::VerifyRouting,
            ),
        },
        (OptimizeStage::AwaitVerification, OptimizeEventView::Verified(r)) => match r {
            Err(v) => enter_rollback(
                rec,
                lc,
                rec.candidate,
                "RollbackRoutingVerificationFailed"@,
                v,
            ),
            Ok(()) => (
                rec,
                with_state(lc, ConnectionState::Connected),
                OptimizeStage::Done,
                done(true, Ok(kept_result(rec.previous.unwrap(), rec.candidate.unwrap()))),
            ),
        },
        (OptimizeStage::AwaitRestore, OptimizeEventView::SnapshotRestored(r)) => match r {
            Err(e) => {
                let m = p + "Fatal: Failed to restore native lastconn persistence snapshot: "@ + e
                    + ". Aborting rollback without launching corrupted state."@;
                (rec, with_error(lc, m), OptimizeStage::Done, done(false, Err(m)))
            },
            Ok(()) => (
                rec,
                lc,
                OptimizeStage::AwaitReconnect,
                OptimizeCommandView::Reconnect(quick_restore()),
            ),
        },
        (OptimizeStage::AwaitReconnect, OptimizeEventView::Reconnected(r)) => match r {
            Ok(()) => (rec, lc, OptimizeStage::Done, done(false, Ok(rolled_back_result(rec)))),
            Err(re) => {
                let m = "Optimization rollback failed ("@ + rec.reason
                    + ") AND restoration of previous connection also failed ("@ + re + ")"@;
                (rec, with_error(lc, m), OptimizeStage::Done, done(false, Err(m)))
            },
        },
        (OptimizeStage::AwaitInitialProbe, OptimizeEventView::PortProbed(open)) => if open {
            (rec, lc, OptimizeStage::Done, done(false, Err(external_listener_message())))
        } else {
            (
                rec,
                with_state(lc, ConnectionState::StartingAether),
                OptimizeStage::AwaitInitialConnect,
                OptimizeCommandView::AwaitTeardownThenConnect(fresh_thorough()),
            )
        },
        (OptimizeStage::AwaitInitialConnect, OptimizeEventView::InitialConnected(r)) => match r {
            Err(e) => (rec, lc, OptimizeStage::Done, done(false, Err(e))),
            Ok(()) => (rec, lc, OptimizeStage::AwaitInitialSamples, OptimizeCommandView::MeasureSamples),
        },
        (OptimizeStage::AwaitInitialSamples, OptimizeEventView::SamplesMeasured(s)) => (
            rec,
            lc,
            OptimizeStage::Done,
            done(false, Ok(initial_result(s))),
        ),
        _ => (
            rec,
            lc,
            stage,
            done(false, Err("Unexpected event for the current optimization stage"@)),
        ),
    }
}

// ---------------------------------------------------------------------------
// Well-formedness of the record
// ---------------------------------------------------------------------------

/// Figures whose arithmetic cannot overflow: a latency that fits `i64` and a jitter that can
/// be doubled.
pub open spec fn figures_bounded(f: PathFiguresView) -> bool {
    f.latency_ms <= i64::MAX && f.jitter_ms <= u64::MAX / 2
}

/// Optional figures are bounded.
pub open spec fn opt_bounded(o: Option<PathFiguresView>) -> bool {
    match o {
        Some(f) => figures_bounded(f),
        None => true,
    }
}

/// The stages that read the figures of the path before the optimization.
pub open spec fn needs_baseline(stage: OptimizeStage) -> bool {
    match stage {
        OptimizeStage::AwaitSnapshot | OptimizeStage::AwaitTeardown
        | OptimizeStage::AwaitFreshSpawn | OptimizeStage::AwaitFreshReady
        | OptimizeStage::AwaitScanKind | OptimizeStage::AwaitCandidate
        | OptimizeStage::AwaitRouter | OptimizeStage::AwaitVerification => true,
        _ => false,
    }
}

/// The stages that follow a kept candidate.
pub open spec fn needs_candidate(stage: OptimizeStage) -> bool {
    match stage {
        OptimizeStage::AwaitRouter | OptimizeStage::AwaitVerification => true,
        _ => false,
    }
}

/// The record holds what the stage reads.
pub open spec fn record_ok(rec: OptimizeRecordView, stage: OptimizeStage) -> bool {
    &&& opt_bounded(rec.previous)
    &&& opt_bounded(rec.candidate)
    &&& needs_baseline(stage) ==> rec.previous is Some
    &&& needs_candidate(stage) ==> {
        &&& rec.candidate is Some
        &&& gateway_decision(
            rec.previous.unwrap().latency_ms,
            rec.previous.unwrap().jitter_ms,
            rec.candidate.unwrap().latency_ms,
            rec.candidate.unwrap().jitter_ms,
        ) == GatewayOptimizationDecision::KeptFaster
    }
}

/// A measured profile whose figures are bounded.
pub open spec fn profile_bounded(p: ProfileView) -> bool {
    p.median_ms <= i64::MAX && p.jitter_ms <= u64::MAX / 2
}

/// The measurements in an event are bounded.
pub open spec fn event_bounded(e: OptimizeEventView) -> bool {
    match e {
        OptimizeEventView::BaselineMeasured(Ok(p)) => profile_bounded(p),
        OptimizeEventView::CandidateMeasured(Ok(p)) => profile_bounded(p),
        _ => true,
    }
}

// ---------------------------------------------------------------------------
// Executable sequence
// ---------------------------------------------------------------------------

impl OptimizeRecord {
    /// The record of a new optimization with this identifier.
    pub fn new(opt_id: u64) -> (r: Self)
        ensures
            r@.opt_id == opt_id,
            r@.previous is None,
            r@.candidate is None,
            record_ok(r@, OptimizeStage::AwaitBaseline),
            record_ok(r@, OptimizeStage::AwaitInitialProbe),
    {
        OptimizeRecord {
            opt_id,
            previous: None,
            candidate: None,
            decision: String::new(),
            reason: String::new(),
        }
    }
}

/// How the sequence begins for an entry decision.
pub fn optimize_begin(entry: OptimizeEntry) -> (r: (OptimizeStage, OptimizeCommand))
    ensures
        (r.0, r.1@) == optimize_start(entry),
{
    match entry {
        OptimizeEntry::Refused(m) => (
            OptimizeStage::Done,
            OptimizeCommand::Finish(OptimizeOutcome { commit_snapshot: false, result: Err(m) }),
        ),
        OptimizeEntry::ConnectedFlow => (OptimizeStage::AwaitBaseline, OptimizeCommand::MeasureBaseline),
        OptimizeEntry::InitialScanFlow => (OptimizeStage::AwaitInitialProbe, OptimizeCommand::ProbePort),
    }
}

fn optimize_prefix_exec(id: u64) -> (r: String)
    ensures
        r@ == optimize_prefix(id),
{
    let mut s = str_to_string("[Optimize #");
    let d = decimal_string(id);
    s.append(d.as_str());
    s.append("] ");
    s
}

fn clone_text(o: &Option<String>) -> (r: Option<String>)
    ensures
        opt_text(r) == opt_text(*o),
{
    match o {
        Some(s) => Some(s.clone()),
        None => None,
    }
}

fn clone_figures(f: &PathFigures) -> (r: PathFigures)
    ensures
        r@ == f@,
{
    PathFigures {
        latency_ms: f.latency_ms,
        jitter_ms: f.jitter_ms,
        pop: clone_text(&f.pop),
        ip: clone_text(&f.ip),
    }
}

fn clone_opt_figures(o: &Option<PathFigures>) -> (r: Option<PathFigures>)
    ensures
        opt_figures(r) == opt_figures(*o),
{
    match o {
        Some(f) => Some(clone_figures(f)),
        None => None,
    }
}

fn trace_fields(t: Option<CloudflareTrace>) -> (r: (Option<String>, Option<String>))
    ensures
        opt_text(r.0) == (match t {
            Some(x) => Some(x.colo@),
            None => None::<Seq<char>>,
        }),
        opt_text(r.1) == (match t {
            Some(x) => Some(x.ip@),
            None => None::<Seq<char>>,
        }),
{
    match t {
        Some(x) => (Some(x.colo), Some(x.ip)),
        None => (None, None),
    }
}

fn baseline_figures_exec(p: LatencyProfile) -> (r: PathFigures)
    ensures
        r@ == baseline_figures(profile_view(p)),
{
    let (pop, ip) = trace_fields(p.latest_trace);
    PathFigures { latency_ms: p.median_ms, jitter_ms: p.jitter_mad_ms, pop, ip }
}

fn or_unknown(o: Option<String>) -> (r: String)
    ensures
        r@ == (match opt_text(o) {
            Some(s) => s,
            None => "unknown"@,
        }),
{
    match o {
        Some(s) => s,
        None => str_to_string("unknown"),
    }
}

fn candidate_figures_exec(p: LatencyProfile) -> (r: PathFigures)
    ensures
        r@ == candidate_figures(profile_view(p)),
{
    let (pop, ip) = trace_fields(p.latest_trace);
    PathFigures {
        latency_ms: p.median_ms,
        jitter_ms: p.jitter_mad_ms,
        pop: Some(or_unknown(pop)),
        ip: Some(or_unknown(ip)),
    }
}

fn finish_with(commit: bool, result: Result<RouteOptimizationResult, String>) -> (r: OptimizeCommand)
    ensures
        r@ == done(
            commit,
            match result {
                Ok(x) => Ok(x@),
                Err(m) => Err(m@),
            },
        ),
{
    OptimizeCommand::Finish(OptimizeOutcome { commit_snapshot: commit, result })
}

fn enter_rollback_exec(
    rec: &mut OptimizeRecord,
    lc: &mut Lifecycle,
    candidate: Option<PathFigures>,
    decision: &str,
    reason: String,
) -> (r: (OptimizeStage, OptimizeCommand))
    ensures
        (final(rec)@, final(lc)@, r.0, r.1@) == enter_rollback(
            old(rec)@,
            old(lc)@,
            opt_figures(candidate),
            decision@,
            reason@,
        ),
{
    rec.candidate = candidate;
    rec.decision = str_to_string(decision);
    rec.reason = reason;
    lc.state = ConnectionState::StartingAether;
    (
        OptimizeStage::AwaitRestore,
        OptimizeCommand::RollbackTeardownAndRestore { stop_aether: lc.aether_managed },
    )
}

fn rolled_back_result_exec(rec: &OptimizeRecord) -> (r: RouteOptimizationResult)
    requires
        opt_bounded(rec@.previous),
        opt_bounded(rec@.candidate),
    ensures
        r@ == rolled_back_result(rec@),
{
    let previous_latency_ms = match &rec.previous {
        Some(f) => Some(f.latency_ms),
        None => None,
    };
    let previous_jitter_ms = match &rec.previous {
        Some(f) => Some(f.jitter_ms),
        None => None,
    };
    let previous_pop = match &rec.previous {
        Some(f) => clone_text(&f.pop),
        None => None,
    };
    let previous_ip = match &rec.previous {
        Some(f) => clone_text(&f.ip),
        None => None,
    };
    let new_latency_ms = match &rec.candidate {
        Some(f) => Some(f.latency_ms),
        None => None,
    };
    let new_jitter_ms = match &rec.candidate {
        Some(f) => Some(f.jitter_ms),
        None => None,
    };
    let new_pop = match &rec.candidate {
        Some(f) => clone_text(&f.pop),
        None => None,
    };
    let new_ip = match &rec.candidate {
        Some(f) => clone_text(&f.ip),
        None => None,
    };
    let latency_delta_ms: Option<i64> = match (&rec.previous, &rec.candidate) {
        (Some(pf), Some(cf)) => Some(pf.latency_ms as i64 - cf.latency_ms as i64),
        _ => None,
    };
    RouteOptimizationResult {
        success: false,
        previous_latency_ms,
        previous_jitter_ms,
        previous_pop,
        previous_ip,
        new_latency_ms,
        new_jitter_ms,
        new_pop,
        new_ip,
        latency_delta_ms,
        decision: rec.decision.clone(),
        message: rec.reason.clone(),
    }
}

fn kept_result_exec(prev: &PathFigures, cand: &PathFigures) -> (r: RouteOptimizationResult)
    requires
        figures_bounded(prev@),
        figures_bounded(cand@),
        cand.latency_ms <= prev.latency_ms,
    ensures
        r@ == kept_result(prev@, cand@),
{
    let mut m = str_to_string("New faster gateway kept (Median: ");
    let a = decimal_string(cand.latency_ms);
    m.append(a.as_str());
    m.append(" ms, Jitter: ");
    let b = decimal_string(cand.jitter_ms);
    m.append(b.as_str());
    m.append(" ms, improved by ");
    let c = decimal_string(prev.latency_ms - cand.latency_ms);
    m.append(c.as_str());
    m.append(" ms vs previous ");
    let d = decimal_string(prev.latency_ms);
    m.append(d.as_str());
    m.append(" ms).");
    RouteOptimizationResult {
        success: true,
        previous_latency_ms: Some(prev.latency_ms),
        previous_jitter_ms: Some(prev.jitter_ms),
        previous_pop: clone_text(&prev.pop),
        previous_ip: clone_text(&prev.ip),
        new_latency_ms: Some(cand.latency_ms),
        new_jitter_ms: Some(cand.jitter_ms),
        new_pop: clone_text(&cand.pop),
        new_ip: clone_text(&cand.ip),
        latency_delta_ms: Some(prev.latency_ms as i64 - cand.latency_ms as i64),
        decision: str_to_string("KeptFaster"),
        message: m,
    }
}

fn initial_result_exec(s: Option<LatencyProfile>) -> (r: RouteOptimizationResult)
    ensures
        r@ == initial_result(
            match s {
                Some(p) => Some(profile_view(p)),
                None => None,
            },
        ),
{
    match s {
        Some(p) => {
            let mut m = str_to_string("Connected via fresh Thorough scan (Median: ");
            let a = decimal_string(p.median_ms);
            m.append(a.as_str());
            m.append(" ms, Jitter: ");
            let b = decimal_string(p.jitter_mad_ms);
            m.append(b.as_str());
            m.append(" ms).");
            let median = p.median_ms;
            let jitter = p.jitter_mad_ms;
            let (pop, ip) = trace_fields(p.latest_trace);
            RouteOptimizationResult {
                success: true,
                previous_latency_ms: None,
                previous_jitter_ms: None,
                previous_pop: None,
                previous_ip: None,
                new_latency_ms: Some(median),
                new_jitter_ms: Some(jitter),
                new_pop: pop,
                new_ip: ip,
                latency_delta_ms: None,
                decision: str_to_string("InitialConnected"),
                message: m,
            }
        },
        None => RouteOptimizationResult {
            success: true,
            previous_latency_ms: None,
            previous_jitter_ms: None,
            previous_pop: None,
            previous_ip: None,
            new_latency_ms: None,
            new_jitter_ms: None,
            new_pop: None,
            new_ip: None,
            latency_delta_ms: None,
            decision: str_to_string("InitialConnected"),
            message: str_to_string("Connected via fresh Thorough scan."),
        },
    }
}

fn not_faster_exec(prev: &PathFigures, cand: &PathFigures, required: u64) -> (r: String)
    requires
        required == required_improvement(prev.latency_ms),
    ensures
        r@ == not_faster_reason(prev@, cand@),
{
    let mut m = str_to_string("Candidate path (Median: ");
    let a = decimal_string(cand.latency_ms);
    m.append(a.as_str());
    m.append(" ms) was not meaningfully faster than previous path (Median: ");
    let b = decimal_string(prev.latency_ms);
    m.append(b.as_str());
    m.append(" ms, required improvement: ");
    let c = decimal_string(required);
    m.append(c.as_str());
    m.append(" ms). Restoring previous gateway.");
    m
}

fn unstable_exec(prev: &PathFigures, cand: &PathFigures, max_jitter: u64) -> (r: String)
    requires
        max_jitter == max_allowable_jitter(prev.jitter_ms),
    ensures
        r@ == unstable_reason(prev@, cand@),
{
    let mut m = str_to_string("Candidate path jitter (");
    let a = decimal_string(cand.jitter_ms);
    m.append(a.as_str());
    m.append(" ms) exceeded maximum stability threshold (");
    let b = decimal_string(max_jitter);
    m.append(b.as_str());
    m.append(" ms, baseline jitter: ");
    let c = decimal_string(prev.jitter_ms);
    m.append(c.as_str());
    m.append(" ms). Restoring previous gateway.");
    m
}

fn fresh_thorough_exec() -> (r: AetherLaunchOptions)
    ensures
        r == fresh_thorough(),
{
    AetherLaunchOptions::force_fresh(Some(AetherScanMode::Thorough))
}

fn thorough_deadline() -> (r: u64)
    ensures
        r == startup_timeout_secs(AetherScanMode::Thorough),
{
    aether_startup_timeout_secs(&AetherScanMode::Thorough)
}

fn text3(a: &str, b: &str, c: &str) -> (r: String)
    ensures
        r@ == a@ + b@ + c@,
{
    let mut s = str_to_string(a);
    s.append(b);
    s.append(c);
    s
}

/// One step of the optimization sequence: applies the event observed after the previous
/// command to the record and the lifecycle, and returns the next stage and command.
#[verifier::rlimit(80)]
#[verifier::spinoff_prover]
pub fn optimize_step(
    rec: &mut OptimizeRecord,
    lc: &mut Lifecycle,
    stage: OptimizeStage,
    event: OptimizeEvent,
) -> (r: (OptimizeStage, OptimizeCommand))
    requires
        record_ok(old(rec)@, stage),
        event_bounded(event@),
    ensures
        (final(rec)@, final(lc)@, r.0, r.1@) == optimize_transition(
            old(rec)@,
            old(lc)@,
            stage,
            event@,
        ),
        record_ok(final(rec)@, r.0),
{
    match (stage, event) {
        (OptimizeStage::AwaitBaseline, OptimizeEvent::BaselineMeasured(r)) => match r {
            Err(e) => {
                let pre = optimize_prefix_exec(rec.opt_id);
                let m = text3(
                    pre.as_str(),
                    "Baseline latency measurement failed: ",
                    e.as_str(),
                );
                let m2 = concat_owned(
                    m,
                    ". Aborting optimization without disrupting active connection.",
                );
                (OptimizeStage::Done, finish_with(false, Err(m2)))
            },
            Ok(b) => {
                rec.previous = Some(baseline_figures_exec(b));
                (OptimizeStage::AwaitSnapshot, OptimizeCommand::PrepareSnapshot)
            },
        },
        (OptimizeStage::AwaitSnapshot, OptimizeEvent::SnapshotPrepared(r)) => match r {
            Err(e) => {
                let pre = optimize_prefix_exec(rec.opt_id);
                let m = text3(pre.as_str(), "Rollback snapshot preparation failed: ", e.as_str());
                let m2 = concat_owned(
                    m,
                    ". Aborting optimization without disrupting active connection.",
                );
                (OptimizeStage::Done, finish_with(false, Err(m2)))
            },
            Ok(()) => {
                lc.state = ConnectionState::ScanningAether;
                (OptimizeStage::AwaitTeardown, OptimizeCommand::StopRouterAndAwaitTeardown)
            },
        },
        (OptimizeStage::AwaitTeardown, OptimizeEvent::TeardownConfirmed(r)) => match r {
            Err(e) => {
                let reason = concat_owned(
                    str_to_string("TUN teardown could not be confirmed before fresh scan: "),
                    e.as_str(),
                );
                enter_rollback_exec(rec, lc, None, "AbortTunTeardownFailed", reason)
            },
            Ok(()) => (
                OptimizeStage::AwaitFreshSpawn,
                OptimizeCommand::SpawnFreshScan {
                    stop_managed_first: lc.aether_managed,
                    options: fresh_thorough_exec(),
                },
            ),
        },
        (OptimizeStage::AwaitFreshSpawn, OptimizeEvent::FreshSpawned(r)) => match r {
            Err(e) => enter_rollback_exec(rec, lc, None, "RollbackSpawnFailed", e),
            Ok(()) => {
                lc.aether_managed = true;
                (
                    OptimizeStage::AwaitFreshReady,
                    OptimizeCommand::PollFreshScan { deadline_secs: thorough_deadline() },
                )
            },
        },
        (OptimizeStage::AwaitFreshReady, OptimizeEvent::FreshPolled(o)) => match o {
            FreshScanObservation::NotReady => (
                OptimizeStage::AwaitFreshReady,
                OptimizeCommand::PollFreshScan { deadline_secs: thorough_deadline() },
            ),
            FreshScanObservation::Ready(ip) => {
                lc.active_aether_ip = Some(ip);
                (OptimizeStage::AwaitScanKind, OptimizeCommand::InspectScanKind)
            },
            FreshScanObservation::TimedOut(t) => {
                let reason = text3(
                    "Fresh scan did not yield a responsive gateway within ",
                    t.as_str(),
                    "s deadline",
                );
                enter_rollback_exec(rec, lc, None, "RollbackTimeout", reason)
            },
        },
        (OptimizeStage::AwaitScanKind, OptimizeEvent::ScanKind { cached_reuse }) => {
            if cached_reuse {
                let reason = str_to_string(
                    "Fresh scan was bypassed by cached endpoint reuse; restoring previous path.",
                );
                enter_rollback_exec(rec, lc, None, "FreshScanBypassed", reason)
            } else {
                (OptimizeStage::AwaitCandidate, OptimizeCommand::MeasureCandidate)
            }
        },
        (OptimizeStage::AwaitCandidate, OptimizeEvent::CandidateMeasured(r)) => match r {
            Err(e) => {
                let reason = concat_owned(
                    str_to_string("Candidate latency measurement failed: "),
                    e.as_str(),
                );
                enter_rollback_exec(rec, lc, None, "RollbackCandidateFailed", reason)
            },
            Ok(c) => {
                let cand = candidate_figures_exec(c);
                let prev = match &rec.previous {
                    Some(f) => clone_figures(f),
                    None => {
                        proof {
                            assert(false);
                        }
                        clone_figures(&cand)
                    },
                };
                let (decision, required, _delta, max_jitter) = evaluate_gateway_optimization(
                    prev.latency_ms,
                    prev.jitter_ms,
                    cand.latency_ms,
                    cand.jitter_ms,
                );
                match decision {
                    GatewayOptimizationDecision::NotEnoughLatencyImprovement => {
                        let reason = not_faster_exec(&prev, &cand, required);
                        enter_rollback_exec(
                            rec,
                            lc,
                            Some(cand),
                            "NotEnoughLatencyImprovement",
                            reason,
                        )
                    },
                    GatewayOptimizationDecision::CandidateTooUnstable => {
                        let reason = unstable_exec(&prev, &cand, max_jitter);
                        enter_rollback_exec(rec, lc, Some(cand), "CandidateTooUnstable", reason)
                    },
                    GatewayOptimizationDecision::KeptFaster => {
                        rec.candidate = Some(cand);
                        lc.state = ConnectionState::StartingRouter;
                        (OptimizeStage::AwaitRouter, OptimizeCommand::StartRouter)
                    },
                }
            },
        },
        (OptimizeStage::AwaitRouter, OptimizeEvent::RouterStarted(r)) => match r {
            Err(e) => {
                let cand = clone_opt_figures(&rec.candidate);
                enter_rollback_exec(rec, lc, cand, "RollbackSingboxFailed", e)
            },
            Ok(()) => {
                lc.state = ConnectionState::TestingRouting;
                (OptimizeStage::AwaitVerification, OptimizeCommand::VerifyRouting)
            },
        },
        (OptimizeStage::AwaitVerification, OptimizeEvent::Verified(r)) => match r {
            Err(v) => {
                let cand = clone_opt_figures(&rec.candidate);
                enter_rollback_exec(rec, lc, cand, "RollbackRoutingVerificationFailed", v)
            },
            Ok(()) => {
                let result = match (&rec.previous, &rec.candidate) {
                    (Some(pf), Some(cf)) => kept_result_exec(pf, cf),
                    _ => {
                        proof {
                            assert(false);
                        }
                        rolled_back_result_exec(rec)
                    },
                };
                lc.state = ConnectionState::Connected;
                (OptimizeStage::Done, finish_with(true, Ok(result)))
            },
        },
        (OptimizeStage::AwaitRestore, OptimizeEvent::SnapshotRestored(r)) => match r {
            Err(e) => {
                let pre = optimize_prefix_exec(rec.opt_id);
                let m = text3(
                    pre.as_str(),
                    "Fatal: Failed to restore native lastconn persistence snapshot: ",
                    e.as_str(),
                );
                let m2 = concat_owned(m, ". Aborting rollback without launching corrupted state.");
                set_error(lc, m2.as_str());
                (OptimizeStage::Done, finish_with(false, Err(m2)))
            },
            Ok(()) => (
                OptimizeStage::AwaitReconnect,
                OptimizeCommand::Reconnect(AetherLaunchOptions::force_quick_reconnect()),
            ),
        },
        (OptimizeStage::AwaitReconnect, OptimizeEvent::Reconnected(r)) => match r {
            Ok(()) => {
                let result = rolled_back_result_exec(rec);
                (OptimizeStage::Done, finish_with(false, Ok(result)))
            },
            Err(re) => {
                let m = text3("Optimization rollback failed (", rec.reason.as_str(), ") AND restoration of previous connection also failed (");
                let m2 = concat_owned(m, re.as_str());
                let m3 = concat_owned(m2, ")");
                set_error(lc, m3.as_str());
                (OptimizeStage::Done, finish_with(false, Err(m3)))
            },
        },
        (OptimizeStage::AwaitInitialProbe, OptimizeEvent::PortProbed(open)) => {
            if open {
                (OptimizeStage::Done, finish_with(false, Err(external_listener_refusal())))
            } else {
                lc.state = ConnectionState::StartingAether;
                (
                    OptimizeStage::AwaitInitialConnect,
                    OptimizeCommand::AwaitTeardownThenConnect(fresh_thorough_exec()),
                )
            }
        },
        (OptimizeStage::AwaitInitialConnect, OptimizeEvent::InitialConnected(r)) => match r {
            Err(e) => (OptimizeStage::Done, finish_with(false, Err(e))),
            Ok(()) => (OptimizeStage::AwaitInitialSamples, OptimizeCommand::MeasureSamples),
        },
        (OptimizeStage::AwaitInitialSamples, OptimizeEvent::SamplesMeasured(sm)) => {
            let result = initial_result_exec(sm);
            (OptimizeStage::Done, finish_with(false, Ok(result)))
        },
        _ => (
            stage,
            finish_with(
                false,
                Err(str_to_string("Unexpected event for the current optimization stage")),
            ),
        ),
    }
}

fn concat_owned(mut a: String, b: &str) -> (r: String)
    ensures
        r@ == a@ + b@,
{
    a.append(b);
    a
}

// ---------------------------------------------------------------------------
// Laws of the optimization sequence
// ---------------------------------------------------------------------------

/// The event is one that the stage waits for.
pub open spec fn optimize_expects(stage: OptimizeStage, event: OptimizeEventView) -> bool {
    match (stage, event) {
        (OptimizeStage::AwaitBaseline, OptimizeEventView::BaselineMeasured(_)) => true,
        (OptimizeStage::AwaitSnapshot, OptimizeEventView::SnapshotPrepared(_)) => true,
        (OptimizeStage::AwaitTeardown, OptimizeEventView::TeardownConfirmed(_)) => true,
        (OptimizeStage::AwaitFreshSpawn, OptimizeEventView::FreshSpawned(_)) => true,
        (OptimizeStage::AwaitFreshReady, OptimizeEventView::FreshPolled(_)) => true,
        (OptimizeStage::AwaitScanKind, OptimizeEventView::ScanKind { .. }) => true,
        (OptimizeStage::AwaitCandidate, OptimizeEventView::CandidateMeasured(_)) => true,
        (OptimizeStage::AwaitRouter, OptimizeEventView::RouterStarted(_)) => true,
        (OptimizeStage::AwaitVerification, OptimizeEventView::Verified(_)) => true,
        (OptimizeStage::AwaitRestore, OptimizeEventView::SnapshotRestored(_)) => true,
        (OptimizeStage::AwaitReconnect, OptimizeEventView::Reconnected(_)) => true,
        (OptimizeStage::AwaitInitialProbe, OptimizeEventView::PortProbed(_)) => true,
        (OptimizeStage::AwaitInitialConnect, OptimizeEventView::InitialConnected(_)) => true,
        (OptimizeStage::AwaitInitialSamples, OptimizeEventView::SamplesMeasured(_)) => true,
        _ => false,
    }
}

/// The stages in which the active connection has been torn down for the fresh scan.
pub open spec fn disrupted(stage: OptimizeStage) -> bool {
    match stage {
        OptimizeStage::AwaitTeardown | OptimizeStage::AwaitFreshSpawn
        | OptimizeStage::AwaitFreshReady | OptimizeStage::AwaitScanKind
        | OptimizeStage::AwaitCandidate | OptimizeStage::AwaitRouter
        | OptimizeStage::AwaitVerification => true,
        _ => false,
    }
}

/// The command ends the sequence with an error.
pub open spec fn ends_in_error(c: OptimizeCommandView) -> bool {
    match c {
        OptimizeCommandView::Finish { result, .. } => result is Err,
        _ => false,
    }
}

/// Once the active connection has been torn down for the fresh scan, no failure ends the
/// optimization directly: every failure enters the rollback, which sets `StartingAether`,
/// stops the router (and the managed Aether) and restores the snapshot of the previous
/// gateway.
pub proof fn law_disruption_always_rolls_back(
    rec: OptimizeRecordView,
    lc: LifecycleView,
    stage: OptimizeStage,
    event: OptimizeEventView,
)
    requires
        record_ok(rec, stage),
        disrupted(stage),
        optimize_expects(stage, event),
    ensures
        ({
            let (rec2, lc2, st2, cmd) = optimize_transition(rec, lc, stage, event);
            &&& !ends_in_error(cmd)
            &&& st2 == OptimizeStage::AwaitRestore ==> {
                &&& lc2.state == ConnectionState::StartingAether
                &&& cmd == OptimizeCommandView::RollbackTeardownAndRestore {
                    stop_aether: lc.aether_managed,
                }
                &&& rec2.previous == rec.previous
            }
        }),
{
}

/// A failure before the teardown (baseline measurement or snapshot preparation) leaves the
/// active connection untouched.
pub proof fn law_early_failure_keeps_connection(
    rec: OptimizeRecordView,
    lc: LifecycleView,
    stage: OptimizeStage,
    event: OptimizeEventView,
)
    requires
        stage == OptimizeStage::AwaitBaseline || stage == OptimizeStage::AwaitSnapshot,
        optimize_expects(stage, event),
        ends_in_error(optimize_transition(rec, lc, stage, event).3),
    ensures
        optimize_transition(rec, lc, stage, event).1 == lc,
{
}

/// A new gateway is kept only after a successful routing verification, only when it is
/// faster than the previous one by at least 10 ms and by at least 5% of the previous median,
/// and only when its jitter is within the stability threshold; the connection is then
/// `Connected` and the rollback snapshot is discarded.
pub proof fn law_kept_gateway_is_verified_faster_and_stable(
    rec: OptimizeRecordView,
    lc: LifecycleView,
    stage: OptimizeStage,
    event: OptimizeEventView,
)
    requires
        record_ok(rec, stage),
        optimize_transition(rec, lc, stage, event).3 matches OptimizeCommandView::Finish {
            commit_snapshot: true,
            ..
        },
    ensures
        ({
            let (_, lc2, _, cmd) = optimize_transition(rec, lc, stage, event);
            let res = cmd->result->Ok_0;
            &&& stage == OptimizeStage::AwaitVerification
            &&& event matches OptimizeEventView::Verified(Ok(_))
            &&& lc2.state == ConnectionState::Connected
            &&& cmd->result is Ok
            &&& res.success
            &&& res.new_latency_ms.unwrap() + 10 <= res.previous_latency_ms.unwrap()
            &&& res.new_latency_ms.unwrap() + (res.previous_latency_ms.unwrap() + 10) / 20
                <= res.previous_latency_ms.unwrap()
            &&& res.new_jitter_ms.unwrap() <= max_allowable_jitter(res.previous_jitter_ms.unwrap())
            &&& res.latency_delta_ms == Some(
                res.previous_latency_ms.unwrap() - res.new_latency_ms.unwrap(),
            )
        }),
{
    let prev = rec.previous.unwrap();
    let cand = rec.candidate.unwrap();
    crate::process::orchestrator::law_kept_gateway_is_faster_and_stable(
        prev.latency_ms,
        prev.jitter_ms,
        cand.latency_ms,
        cand.jitter_ms,
    );
}

/// A restored rollback reports no success, carries the decision and reason that started
/// the rollback, and keeps the figures of the previous path.
pub proof fn law_restored_rollback_reports_failure(
    rec: OptimizeRecordView,
    lc: LifecycleView,
)
    ensures
        ({
            let (_, lc2, st2, cmd) = optimize_transition(
                rec,
                lc,
                OptimizeStage::AwaitReconnect,
                OptimizeEventView::Reconnected(Ok(())),
            );
            &&& st2 == OptimizeStage::Done
            &&& lc2 == lc
            &&& cmd == done(false, Ok(rolled_back_result(rec)))
            &&& !rolled_back_result(rec).success
            &&& rolled_back_result(rec).decision == rec.decision
            &&& rolled_back_result(rec).message == rec.reason
            &&& rolled_back_result(rec).previous_latency_ms == fig_latency(rec.previous)
        }),
{
}

} // verus!
