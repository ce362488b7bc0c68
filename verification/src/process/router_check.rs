//! The router verification that follows every launch of the sing-box TUN router: the
//! process stays alive, the TUN adapter appears and stays for a stabilization window, and
//! the staged egress verification passes.
//!
//! The checks themselves (process liveness, adapter enumeration, the clock, sleeping, the
//! egress stages) are performed by the caller; this module decides, from each observation,
//! what to observe next and how the verification ends.
use vstd::prelude::*;
use crate::health::probe::{join, join_exec, string_texts, DetectedAdapterInfo};
use crate::text::{decimal, decimal_string, str_to_string};

verus! {

/// Fixed parameters of one router verification (durations in milliseconds).
#[derive(Debug, Clone)]
pub struct RouterCheckContext {
    pub interface_name: String,
    pub tun_address: Option<String>,
    /// How long the adapter may take to appear.
    pub max_duration_ms: u64,
    /// How long a detected adapter must stay present.
    pub stabilization_ms: u64,
    /// Pause between two stabilization checks.
    pub stabilization_interval_ms: u64,
}

/// What the verification remembers between observations.
#[derive(Debug, Clone)]
pub struct RouterCheckRecord {
    /// Clock reading at the start of the verification.
    pub start_ms: u64,
    /// Clock reading at the start of the current stabilization window.
    pub stabilization_start_ms: u64,
    /// Description of the adapter that was last detected.
    pub adapter_text: String,
    /// Listing of the adapters reported by the last discovery poll.
    pub adapter_summary: String,
}

/// Why a stabilization window failed.
#[derive(Debug, Clone, Copy, PartialEq, Eq, Structural)]
pub enum StabilizationFailure {
    ProcessExited,
    AdapterDisappeared,
}

/// Where the verification stands.
#[derive(Debug, Clone, Copy, PartialEq, Eq, Structural)]
pub enum RouterCheckStage {
    /// The first liveness check, before discovery starts.
    Initial,
    /// Reading the clock at the head of the discovery loop.
    LoopClock,
    /// Liveness check inside the discovery loop.
    LoopAlive,
    /// Looking for the adapter.
    LoopTun,
    /// Pausing between two discovery polls.
    DiscoverySleep,
    /// Liveness check right after the adapter was found.
    FoundAlive,
    /// Reading the clock that starts a stabilization window.
    StabilizationStart,
    /// Reading the clock at the head of the stabilization window.
    StabilizationClock,
    /// Pausing inside the stabilization window.
    StabilizationSleep,
    /// Liveness check inside the stabilization window.
    StabilizationAlive,
    /// Adapter check inside the stabilization window.
    StabilizationTun,
    /// The window failed; the liveness check decides whether to keep looking.
    StabilizationFailedAlive(StabilizationFailure),
    /// Discovery timed out; the last liveness check before giving up.
    AfterLoopAlive,
    /// Liveness check before the egress stages.
    PreEgressAlive,
    /// The egress stages are running.
    EgressRunning,
    /// Liveness check after the egress stages.
    PostEgressAlive,
    /// Finished.
    Done,
}

/// An observation handed back to the verification.
#[derive(Debug)]
pub enum RouterCheckEvent {
    /// Starts the verification at the given clock reading.
    Begin { now_ms: u64 },
    /// The router process is running.
    Alive(bool),
    /// A clock reading in milliseconds.
    Clock(u64),
    /// Adapter check: whether the adapter was found, the matching adapter, and every
    /// adapter that was reported.
    Tun { found: bool, matched: Option<DetectedAdapterInfo>, adapters: Vec<DetectedAdapterInfo> },
    /// The requested pause is over.
    Slept,
    /// Result of the staged egress verification.
    Egress(Result<(), String>),
}

/// The next thing for the caller to do.
#[derive(Debug)]
pub enum RouterCheckCommand {
    /// Report whether the router process is running.
    CheckAlive,
    /// Report the clock.
    ReadClock,
    /// Look for the adapter of the context and report it.
    CheckTun,
    /// Pause for this many milliseconds.
    Sleep(u64),
    /// Run the staged egress verification; `adapter` describes the verified adapter.
    RunEgress { adapter: String },
    /// The verification is over: an optional warning to log, and the result (the adapter's
    /// description on success).
    Finish { warning: Option<String>, result: Result<String, String> },
}

/// Model of the record.
pub struct RouterCheckRecordView {
    pub start_ms: u64,
    pub stabilization_start_ms: u64,
    pub adapter_text: Seq<char>,
    pub adapter_summary: Seq<char>,
}

impl View for RouterCheckRecord {
    type V = RouterCheckRecordView;

    open spec fn view(&self) -> RouterCheckRecordView {
        RouterCheckRecordView {
            start_ms: self.start_ms,
            stabilization_start_ms: self.stabilization_start_ms,
            adapter_text: self.adapter_text@,
            adapter_summary: self.adapter_summary@,
        }
    }
}

/// Model of an event.
pub enum RouterCheckEventView {
    Begin { now_ms: u64 },
    Alive(bool),
    Clock(u64),
    Tun { found: bool, matched: Option<DetectedAdapterInfo>, adapters: Seq<DetectedAdapterInfo> },
    Slept,
    Egress(Result<(), Seq<char>>),
}

impl View for RouterCheckEvent {
    type V = RouterCheckEventView;

    open spec fn view(&self) -> RouterCheckEventView {
        match self {
            RouterCheckEvent::Begin { now_ms } => RouterCheckEventView::Begin { now_ms: *now_ms },
            RouterCheckEvent::Alive(a) => RouterCheckEventView::Alive(*a),
            RouterCheckEvent::Clock(t) => RouterCheckEventView::Clock(*t),
            RouterCheckEvent::Tun { found, matched, adapters } => RouterCheckEventView::Tun {
                found: *found,
                matched: *matched,
                adapters: adapters@,
            },
            RouterCheckEvent::Slept => RouterCheckEventView::Slept,
            RouterCheckEvent::Egress(r) => RouterCheckEventView::Egress(
                match r {
                    Ok(()) => Ok(()),
                    Err(e) => Err(e@),
                },
            ),
        }
    }
}

/// Model of a command.
pub enum RouterCheckCommandView {
    CheckAlive,
    ReadClock,
    CheckTun,
    Sleep(u64),
    RunEgress { adapter: Seq<char> },
    Finish { warning: Option<Seq<char>>, result: Result<Seq<char>, Seq<char>> },
}

impl View for RouterCheckCommand {
    type V = RouterCheckCommandView;

    open spec fn view(&self) -> RouterCheckCommandView {
        match self {
            RouterCheckCommand::CheckAlive => RouterCheckCommandView::CheckAlive,
            RouterCheckCommand::ReadClock => RouterCheckCommandView::ReadClock,
            RouterCheckCommand::CheckTun => RouterCheckCommandView::CheckTun,
            RouterCheckCommand::Sleep(ms) => RouterCheckCommandView::Sleep(*ms),
            RouterCheckCommand::RunEgress { adapter } => RouterCheckCommandView::RunEgress {
                adapter: adapter@,
            },
            RouterCheckCommand::Finish { warning, result } => RouterCheckCommandView::Finish {
                warning: match warning {
                    Some(w) => Some(w@),
                    None => None,
                },
                result: match result {
                    Ok(a) => Ok(a@),
                    Err(e) => Err(e@),
                },
            },
        }
    }
}

// ---------------------------------------------------------------------------
// Texts
// ---------------------------------------------------------------------------

/// std's `Debug` rendering of a list of strings (`["a", "b"]`, each item quoted and
/// escaped).
pub uninterp spec fn debug_string_list(items: Seq<Seq<char>>) -> Seq<char>;

/// `format!("{:?}", items)` for a list of strings.
#[verifier::external_body]
fn debug_strings(items: &Vec<String>) -> (r: String)
    ensures
        r@ == debug_string_list(string_texts(items@)),
{
    format!("{:?}", items)
}

/// How the verified adapter is described.
pub open spec fn adapter_label(a: DetectedAdapterInfo) -> Seq<char> {
    "'"@ + a.friendly_name@ + "' (Description: '"@ + a.description@ + "', Index: "@ + decimal(
        a.if_index as nat,
    ) + ", IP: "@ + debug_string_list(string_texts(a.ip_addresses@)) + ")"@
}

/// The description of a detected adapter, or the interface name when none matched.
pub open spec fn label_or_name(matched: Option<DetectedAdapterInfo>, interface_name: Seq<char>) -> Seq<char> {
    match matched {
        Some(a) => adapter_label(a),
        None => interface_name,
    }
}

/// `true` or `false`.
pub open spec fn bool_text(b: bool) -> Seq<char> {
    if b {
        "true"@
    } else {
        "false"@
    }
}

/// The addresses of an adapter, comma separated, or `none`.
pub open spec fn ips_text(a: DetectedAdapterInfo) -> Seq<char> {
    if a.ip_addresses@.len() == 0 {
        "none"@
    } else {
        join(string_texts(a.ip_addresses@), ", "@)
    }
}

/// One line of the adapter listing.
pub open spec fn adapter_line(a: DetectedAdapterInfo) -> Seq<char> {
    "  - '"@ + a.friendly_name@ + "' ("@ + a.description@ + ") [Index: "@ + decimal(
        a.if_index as nat,
    ) + ", Up: "@ + bool_text(a.is_up) + ", IPs: "@ + ips_text(a) + "]"@
}

/// The listing lines of the adapters, in order.
pub open spec fn adapter_lines(adapters: Seq<DetectedAdapterInfo>) -> Seq<Seq<char>>
    decreases adapters.len(),
{
    if adapters.len() == 0 {
        Seq::empty()
    } else {
        adapter_lines(adapters.drop_last()).push(adapter_line(adapters.last()))
    }
}

/// The adapter listing of a warning.
pub open spec fn adapter_summary(adapters: Seq<DetectedAdapterInfo>) -> Seq<char> {
    if adapters.len() == 0 {
        "  (No network adapters reported by IP Helper API)"@
    } else {
        join(adapter_lines(adapters), "\n"@)
    }
}

/// The configured TUN address, or `none`.
pub open spec fn tun_or_none(ctx: RouterCheckContext) -> Seq<char> {
    match ctx.tun_address {
        Some(t) => t@,
        None => "none"@,
    }
}

/// The warning logged when the adapter never appeared.
pub open spec fn not_detected_warning(ctx: RouterCheckContext, summary: Seq<char>) -> Seq<char> {
    "TUN network adapter not detected. Expected: name='"@ + ctx.interface_name@ + "', IP='"@
        + tun_or_none(ctx) + "'. Detected adapters in network stack:\n"@ + summary
}

/// The error of an adapter that never appeared.
pub open spec fn not_detected_message(ctx: RouterCheckContext) -> Seq<char> {
    "TUN network adapter '"@ + ctx.interface_name@ + "' (IP: '"@ + tun_or_none(ctx)
        + "') not detected in network stack"@
}

/// The error of a failed stabilization window.
pub open spec fn stabilization_message(f: StabilizationFailure) -> Seq<char> {
    match f {
        StabilizationFailure::ProcessExited => "sing-box process exited during TUN stabilization window"@,
        StabilizationFailure::AdapterDisappeared => "TUN interface disappeared during stabilization window"@,
    }
}

/// Milliseconds from `start` to `now` (zero if the clock went backwards).
pub open spec fn elapsed_ms(start: u64, now: u64) -> u64 {
    if now >= start {
        (now - start) as u64
    } else {
        0
    }
}

/// Pause between two discovery polls.
pub const DISCOVERY_POLL_MS: u64 = 100;

// ---------------------------------------------------------------------------
// Transition
// ---------------------------------------------------------------------------

/// The record of a verification that starts at `now_ms`.
pub open spec fn begin_record(ctx: RouterCheckContext, now_ms: u64) -> RouterCheckRecordView {
    RouterCheckRecordView {
        start_ms: now_ms,
        stabilization_start_ms: now_ms,
        adapter_text: ctx.interface_name@,
        adapter_summary: adapter_summary(Seq::empty()),
    }
}

/// A finishing error.
pub open spec fn fail(rec: RouterCheckRecordView, msg: Seq<char>) -> (
    RouterCheckRecordView,
    RouterCheckStage,
    RouterCheckCommandView,
) {
    (rec, RouterCheckStage::Done, RouterCheckCommandView::Finish { warning: None, result: Err(msg) })
}

/// One transition of the router verification: the new record, the next stage and the next
/// command.
pub open spec fn router_check_transition(
    ctx: RouterCheckContext,
    rec: RouterCheckRecordView,
    stage: RouterCheckStage,
    event: RouterCheckEventView,
) -> (RouterCheckRecordView, RouterCheckStage, RouterCheckCommandView) {
    match (stage, event) {
        (_, RouterCheckEventView::Begin { now_ms }) => (
            begin_record(ctx, now_ms),
            RouterCheckStage::Initial,
            RouterCheckCommandView::CheckAlive,
        ),
        (RouterCheckStage::Initial, RouterCheckEventView::Alive(a)) => if !a {
            fail(rec, "sing-box process exited before TUN discovery"@)
        } else {
            (rec, RouterCheckStage::LoopClock, RouterCheckCommandView::ReadClock)
        },
        (RouterCheckStage::LoopClock, RouterCheckEventView::Clock(now)) => if elapsed_ms(
            rec.start_ms,
            now,
        ) < ctx.max_duration_ms {
            (rec, RouterCheckStage::LoopAlive, RouterCheckCommandView::CheckAlive)
        } else {
            (rec, RouterCheckStage::AfterLoopAlive, RouterCheckCommandView::CheckAlive)
        },
        (RouterCheckStage::LoopAlive, RouterCheckEventView::Alive(a)) => if !a {
            fail(rec, "sing-box process exited during TUN initialization"@)
        } else {
            (rec, RouterCheckStage::LoopTun, RouterCheckCommandView::CheckTun)
        },
        (RouterCheckStage::LoopTun, RouterCheckEventView::Tun { found, matched, adapters }) => {
            let listed = RouterCheckRecordView { adapter_summary: adapter_summary(adapters), ..rec };
            if found {
                (
                    RouterCheckRecordView {
                        adapter_text: label_or_name(matched, ctx.interface_name@),
                        ..listed
                    },
                    RouterCheckStage::FoundAlive,
                    RouterCheckCommandView::CheckAlive,
                )
            } else {
                (listed, RouterCheckStage::DiscoverySleep, RouterCheckCommandView::Sleep(DISCOVERY_POLL_MS))
            }
        },
        (RouterCheckStage::DiscoverySleep, RouterCheckEventView::Slept) => (
            rec,
            RouterCheckStage::LoopClock,
            RouterCheckCommandView::ReadClock,
        ),
        (RouterCheckStage::FoundAlive, RouterCheckEventView::Alive(a)) => if !a {
            fail(rec, "sing-box process exited during TUN initialization"@)
        } else {
            (rec, RouterCheckStage::StabilizationStart, RouterCheckCommandView::ReadClock)
        },
        (RouterCheckStage::StabilizationStart, RouterCheckEventView::Clock(now)) => {
            let started = RouterCheckRecordView { stabilization_start_ms: now, ..rec };
            if 0 < ctx.stabilization_ms {
                (
                    started,
                    RouterCheckStage::StabilizationSleep,
                    RouterCheckCommandView::Sleep(ctx.stabilization_interval_ms),
                )
            } else {
                (started, RouterCheckStage::PreEgressAlive, RouterCheckCommandView::CheckAlive)
            }
        },
        (RouterCheckStage::StabilizationClock, RouterCheckEventView::Clock(now)) => if elapsed_ms(
            rec.stabilization_start_ms,
            now,
        ) < ctx.stabilization_ms {
            (
                rec,
                RouterCheckStage::StabilizationSleep,
                RouterCheckCommandView::Sleep(ctx.stabilization_interval_ms),
            )
        } else {
            (rec, RouterCheckStage::PreEgressAlive, RouterCheckCommandView::CheckAlive)
        },
        (RouterCheckStage::StabilizationSleep, RouterCheckEventView::Slept) => (
            rec,
            RouterCheckStage::StabilizationAlive,
            RouterCheckCommandView::CheckAlive,
        ),
        (RouterCheckStage::StabilizationAlive, RouterCheckEventView::Alive(a)) => if !a {
            (
                rec,
                RouterCheckStage::StabilizationFailedAlive(StabilizationFailure::ProcessExited),
                RouterCheckCommandView::CheckAlive,
            )
        } else {
            (rec, RouterCheckStage::StabilizationTun, RouterCheckCommandView::CheckTun)
        },
        (RouterCheckStage::StabilizationTun, RouterCheckEventView::Tun { found, .. }) => if !found {
            (
                rec,
                RouterCheckStage::StabilizationFailedAlive(StabilizationFailure::AdapterDisappeared),
                RouterCheckCommandView::CheckAlive,
            )
        } else {
            (rec, RouterCheckStage::StabilizationClock, RouterCheckCommandView::ReadClock)
        },
        (RouterCheckStage::StabilizationFailedAlive(f), RouterCheckEventView::Alive(a)) => if !a {
            fail(rec, stabilization_message(f))
        } else {
            (rec, RouterCheckStage::LoopClock, RouterCheckCommandView::ReadClock)
        },
        (RouterCheckStage::AfterLoopAlive, RouterCheckEventView::Alive(a)) => if !a {
            fail(rec, "sing-box process exited during TUN initialization"@)
        } else {
            (
                rec,
                RouterCheckStage::Done,
                RouterCheckCommandView::Finish {
                    warning: Some(not_detected_warning(ctx, rec.adapter_summary)),
                    result: Err(not_detected_message(ctx)),
                },
            )
        },
        (RouterCheckStage::PreEgressAlive, RouterCheckEventView::Alive(a)) => if !a {
            fail(rec, "sing-box process exited before staged egress verification"@)
        } else {
            (
                rec,
                RouterCheckStage::EgressRunning,
                RouterCheckCommandView::RunEgress { adapter: rec.adapter_text },
            )
        },
        (RouterCheckStage::EgressRunning, RouterCheckEventView::Egress(r)) => match r {
            Err(e) => fail(rec, e),
            Ok(()) => (rec, RouterCheckStage::PostEgressAlive, RouterCheckCommandView::CheckAlive),
        },
        (RouterCheckStage::PostEgressAlive, RouterCheckEventView::Alive(a)) => if !a {
            fail(rec, "sing-box process exited during routing verification"@)
        } else {
            (
                rec,
                RouterCheckStage::Done,
                RouterCheckCommandView::Finish { warning: None, result: Ok(rec.adapter_text) },
            )
        },
        _ => (
            rec,
            stage,
            RouterCheckCommandView::Finish {
                warning: None,
                result: Err("Unexpected event for the current router check stage"@),
            },
        ),
    }
}

// ---------------------------------------------------------------------------
// Executable transition
// ---------------------------------------------------------------------------

fn adapter_label_exec(a: &DetectedAdapterInfo) -> (r: String)
    ensures
        r@ == adapter_label(*a),
{
    let mut s = str_to_string("'");
    s.append(a.friendly_name.as_str());
    s.append("' (Description: '");
    s.append(a.description.as_str());
    s.append("', Index: ");
    let idx = decimal_string(a.if_index as u64);
    s.append(idx.as_str());
    s.append(", IP: ");
    let ips = debug_strings(&a.ip_addresses);
    s.append(ips.as_str());
    s.append(")");
    s
}

fn bool_text_exec(b: bool) -> (r: &'static str)
    ensures
        r@ == bool_text(b),
{
    if b {
        "true"
    } else {
        "false"
    }
}

fn adapter_line_exec(a: &DetectedAdapterInfo) -> (r: String)
    ensures
        r@ == adapter_line(*a),
{
    let mut s = str_to_string("  - '");
    s.append(a.friendly_name.as_str());
    s.append("' (");
    s.append(a.description.as_str());
    s.append(") [Index: ");
    let idx = decimal_string(a.if_index as u64);
    s.append(idx.as_str());
    s.append(", Up: ");
    s.append(bool_text_exec(a.is_up));
    s.append(", IPs: ");
    if a.ip_addresses.len() == 0 {
        s.append("none");
    } else {
        let j = join_exec(&a.ip_addresses, ", ");
        s.append(j.as_str());
    }
    s.append("]");
    s
}

fn adapter_summary_exec(adapters: &Vec<DetectedAdapterInfo>) -> (r: String)
    ensures
        r@ == adapter_summary(adapters@),
{
    if adapters.len() == 0 {
        return str_to_string("  (No network adapters reported by IP Helper API)");
    }
    let mut lines: Vec<String> = Vec::new();
    let mut k: usize = 0;
    while k < adapters.len()
        invariant
            k <= adapters@.len(),
            string_texts(lines@) == adapter_lines(adapters@.take(k as int)),
        decreases adapters@.len() - k,
    {
        let line = adapter_line_exec(&adapters[k]);
        proof {
            assert(adapters@.take(k + 1).drop_last() =~= adapters@.take(k as int));
        }
        lines.push(line);
        proof {
            assert(string_texts(lines@) =~= adapter_lines(adapters@.take(k + 1)));
        }
        k = k + 1;
    }
    proof {
        assert(adapters@.take(k as int) =~= adapters@);
    }
    join_exec(&lines, "\n")
}

fn tun_or_none_exec(ctx: &RouterCheckContext) -> (r: &str)
    ensures
        r@ == tun_or_none(*ctx),
{
    match &ctx.tun_address {
        Some(t) => t.as_str(),
        None => "none",
    }
}

fn finish_err(msg: String) -> (r: (RouterCheckStage, RouterCheckCommand))
    ensures
        r.0 == RouterCheckStage::Done,
        r.1@ == (RouterCheckCommandView::Finish { warning: None, result: Err(msg@) }),
{
    (RouterCheckStage::Done, RouterCheckCommand::Finish { warning: None, result: Err(msg) })
}

/// Starts a verification at the clock reading `now_ms`; the first command is a liveness
/// check.
pub fn router_check_begin(ctx: &RouterCheckContext, now_ms: u64) -> (r: (
    RouterCheckRecord,
    RouterCheckStage,
    RouterCheckCommand,
))
    ensures
        r.0@ == begin_record(*ctx, now_ms),
        r.1 == RouterCheckStage::Initial,
        r.2@ == RouterCheckCommandView::CheckAlive,
{
    let empty: Vec<DetectedAdapterInfo> = Vec::new();
    let summary = adapter_summary_exec(&empty);
    proof {
        assert(empty@ =~= Seq::<DetectedAdapterInfo>::empty());
    }
    (
        RouterCheckRecord {
            start_ms: now_ms,
            stabilization_start_ms: now_ms,
            adapter_text: ctx.interface_name.clone(),
            adapter_summary: summary,
        },
        RouterCheckStage::Initial,
        RouterCheckCommand::CheckAlive,
    )
}

/// One step of the router verification: applies the observation to the record and returns
/// the next stage and the next command. The caller performs each command and hands back
/// what it observed until a `Finish` command ends the verification.
#[verifier::rlimit(40)]
pub fn router_check_step(
    ctx: &RouterCheckContext,
    rec: &mut RouterCheckRecord,
    stage: RouterCheckStage,
    event: RouterCheckEvent,
) -> (r: (RouterCheckStage, RouterCheckCommand))
    ensures
        (final(rec)@, r.0, r.1@) == router_check_transition(*ctx, old(rec)@, stage, event@),
{
    match event {
        RouterCheckEvent::Begin { now_ms } => {
            let (fresh, st, cmd) = router_check_begin(ctx, now_ms);
            *rec = fresh;
            return (st, cmd);
        },
        _ => {},
    }
    match (stage, event) {
        (RouterCheckStage::Initial, RouterCheckEvent::Alive(a)) => if !a {
            finish_err(str_to_string("sing-box process exited before TUN discovery"))
        } else {
            (RouterCheckStage::LoopClock, RouterCheckCommand::ReadClock)
        },
        (RouterCheckStage::LoopClock, RouterCheckEvent::Clock(now)) => {
            let el: u64 = if now >= rec.start_ms { now - rec.start_ms } else { 0 };
            if el < ctx.max_duration_ms {
                (RouterCheckStage::LoopAlive, RouterCheckCommand::CheckAlive)
            } else {
                (RouterCheckStage::AfterLoopAlive, RouterCheckCommand::CheckAlive)
            }
        },
        (RouterCheckStage::LoopAlive, RouterCheckEvent::Alive(a)) => if !a {
            finish_err(str_to_string("sing-box process exited during TUN initialization"))
        } else {
            (RouterCheckStage::LoopTun, RouterCheckCommand::CheckTun)
        },
        (RouterCheckStage::LoopTun, RouterCheckEvent::Tun { found, matched, adapters }) => {
            rec.adapter_summary = adapter_summary_exec(&adapters);
            if found {
                rec.adapter_text = match &matched {
                    Some(a) => adapter_label_exec(a),
                    None => ctx.interface_name.clone(),
                };
                (RouterCheckStage::FoundAlive, RouterCheckCommand::CheckAlive)
            } else {
                (RouterCheckStage::DiscoverySleep, RouterCheckCommand::Sleep(DISCOVERY_POLL_MS))
            }
        },
        (RouterCheckStage::DiscoverySleep, RouterCheckEvent::Slept) => (
            RouterCheckStage::LoopClock,
            RouterCheckCommand::ReadClock,
        ),
        (RouterCheckStage::FoundAlive, RouterCheckEvent::Alive(a)) => if !a {
            finish_err(str_to_string("sing-box process exited during TUN initialization"))
        } else {
            (RouterCheckStage::StabilizationStart, RouterCheckCommand::ReadClock)
        },
        (RouterCheckStage::StabilizationStart, RouterCheckEvent::Clock(now)) => {
            rec.stabilization_start_ms = now;
            if 0 < ctx.stabilization_ms {
                (
                    RouterCheckStage::StabilizationSleep,
                    RouterCheckCommand::Sleep(ctx.stabilization_interval_ms),
                )
            } else {
                (RouterCheckStage::PreEgressAlive, RouterCheckCommand::CheckAlive)
            }
        },
        (RouterCheckStage::StabilizationClock, RouterCheckEvent::Clock(now)) => {
            let el: u64 = if now >= rec.stabilization_start_ms {
                now - rec.stabilization_start_ms
            } else {
                0
            };
            if el < ctx.stabilization_ms {
                (
                    RouterCheckStage::StabilizationSleep,
                    RouterCheckCommand::Sleep(ctx.stabilization_interval_ms),
                )
            } else {
                (RouterCheckStage::PreEgressAlive, RouterCheckCommand::CheckAlive)
            }
        },
        (RouterCheckStage::StabilizationSleep, RouterCheckEvent::Slept) => (
            RouterCheckStage::StabilizationAlive,
            RouterCheckCommand::CheckAlive,
        ),
        (RouterCheckStage::StabilizationAlive, RouterCheckEvent::Alive(a)) => if !a {
            (
                RouterCheckStage::StabilizationFailedAlive(StabilizationFailure::ProcessExited),
                RouterCheckCommand::CheckAlive,
            )
        } else {
            (RouterCheckStage::StabilizationTun, RouterCheckCommand::CheckTun)
        },
        (RouterCheckStage::StabilizationTun, RouterCheckEvent::Tun { found, .. }) => if !found {
            (
                RouterCheckStage::StabilizationFailedAlive(StabilizationFailure::AdapterDisappeared),
                RouterCheckCommand::CheckAlive,
            )
        } else {
            (RouterCheckStage::StabilizationClock, RouterCheckCommand::ReadClock)
        },
        (RouterCheckStage::StabilizationFailedAlive(f), RouterCheckEvent::Alive(a)) => if !a {
            let m = match f {
                StabilizationFailure::ProcessExited => str_to_string(
                    "sing-box process exited during TUN stabilization window",
                ),
                StabilizationFailure::AdapterDisappeared => str_to_string(
                    "TUN interface disappeared during stabilization window",
                ),
            };
            finish_err(m)
        } else {
            (RouterCheckStage::LoopClock, RouterCheckCommand::ReadClock)
        },
        (RouterCheckStage::AfterLoopAlive, RouterCheckEvent::Alive(a)) => if !a {
            finish_err(str_to_string("sing-box process exited during TUN initialization"))
        } else {
            let tun = tun_or_none_exec(ctx);
            let mut w = str_to_string("TUN network adapter not detected. Expected: name='");
            w.append(ctx.interface_name.as_str());
            w.append("', IP='");
            w.append(tun);
            w.append("'. Detected adapters in network stack:\n");
            w.append(rec.adapter_summary.as_str());
            let mut m = str_to_string("TUN network adapter '");
            m.append(ctx.interface_name.as_str());
            m.append("' (IP: '");
            m.append(tun);
            m.append("') not detected in network stack");
            (RouterCheckStage::Done, RouterCheckCommand::Finish { warning: Some(w), result: Err(m) })
        },
        (RouterCheckStage::PreEgressAlive, RouterCheckEvent::Alive(a)) => if !a {
            finish_err(str_to_string("sing-box process exited before staged egress verification"))
        } else {
            (
                RouterCheckStage::EgressRunning,
                RouterCheckCommand::RunEgress { adapter: rec.adapter_text.clone() },
            )
        },
        (RouterCheckStage::EgressRunning, RouterCheckEvent::Egress(r)) => match r {
            Err(e) => finish_err(e),
            Ok(()) => (RouterCheckStage::PostEgressAlive, RouterCheckCommand::CheckAlive),
        },
        (RouterCheckStage::PostEgressAlive, RouterCheckEvent::Alive(a)) => if !a {
            finish_err(str_to_string("sing-box process exited during routing verification"))
        } else {
            (
                RouterCheckStage::Done,
                RouterCheckCommand::Finish { warning: None, result: Ok(rec.adapter_text.clone()) },
            )
        },
        _ => (
            stage,
            RouterCheckCommand::Finish {
                warning: None,
                result: Err(str_to_string("Unexpected event for the current router check stage")),
            },
        ),
    }
}

// ---------------------------------------------------------------------------
// Laws of the router verification
// ---------------------------------------------------------------------------

/// The command ends the verification successfully.
pub open spec fn finishes_ok(c: RouterCheckCommandView) -> bool {
    match c {
        RouterCheckCommandView::Finish { result: Ok(_), .. } => true,
        _ => false,
    }
}

/// The command ends the verification with an error.
pub open spec fn finishes_err(c: RouterCheckCommandView) -> bool {
    match c {
        RouterCheckCommandView::Finish { result: Err(_), .. } => true,
        _ => false,
    }
}

/// The command starts the egress stages.
pub open spec fn runs_egress(c: RouterCheckCommandView) -> bool {
    c is RunEgress
}

/// The stage waits for a liveness report.
pub open spec fn awaits_liveness(stage: RouterCheckStage) -> bool {
    match stage {
        RouterCheckStage::Initial | RouterCheckStage::LoopAlive | RouterCheckStage::FoundAlive
        | RouterCheckStage::StabilizationAlive | RouterCheckStage::StabilizationFailedAlive(_)
        | RouterCheckStage::AfterLoopAlive | RouterCheckStage::PreEgressAlive
        | RouterCheckStage::PostEgressAlive => true,
        _ => false,
    }
}

/// A router verification succeeds only on a liveness check that follows the egress stages,
/// and the egress stages run only after a liveness check that follows a completed
/// stabilization window.
pub proof fn law_router_check_succeeds_only_after_stabilization_and_egress(
    ctx: RouterCheckContext,
    rec: RouterCheckRecordView,
    stage: RouterCheckStage,
    event: RouterCheckEventView,
)
    ensures
        finishes_ok(router_check_transition(ctx, rec, stage, event).2) ==> stage
            == RouterCheckStage::PostEgressAlive && event == RouterCheckEventView::Alive(true),
        runs_egress(router_check_transition(ctx, rec, stage, event).2) ==> stage
            == RouterCheckStage::PreEgressAlive && event == RouterCheckEventView::Alive(true),
        router_check_transition(ctx, rec, stage, event).1 == RouterCheckStage::PreEgressAlive
            && stage != RouterCheckStage::PreEgressAlive ==> match event {
            RouterCheckEventView::Clock(now) => (stage == RouterCheckStage::StabilizationClock
                && elapsed_ms(rec.stabilization_start_ms, now) >= ctx.stabilization_ms) || (stage
                == RouterCheckStage::StabilizationStart && ctx.stabilization_ms == 0),
            _ => false,
        },
{
}

/// A router process found dead ends the verification with an error; inside a stabilization
/// window the death is confirmed by one more liveness check, whose negative answer ends the
/// verification with the window's error.
pub proof fn law_router_check_fails_when_process_dies(
    ctx: RouterCheckContext,
    rec: RouterCheckRecordView,
    stage: RouterCheckStage,
)
    requires
        awaits_liveness(stage),
    ensures
        stage != RouterCheckStage::StabilizationAlive ==> finishes_err(
            router_check_transition(ctx, rec, stage, RouterCheckEventView::Alive(false)).2,
        ),
        stage == RouterCheckStage::StabilizationAlive ==> router_check_transition(
            ctx,
            rec,
            stage,
            RouterCheckEventView::Alive(false),
        ).1 == RouterCheckStage::StabilizationFailedAlive(StabilizationFailure::ProcessExited),
        router_check_transition(
            ctx,
            rec,
            RouterCheckStage::StabilizationFailedAlive(StabilizationFailure::ProcessExited),
            RouterCheckEventView::Alive(false),
        ).2 == (RouterCheckCommandView::Finish {
            warning: None,
            result: Err(stabilization_message(StabilizationFailure::ProcessExited)),
        }),
{
}

/// Adapter discovery is bounded by the maximum duration: once it has passed, the next
/// liveness report ends the verification with an error, whatever it says.
pub proof fn law_router_check_discovery_is_time_bounded(
    ctx: RouterCheckContext,
    rec: RouterCheckRecordView,
    now: u64,
    alive: bool,
)
    requires
        elapsed_ms(rec.start_ms, now) >= ctx.max_duration_ms,
    ensures
        router_check_transition(ctx, rec, RouterCheckStage::LoopClock, RouterCheckEventView::Clock(now)).1
            == RouterCheckStage::AfterLoopAlive,
        finishes_err(
            router_check_transition(
                ctx,
                rec,
                RouterCheckStage::AfterLoopAlive,
                RouterCheckEventView::Alive(alive),
            ).2,
        ),
        alive ==> router_check_transition(
            ctx,
            rec,
            RouterCheckStage::AfterLoopAlive,
            RouterCheckEventView::Alive(alive),
        ).2 == (RouterCheckCommandView::Finish {
            warning: Some(not_detected_warning(ctx, rec.adapter_summary)),
            result: Err(not_detected_message(ctx)),
        }),
{
}

} // verus!
