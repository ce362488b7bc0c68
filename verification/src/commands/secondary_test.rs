//! Testing a secondary proxy profile: the throwaway sing-box configuration that serves the
//! profile on a local SOCKS port, and the wait for that port (or Xray's) to come up.
//!
//! The caller writes the configuration, launches the process, polls it and the port, and
//! queries the Cloudflare trace through it.
use vstd::prelude::*;
use crate::models::singbox::OutboundConfig;
use crate::routing::secondary::{outbound_result, parse_share_link, share_link_spec, ShareOutboundView};
use crate::text::{concat, str_to_string};

verus! {

/// The configuration of a secondary proxy test: a SOCKS inbound on `127.0.0.1:listen_port`
/// tagged `inbound_tag`, routed wholly to the profile's outbound (`final_outbound`) next to
/// a direct outbound, with a UDP DNS server and the local resolver.
#[derive(Debug, Clone)]
pub struct SecondaryTestConfig {
    pub log_level: String,
    pub dns_server: String,
    pub dns_server_port: u16,
    pub dns_strategy: String,
    pub inbound_tag: String,
    pub listen: String,
    pub listen_port: u16,
    pub outbound: OutboundConfig,
    pub final_outbound: String,
}

/// Model of a test configuration: its listen port and the profile's outbound.
pub open spec fn test_config_view(c: SecondaryTestConfig) -> (u16, ShareOutboundView) {
    (c.listen_port, outbound_result(Ok(c.outbound))->Ok_0)
}

/// The fixed parts of every test configuration.
pub open spec fn test_config_fixed(c: SecondaryTestConfig) -> bool {
    &&& c.log_level@ == "warn"@
    &&& c.dns_server@ == "8.8.8.8"@
    &&& c.dns_server_port == 53
    &&& c.dns_strategy@ == "prefer_ipv4"@
    &&& c.inbound_tag@ == "secondary-test"@
    &&& c.listen@ == "127.0.0.1"@
    &&& c.final_outbound@ == "v2ray"@
}

/// The test configuration of a share link served on `port`, or the reason the link does not
/// import.
pub fn secondary_test_config(share_link: &str, port: u16) -> (r: Result<SecondaryTestConfig, String>)
    ensures
        match r {
            Ok(c) => test_config_fixed(c) && c.listen_port == port && share_link_spec(share_link@)
                == Ok::<ShareOutboundView, Seq<char>>(test_config_view(c).1),
            Err(e) => share_link_spec(share_link@) == Err::<ShareOutboundView, Seq<char>>(e@),
        },
{
    match parse_share_link(share_link) {
        Err(e) => Err(e),
        Ok(outbound) => Ok(
            SecondaryTestConfig {
                log_level: str_to_string("warn"),
                dns_server: str_to_string("8.8.8.8"),
                dns_server_port: 53,
                dns_strategy: str_to_string("prefer_ipv4"),
                inbound_tag: str_to_string("secondary-test"),
                listen: str_to_string("127.0.0.1"),
                listen_port: port,
                outbound,
                final_outbound: str_to_string("v2ray"),
            },
        ),
    }
}

// ---------------------------------------------------------------------------
// Waiting for the local test port
// ---------------------------------------------------------------------------

/// Which engine serves the test.
#[derive(Debug, Clone, Copy, PartialEq, Eq, Structural)]
pub enum TestEngine {
    Xray,
    SingBox,
}

/// What polling the test process showed.
#[derive(Debug, Clone)]
pub enum ChildStatus {
    /// It has exited.
    Exited,
    /// It is running.
    Running,
    /// Its state could not be read.
    InspectFailed(String),
}

/// What the wait does next.
#[derive(Debug, Clone)]
pub enum ReadinessStep {
    /// The port accepts connections: run the trace through it.
    Ready,
    /// Pause, then poll again.
    PollAgain,
    /// Give up: stop the process and end with this error.
    GiveUp(String),
}

/// How many times the process and the port are polled.
pub const READINESS_POLLS: u32 = 40;

/// Pause between two polls, in milliseconds.
pub const READINESS_PAUSE_MS: u64 = 100;

/// The error of a test process that never opened its port.
pub open spec fn not_ready_message(engine: TestEngine) -> Seq<char> {
    match engine {
        TestEngine::Xray => "Xray stopped before its local test port became ready."@,
        TestEngine::SingBox => "The built-in secondary proxy stopped before its local test port became ready."@,
    }
}

/// Model of a readiness step.
pub enum ReadinessStepView {
    Ready,
    PollAgain,
    GiveUp(Seq<char>),
}

impl View for ReadinessStep {
    type V = ReadinessStepView;

    open spec fn view(&self) -> ReadinessStepView {
        match self {
            ReadinessStep::Ready => ReadinessStepView::Ready,
            ReadinessStep::PollAgain => ReadinessStepView::PollAgain,
            ReadinessStep::GiveUp(m) => ReadinessStepView::GiveUp(m@),
        }
    }
}

/// The decision after poll number `attempt` (counted from zero): a running process whose
/// port accepts is ready; one whose port does not yet accept is polled again while polls
/// remain; an exited process, or the last poll, gives up; a process whose state cannot be
/// read gives up with that error under sing-box, and as not ready under Xray.
pub open spec fn readiness_decision(engine: TestEngine, attempt: u32, status: ChildStatus, port_open: bool) -> ReadinessStepView {
    match status {
        ChildStatus::Exited => ReadinessStepView::GiveUp(not_ready_message(engine)),
        ChildStatus::InspectFailed(e) => match engine {
            TestEngine::Xray => ReadinessStepView::GiveUp(not_ready_message(engine)),
            TestEngine::SingBox => ReadinessStepView::GiveUp(
                "Unable to inspect the secondary test process: "@ + e@,
            ),
        },
        ChildStatus::Running => if port_open {
            ReadinessStepView::Ready
        } else if attempt + 1 < READINESS_POLLS {
            ReadinessStepView::PollAgain
        } else {
            ReadinessStepView::GiveUp(not_ready_message(engine))
        },
    }
}

fn not_ready_exec(engine: TestEngine) -> (r: String)
    ensures
        r@ == not_ready_message(engine),
{
    match engine {
        TestEngine::Xray => str_to_string("Xray stopped before its local test port became ready."),
        TestEngine::SingBox => str_to_string(
            "The built-in secondary proxy stopped before its local test port became ready.",
        ),
    }
}

/// The decision after one poll of a test process and its port.
pub fn readiness_step(engine: TestEngine, attempt: u32, status: ChildStatus, port_open: bool) -> (r: ReadinessStep)
    ensures
        r@ == readiness_decision(engine, attempt, status, port_open),
{
    match status {
        ChildStatus::Exited => ReadinessStep::GiveUp(not_ready_exec(engine)),
        ChildStatus::InspectFailed(e) => match engine {
            TestEngine::Xray => ReadinessStep::GiveUp(not_ready_exec(engine)),
            TestEngine::SingBox => ReadinessStep::GiveUp(
                concat("Unable to inspect the secondary test process: ", e.as_str()),
            ),
        },
        ChildStatus::Running => if port_open {
            ReadinessStep::Ready
        } else if attempt < READINESS_POLLS - 1 {
            ReadinessStep::PollAgain
        } else {
            ReadinessStep::GiveUp(not_ready_exec(engine))
        },
    }
}

/// The wait is bounded: from the last poll on, a process whose port does not accept is given
/// up on, and nothing but an open port is ever ready.
pub proof fn law_readiness_wait_is_bounded(engine: TestEngine, attempt: u32, status: ChildStatus, port_open: bool)
    ensures
        attempt + 1 >= READINESS_POLLS && !port_open ==> readiness_decision(engine, attempt, status, port_open) is GiveUp,
        readiness_decision(engine, attempt, status, port_open) is Ready ==> port_open && status is Running,
{
}

} // verus!
