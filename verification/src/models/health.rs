//! Health report records and multi-sample latency statistics.
use vstd::prelude::*;
use vstd::relations::{sorted_by, total_ordering};
use crate::text::{concat, decimal, decimal_string, str_to_string};

verus! {

/// Health of every component, as shown on the diagnostics page.
#[derive(Debug, Clone)]
pub struct HealthStatus {
    pub internet: ServiceHealth,
    pub aether_process: ServiceHealth,
    pub aether_socks: ServiceHealth,
    pub aether_tunnel: ServiceHealth,
    pub singbox_process: ServiceHealth,
    pub tun_interface: ServiceHealth,
    pub secondary_proxy: ServiceHealth,
    pub routing: ServiceHealth,
    pub cloudflare_trace: Option<CloudflareTrace>,
    pub last_checked_epoch_ms: i64,
}

/// Health of one component.
#[derive(Debug, Clone)]
pub struct ServiceHealth {
    pub ok: bool,
    pub message: String,
    pub latency_ms: Option<u64>,
}

impl ServiceHealth {
    /// A healthy component without a latency figure.
    pub fn ok(msg: &str) -> (r: Self)
        ensures
            r.ok,
            r.message@ == msg@,
            r.latency_ms is None,
    {
        ServiceHealth { ok: true, message: str_to_string(msg), latency_ms: None }
    }

    /// A healthy component with a measured latency.
    pub fn ok_with_latency(msg: &str, latency_ms: u64) -> (r: Self)
        ensures
            r.ok,
            r.message@ == msg@,
            r.latency_ms == Some(latency_ms),
    {
        ServiceHealth { ok: true, message: str_to_string(msg), latency_ms: Some(latency_ms) }
    }

    /// A failing component.
    pub fn err(msg: &str) -> (r: Self)
        ensures
            !r.ok,
            r.message@ == msg@,
            r.latency_ms is None,
    {
        ServiceHealth { ok: false, message: str_to_string(msg), latency_ms: None }
    }
}

/// The fields of a Cloudflare `cdn-cgi/trace` answer and the time it took.
#[derive(Debug, Clone)]
pub struct CloudflareTrace {
    pub ip: String,
    pub warp: String,
    pub colo: String,
    pub loc: String,
    pub latency_ms: u64,
}

/// Median and median-absolute-deviation statistics over latency samples.
#[derive(Debug, Clone)]
pub struct LatencyProfile {
    pub total_samples: usize,
    pub successful_samples: usize,
    pub samples_ms: Vec<u64>,
    pub median_ms: u64,
    pub min_ms: u64,
    pub max_ms: u64,
    pub jitter_mad_ms: u64,
    pub latest_trace: Option<CloudflareTrace>,
}

/// Ascending order on samples.
pub open spec fn sample_leq() -> spec_fn(u64, u64) -> bool {
    |a: u64, b: u64| a <= b
}

/// The samples in ascending order.
pub open spec fn ascending(s: Seq<u64>) -> Seq<u64> {
    s.sort_by(sample_leq())
}

/// The middle value of a sorted list (mean of the two middle values, rounded down, for an
/// even count).
pub open spec fn middle(t: Seq<u64>) -> int {
    if t.len() % 2 == 1 {
        t[(t.len() / 2) as int] as int
    } else {
        (t[t.len() / 2 - 1] + t[(t.len() / 2) as int]) / 2
    }
}

/// Absolute difference of a sample from a centre.
pub open spec fn abs_dev(x: u64, m: u64) -> u64 {
    if x >= m {
        (x - m) as u64
    } else {
        (m - x) as u64
    }
}

/// Absolute deviations of every sample from a centre.
pub open spec fn deviations(t: Seq<u64>, m: u64) -> Seq<u64> {
    t.map_values(|x: u64| abs_dev(x, m))
}

/// Median of the samples.
pub open spec fn median_of(s: Seq<u64>) -> int {
    middle(ascending(s))
}

/// Median absolute deviation of the samples from their median.
pub open spec fn mad_of(s: Seq<u64>) -> int {
    middle(ascending(deviations(ascending(s), median_of(s) as u64)))
}

/// The message of a profile with too few successful samples.
pub open spec fn insufficient_samples_message(n: nat, total: nat) -> Seq<char> {
    "Insufficient valid latency samples ("@ + decimal(n) + "/"@ + decimal(total)
        + " succeeded, minimum 4 required)"@
}

/// `slice::sort_unstable` on latency samples: afterwards the list is in ascending order and
/// holds the same samples.
#[verifier::external_body]
fn sort_samples(v: &mut Vec<u64>)
    ensures
        sorted_by(final(v)@, sample_leq()),
        final(v)@.to_multiset() == old(v)@.to_multiset(),
{
    v.sort_unstable();
}

/// `<=` on samples is a total order.
proof fn lemma_sample_leq_total()
    ensures
        total_ordering(sample_leq()),
{
    let leq = sample_leq();
    assert(vstd::relations::reflexive(leq));
    assert(vstd::relations::antisymmetric(leq));
    assert(vstd::relations::transitive(leq));
    assert(vstd::relations::strongly_connected(leq));
}

/// Sorts a list of samples into the ascending order of the model.
fn sort_ascending(v: &mut Vec<u64>)
    ensures
        final(v)@ == ascending(old(v)@),
{
    let ghost before = v@;
    sort_samples(v);
    proof {
        lemma_sample_leq_total();
        before.lemma_sort_by_ensures(sample_leq());
        vstd::seq_lib::lemma_sorted_unique(v@, ascending(before), sample_leq());
    }
}

/// The middle value of a sorted list.
fn middle_exec(t: &Vec<u64>) -> (r: u64)
    requires
        t@.len() > 0,
        forall|i: int| 0 <= i < t@.len() ==> t@[i] <= i64::MAX,
    ensures
        r == middle(t@),
{
    let len = t.len();
    if len % 2 == 1 {
        t[len / 2]
    } else {
        (t[(len / 2) - 1] + t[len / 2]) / 2
    }
}

/// Sorting keeps every bound that holds of all samples.
proof fn lemma_ascending_bounded(s: Seq<u64>, bound: u64)
    requires
        forall|i: int| 0 <= i < s.len() ==> s[i] <= bound,
    ensures
        ascending(s).len() == s.len(),
        forall|i: int| 0 <= i < ascending(s).len() ==> ascending(s)[i] <= bound,
{
    lemma_sample_leq_total();
    s.lemma_sort_by_ensures(sample_leq());
    let t = ascending(s);
    broadcast use vstd::seq_lib::group_to_multiset_ensures;
    assert(t.to_multiset().len() == s.to_multiset().len());
    assert forall|i: int| 0 <= i < t.len() implies t[i] <= bound by {
        assert(t.contains(t[i]));
        assert(s.contains(t[i]));
    }
}

impl LatencyProfile {
    /// Statistics over at least four successful samples: median, minimum, maximum and the
    /// median absolute deviation (jitter). Fewer samples are refused with a message that
    /// names both counts.
    pub fn compute_from_samples(
        samples: &[u64],
        total_samples: usize,
        latest_trace: Option<CloudflareTrace>,
    ) -> (r: Result<Self, String>)
        requires
            forall|i: int| 0 <= i < samples@.len() ==> samples@[i] <= i64::MAX,
        ensures
            samples@.len() < 4 <==> r is Err,
            r matches Err(m) ==> m@ == insufficient_samples_message(
                samples@.len(),
                total_samples as nat,
            ),
            r matches Ok(p) ==> {
                &&& p.total_samples == total_samples
                &&& p.successful_samples == samples@.len()
                &&& p.samples_ms@ == samples@
                &&& p.median_ms == median_of(samples@)
                &&& p.min_ms == ascending(samples@)[0]
                &&& p.max_ms == ascending(samples@)[samples@.len() - 1]
                &&& p.jitter_mad_ms == mad_of(samples@)
                &&& p.latest_trace == latest_trace
                &&& p.min_ms <= p.median_ms <= p.max_ms
            },
    {
        if samples.len() < 4 {
            let n = decimal_string(samples.len() as u64);
            let t = decimal_string(total_samples as u64);
            let mut m = str_to_string("Insufficient valid latency samples (");
            m.append(n.as_str());
            m.append("/");
            m.append(t.as_str());
            m.append(" succeeded, minimum 4 required)");
            return Err(m);
        }
        let mut copy: Vec<u64> = Vec::new();
        let mut i: usize = 0;
        while i < samples.len()
            invariant
                i <= samples@.len(),
                copy@ == samples@.subrange(0, i as int),
            decreases samples.len() - i,
        {
            copy.push(samples[i]);
            i = i + 1;
        }
        assert(copy@ =~= samples@);
        let mut sorted = copy.clone();
        sort_ascending(&mut sorted);
        proof {
            lemma_ascending_bounded(samples@, i64::MAX as u64);
        }
        let len = sorted.len();
        let median_ms = middle_exec(&sorted);
        let min_ms = sorted[0];
        let max_ms = sorted[len - 1];
        let mut abs_devs: Vec<u64> = Vec::new();
        let mut k: usize = 0;
        while k < len
            invariant
                k <= len,
                len == sorted@.len(),
                abs_devs@ == deviations(sorted@, median_ms).subrange(0, k as int),
            decreases len - k,
        {
            let x = sorted[k];
            let d = if x >= median_ms {
                x - median_ms
            } else {
                median_ms - x
            };
            abs_devs.push(d);
            k = k + 1;
        }
        assert(abs_devs@ =~= deviations(sorted@, median_ms));
        let ghost devs = abs_devs@;
        sort_ascending(&mut abs_devs);
        proof {
            assert forall|j: int| 0 <= j < devs.len() implies devs[j] <= i64::MAX by {
                assert(sorted@[j] <= i64::MAX);
            }
            lemma_ascending_bounded(devs, i64::MAX as u64);
        }
        let jitter_mad_ms = middle_exec(&abs_devs);
        proof {
            lemma_sample_leq_total();
            samples@.lemma_sort_by_ensures(sample_leq());
            let t = sorted@;
            assert(t == ascending(samples@));
            let h = (len / 2) as int;
            assert(sample_leq()(t[0], t[h]));
            assert(sample_leq()(t[h], t[len - 1]));
            if len % 2 == 0 {
                assert(sample_leq()(t[0], t[h - 1]));
                assert(sample_leq()(t[h - 1], t[len - 1]));
            }
        }
        Ok(
            LatencyProfile {
                total_samples,
                successful_samples: samples.len(),
                samples_ms: copy,
                median_ms,
                min_ms,
                max_ms,
                jitter_mad_ms,
                latest_trace,
            },
        )
    }
}

} // verus!
