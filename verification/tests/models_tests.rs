use aether_desktop::models::health::{LatencyProfile, ServiceHealth};

#[test]
fn latency_profile_of_an_odd_sample_set() {
    let p = LatencyProfile::compute_from_samples(&[120, 40, 60, 50, 200], 6, None).unwrap();
    assert_eq!(p.median_ms, 60);
    assert_eq!(p.min_ms, 40);
    assert_eq!(p.max_ms, 200);
    // deviations 60, 20, 0, 10, 140 -> sorted 0, 10, 20, 60, 140
    assert_eq!(p.jitter_mad_ms, 20);
    assert_eq!(p.samples_ms, vec![120, 40, 60, 50, 200]);
    assert_eq!(p.total_samples, 6);
    assert_eq!(p.successful_samples, 5);
    assert!(p.latest_trace.is_none());
}

#[test]
fn latency_profile_refuses_three_samples() {
    assert_eq!(
        LatencyProfile::compute_from_samples(&[1, 2, 3], 8, None).unwrap_err(),
        "Insufficient valid latency samples (3/8 succeeded, minimum 4 required)"
    );
}

#[test]
fn service_health_constructors() {
    let ok = ServiceHealth::ok("fine");
    assert!(ok.ok);
    assert_eq!(ok.message, "fine");
    assert!(ok.latency_ms.is_none());
    let timed = ServiceHealth::ok_with_latency("fast", 12);
    assert_eq!(timed.latency_ms, Some(12));
    let bad = ServiceHealth::err("down");
    assert!(!bad.ok);
    assert_eq!(bad.message, "down");
}
