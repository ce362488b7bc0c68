use aether_desktop::logging::ring_buffer::RingBufferLogger;
use aether_desktop::process::runner::{
    classify_log_level, parse_candidate_rtt_from_line, process_aether_line,
};

#[test]
fn test_parse_candidate_rtt_various_formats() {
    assert_eq!(
        parse_candidate_rtt_from_line("[+] candidate 162.159.192.1:2408 OK (rtt: 78ms)"),
        Some(78)
    );
    assert_eq!(parse_candidate_rtt_from_line("candidate ok ... rtt=42ms"), Some(42));
    assert_eq!(
        parse_candidate_rtt_from_line("Endpoint 162.159.193.10:500 ok (rtt: 65ms)"),
        Some(65)
    );
    assert_eq!(parse_candidate_rtt_from_line("Testing endpoint latency: 120ms"), Some(120));
    assert_eq!(parse_candidate_rtt_from_line("Random log line with no timing"), None);
}

#[test]
fn test_process_aether_line_updates_best_candidate_from_both_stdout_and_stderr() {
    let mut logger = RingBufferLogger::new(50);
    let mut interactive = false;
    let mut best_rtt: u32 = 0;

    process_aether_line(
        "candidate ok 162.159.192.1:2408 rtt=85ms",
        false,
        &mut interactive,
        &mut best_rtt,
        &mut logger,
    );
    assert_eq!(best_rtt, 85);
    assert!(!interactive);

    process_aether_line(
        "[+] candidate 162.159.192.5:2408 OK (rtt: 42ms)",
        true,
        &mut interactive,
        &mut best_rtt,
        &mut logger,
    );
    assert_eq!(best_rtt, 42);

    process_aether_line(
        "Endpoint 162.159.193.10:500 ok (rtt: 65ms)",
        true,
        &mut interactive,
        &mut best_rtt,
        &mut logger,
    );
    assert_eq!(best_rtt, 42);
}

#[test]
fn log_levels_of_aether_lines() {
    assert_eq!(classify_log_level("ERROR something", false), "ERROR");
    assert_eq!(classify_log_level("plain text", false), "INFO");
}
