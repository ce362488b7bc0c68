use aether_desktop::logging::ring_buffer::RingBufferLogger;

#[test]
fn log_evicts_the_oldest_entry_when_full() {
    let mut log = RingBufferLogger::new(3);
    for i in 0..5 {
        log.log("info", "Test", &format!("line {}", i));
    }
    let entries = log.get_entries();
    assert_eq!(entries.len(), 3);
    let messages: Vec<&str> = entries.iter().map(|e| e.message.as_str()).collect();
    assert_eq!(messages, vec!["line 2", "line 3", "line 4"]);
    assert!(entries.iter().all(|e| e.level == "INFO" && e.source == "Test"));
    assert_eq!(log.max_entries(), 3);
}

#[test]
fn log_keeps_ten_thousand_entries() {
    let mut log = RingBufferLogger::new(10000);
    for i in 0..10005 {
        log.log("WARN", "Bulk", &i.to_string());
    }
    let entries = log.get_entries();
    assert_eq!(entries.len(), 10000);
    assert_eq!(entries[0].message, "5");
    assert_eq!(entries[9999].message, "10004");
}

#[test]
fn export_and_clear() {
    let mut log = RingBufferLogger::new(10);
    log.log("error", "sing-box", "boom");
    log.log("Info", "Aether", "ok");
    let entries = log.get_entries();
    let expected = format!(
        "[{}] [ERROR] [sing-box] boom\n[{}] [INFO] [Aether] ok\n",
        entries[0].timestamp, entries[1].timestamp
    );
    assert_eq!(log.export_as_string(), expected);
    assert_ne!(entries[0].id, entries[1].id);
    log.clear();
    assert!(log.get_entries().is_empty());
    assert_eq!(log.export_as_string(), "");
}

#[test]
fn log_keeps_the_newest_lines_with_uuid_ids() {
    let mut log = RingBufferLogger::new(3);
    for i in 0..5 {
        log.log("info", "Test", &format!("line {}", i));
    }
    let entries = log.get_entries();
    let messages: Vec<&str> = entries.iter().map(|e| e.message.as_str()).collect();
    assert_eq!(messages, vec!["line 2", "line 3", "line 4"]);
    assert!(entries.iter().all(|e| e.id.len() == 36 && e.level == "INFO"));
}
