use aether_desktop::process::detector::{
    cleanup_stray_managed_processes, listening_owner_pid, netstat_listening_pid, normalize_exe_name,
    owner_process_name, ProcessDetector, TcpRowOwner,
};
use aether_desktop::process::icon::IconExtractor;

fn proc_entry(pid: u32, name: &str, path: Option<&str>) -> (u32, String, Option<String>) {
    (pid, name.to_string(), path.map(|p| p.to_string()))
}

#[test]
fn friendly_names_of_known_and_unknown_executables() {
    assert_eq!(ProcessDetector::get_friendly_name("Discord.exe"), "Discord");
    assert_eq!(ProcessDetector::get_friendly_name("generals.exe"), "C&C Generals");
    assert_eq!(ProcessDetector::get_friendly_name("obs64.exe"), "OBS Studio");
    assert_eq!(ProcessDetector::get_friendly_name("myapp.exe"), "Myapp");
    assert_eq!(ProcessDetector::get_friendly_name("tool.exe.exe"), "Tool");
    assert_eq!(ProcessDetector::get_friendly_name("Game"), "Game");
    assert_eq!(ProcessDetector::get_friendly_name(".exe"), "");
}

#[test]
fn executable_names() {
    assert_eq!(normalize_exe_name("steam"), "steam.exe");
    assert_eq!(normalize_exe_name("Steam.EXE"), "Steam.EXE");
    assert_eq!(owner_process_name(Some("aether")), "aether.exe");
    assert_eq!(owner_process_name(None), "unknown.exe");
}

#[test]
fn only_aether_port_owners_are_terminated() {
    assert_eq!(
        ProcessDetector::kill_port_owner_if_aether(Some((42, "Aether.exe".to_string()))),
        Some(42)
    );
    assert_eq!(
        ProcessDetector::kill_port_owner_if_aether(Some((43, "nginx.exe".to_string()))),
        None
    );
    assert_eq!(ProcessDetector::kill_port_owner_if_aether(None), None);
}

#[test]
fn listening_owner_of_a_port_from_network_order_rows() {
    // port 1819 = 0x071B, stored as 0x1B07 in network byte order
    let rows = vec![
        TcpRowOwner { state: 5, local_port_field: 0x1B07, owning_pid: 10 },
        TcpRowOwner { state: 2, local_port_field: 0x1B07, owning_pid: 11 },
        TcpRowOwner { state: 2, local_port_field: 0x1B07, owning_pid: 12 },
    ];
    assert_eq!(listening_owner_pid(&rows, 1819), Some(11));
    assert_eq!(listening_owner_pid(&rows, 80), None);
}

#[test]
fn stray_managed_processes_are_found() {
    let procs = vec![
        proc_entry(1, "aether.exe", Some("C:\\Users\\u\\AppData\\Local\\AetherDesktop\\aether.exe")),
        proc_entry(2, "sing-box.exe", None),
        proc_entry(3, "aetherd.exe", None),
        proc_entry(4, "chrome.exe", None),
        proc_entry(5, "SING-BOX", None),
    ];
    assert_eq!(cleanup_stray_managed_processes(&procs), vec![1, 2, 5]);
}

#[test]
fn gui_applications_are_filtered_deduplicated_and_sorted() {
    let procs = vec![
        proc_entry(10, "svchost.exe", None),
        proc_entry(11, "steam.exe", Some("C:\\Steam\\steam.exe")),
        proc_entry(12, "Discord", Some("C:\\Discord\\Discord.exe")),
        proc_entry(13, "discord.exe", Some("C:\\Discord\\Discord.exe")),
        proc_entry(14, "aether.exe", None),
        proc_entry(15, "zed.exe", None),
        proc_entry(16, "chrome.exe", None),
    ];
    let apps = ProcessDetector::select_gui_applications(procs);
    let names: Vec<&str> = apps.iter().map(|a| a.name.as_str()).collect();
    assert_eq!(names, vec!["Discord", "Google Chrome", "Steam", "Zed"]);
    assert_eq!(apps[0].pid, 12);
    assert_eq!(apps[0].process_name, "Discord.exe");
    assert_eq!(apps[2].executable_path.as_deref(), Some("C:\\Steam\\steam.exe"));
    assert!(apps.iter().all(|a| a.icon_base64.is_none()));
}

#[test]
fn icon_extraction_leaves_icons_to_the_interface() {
    assert_eq!(IconExtractor::extract_icon_base64("C:\\Games\\game.exe"), None);
}

#[test]
fn inspection_names_the_file_and_its_display_name() {
    let (display, process) = ProcessDetector::inspection_of_file_name(Some("Discord.exe".to_string()));
    assert_eq!(display, "Discord");
    assert_eq!(process, "Discord.exe");
    let (display, process) = ProcessDetector::inspection_of_file_name(None);
    assert_eq!(process, "Unknown.exe");
    assert_eq!(display, ProcessDetector::get_friendly_name("Unknown.exe"));
    let (display, process) = ProcessDetector::inspect_executable("/opt/games/obs64.exe");
    assert_eq!(process, "obs64.exe");
    assert_eq!(display, "OBS Studio");
}

#[test]
fn netstat_listing_names_the_listening_owner() {
    let listing = "\r\nActive Connections\r\n\r\n  Proto  Local Address          Foreign Address        State           PID\r\n  TCP    0.0.0.0:135            0.0.0.0:0              LISTENING       1000\r\n  TCP    127.0.0.1:1819         127.0.0.1:50000        ESTABLISHED     4321\r\n  TCP    127.0.0.1:1819         0.0.0.0:0              LISTENING       4242\r\n  TCP    [::]:1819              [::]:0                 LISTENING       9999\r\n";
    assert_eq!(netstat_listening_pid(listing, 1819), Some(4242));
    assert_eq!(netstat_listening_pid(listing, 135), Some(1000));
    assert_eq!(netstat_listening_pid(listing, 18190), None);
    assert_eq!(netstat_listening_pid(listing, 819), None);
    assert_eq!(netstat_listening_pid("", 1819), None);
}
