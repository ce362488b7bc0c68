use aether_desktop::commands::shell::{crash_report, shell_step, ShellActions, ShellEvent};
use aether_desktop::models::settings::AppSettings;

#[test]
fn start_follows_the_start_switches() {
    let mut s = AppSettings::default();
    s.general.start_minimized = true;
    s.general.auto_connect = true;
    let a = shell_step(&s.general, ShellEvent::Started);
    assert_eq!(
        a,
        ShellActions { hide_window: true, prevent_close: false, connect: true, force_shutdown: false }
    );
    s.general.start_minimized = false;
    s.general.auto_connect = false;
    let a = shell_step(&s.general, ShellEvent::Started);
    assert_eq!(
        a,
        ShellActions { hide_window: false, prevent_close: false, connect: false, force_shutdown: false }
    );
}

#[test]
fn closing_hides_to_tray_or_shuts_down() {
    let mut s = AppSettings::default();
    s.general.minimize_to_tray = true;
    let a = shell_step(&s.general, ShellEvent::CloseRequested);
    assert!(a.hide_window && a.prevent_close && !a.force_shutdown && !a.connect);
    s.general.minimize_to_tray = false;
    let a = shell_step(&s.general, ShellEvent::CloseRequested);
    assert!(!a.hide_window && !a.prevent_close && a.force_shutdown);
}

#[test]
fn every_way_out_shuts_down() {
    let mut s = AppSettings::default();
    s.general.minimize_to_tray = true;
    for e in [ShellEvent::WindowDestroyed, ShellEvent::ExitRequested, ShellEvent::Exited] {
        let a = shell_step(&s.general, e);
        assert!(a.force_shutdown && !a.hide_window && !a.prevent_close && !a.connect);
    }
}

#[test]
fn crash_report_names_the_failure_and_its_place() {
    assert_eq!(
        crash_report("boom", "Some(src/main.rs:1:1)"),
        "Aether Desktop encountered a critical error and must close.\n\nDetails: boom\nLocation: Some(src/main.rs:1:1)"
    );
}
