//! Decisions of the window shell: what starting the application, closing its window and
//! leaving it do to the window and to the VPN components.
use vstd::prelude::*;
use crate::models::settings::GeneralSettings;
use crate::text::str_to_string;

verus! {

/// What the window shell reports.
#[derive(Debug, Clone, Copy, PartialEq, Eq, Structural)]
pub enum ShellEvent {
    /// The application has started and its window exists.
    Started,
    /// The user asked to close the main window.
    CloseRequested,
    /// The main window is gone.
    WindowDestroyed,
    /// The application was asked to exit.
    ExitRequested,
    /// The application is exiting.
    Exited,
}

/// What the shell does in answer.
#[derive(Debug, Clone, Copy, PartialEq, Eq, Structural)]
pub struct ShellActions {
    /// Hide the main window (to the tray).
    pub hide_window: bool,
    /// Keep the window from closing.
    pub prevent_close: bool,
    /// Start connecting with the saved settings.
    pub connect: bool,
    /// Stop every VPN component.
    pub force_shutdown: bool,
}

/// The answer to an event under the desktop integration switches: a start hides the
/// window when the application starts minimized and connects when it auto-connects; a close
/// request hides the window to the tray (and keeps it from closing) when minimizing to the
/// tray, and otherwise shuts everything down, as every other way out does.
pub open spec fn shell_actions(general: GeneralSettings, event: ShellEvent) -> ShellActions {
    match event {
        ShellEvent::Started => ShellActions {
            hide_window: general.start_minimized,
            prevent_close: false,
            connect: general.auto_connect,
            force_shutdown: false,
        },
        ShellEvent::CloseRequested => ShellActions {
            hide_window: general.minimize_to_tray,
            prevent_close: general.minimize_to_tray,
            connect: false,
            force_shutdown: !general.minimize_to_tray,
        },
        _ => ShellActions { hide_window: false, prevent_close: false, connect: false, force_shutdown: true },
    }
}

/// What the shell does for an event, under the saved desktop integration switches.
pub fn shell_step(general: &GeneralSettings, event: ShellEvent) -> (r: ShellActions)
    ensures
        r == shell_actions(*general, event),
{
    match event {
        ShellEvent::Started => ShellActions {
            hide_window: general.start_minimized,
            prevent_close: false,
            connect: general.auto_connect,
            force_shutdown: false,
        },
        ShellEvent::CloseRequested => ShellActions {
            hide_window: general.minimize_to_tray,
            prevent_close: general.minimize_to_tray,
            connect: false,
            force_shutdown: !general.minimize_to_tray,
        },
        _ => ShellActions { hide_window: false, prevent_close: false, connect: false, force_shutdown: true },
    }
}

/// A window hidden to the tray keeps the VPN running, and every way out of the application
/// other than that stops every component; nothing but a start ever connects.
pub proof fn law_only_leaving_shuts_down(general: GeneralSettings, event: ShellEvent)
    ensures
        shell_actions(general, event).force_shutdown <==> (event != ShellEvent::Started && !(
        event == ShellEvent::CloseRequested && general.minimize_to_tray)),
        shell_actions(general, event).prevent_close ==> shell_actions(general, event).hide_window,
        shell_actions(general, event).connect ==> event == ShellEvent::Started,
{
}

/// The text shown and written to the crash log when the application fails: the failure and
/// where it happened.
pub open spec fn crash_text(details: Seq<char>, location: Seq<char>) -> Seq<char> {
    "Aether Desktop encountered a critical error and must close.\n\nDetails: "@ + details
        + "\nLocation: "@ + location
}

/// The crash report for a failure's message and its location (as text).
pub fn crash_report(details: &str, location: &str) -> (r: String)
    ensures
        r@ == crash_text(details@, location@),
{
    let mut r = str_to_string("Aether Desktop encountered a critical error and must close.\n\nDetails: ");
    r.append(details);
    r.append("\nLocation: ");
    r.append(location);
    r
}

} // verus!
