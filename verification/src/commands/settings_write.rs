//! Saving and resetting the settings as transactions.
//!
//! While connected, new settings are first applied to the running router; if they cannot
//! then be persisted, the start-with-Windows integration is reverted and the running router
//! goes back to the previous settings. While disconnected, the settings are only persisted.
//! The live applies, the start-with-Windows integration and the writes are performed by the
//! caller, which hands back each result.
use vstd::prelude::*;
use crate::process::live_apply::{note_view, result_view, LogNote, LogNoteView};
use crate::text::{concat3, str_to_string};

verus! {

/// Which settings a command is about.
#[derive(Debug, Clone, Copy, PartialEq, Eq, Structural)]
pub enum SettingsRole {
    /// The settings being saved (or the defaults, for a reset).
    Candidate,
    /// The settings in force before.
    Previous,
}

/// Where a settings write stands.
#[derive(Debug, Clone, Copy, PartialEq, Eq, Structural)]
pub enum SettingsWriteStage {
    /// Applying the candidate settings to the running router.
    ApplyingCandidate,
    /// Configuring start-with-Windows for the candidate settings.
    ConfiguringStartup,
    /// Writing the candidate settings to storage.
    Persisting,
    /// Applying the previous settings to the running router after a failed persist.
    RestoringRuntime,
    /// Finished.
    Done,
}

/// What a settings write remembers.
#[derive(Debug, Clone)]
pub struct SettingsWrite {
    /// The router was connected when the write started.
    pub connected: bool,
    /// The persistence failure that started a runtime rollback.
    pub persist_error: String,
}

/// The result handed back after a command.
#[derive(Debug)]
pub enum SettingsWriteEvent {
    /// A live apply finished.
    LiveApplied(Result<(), String>),
    /// Start-with-Windows was configured.
    StartupConfigured(Result<(), String>),
    /// The settings were written.
    Persisted(Result<(), String>),
}

/// The next thing for the caller to do.
#[derive(Debug)]
pub enum SettingsWriteCommand {
    /// Apply these settings to the running router.
    ApplyLive(SettingsRole),
    /// Configure start-with-Windows as the candidate settings say.
    ConfigureStartup,
    /// Write the candidate settings to storage.
    Persist,
    /// Configure start-with-Windows as the previous settings say (ignoring the result), log
    /// the note, and apply the previous settings to the running router.
    RollbackRuntime { note: LogNote },
    /// End the write: configure start-with-Windows back as the previous settings say when
    /// `revert_startup`, apply the previous settings to the running router ignoring the
    /// result when `reapply_previous`, log the note, and return the result.
    Finish { revert_startup: bool, reapply_previous: bool, note: Option<LogNote>, result: Result<(), String> },
}

/// Model of the record.
pub struct SettingsWriteView {
    pub connected: bool,
    pub persist_error: Seq<char>,
}

impl View for SettingsWrite {
    type V = SettingsWriteView;

    open spec fn view(&self) -> SettingsWriteView {
        SettingsWriteView { connected: self.connected, persist_error: self.persist_error@ }
    }
}

/// Model of an event.
pub enum SettingsWriteEventView {
    LiveApplied(Result<(), Seq<char>>),
    StartupConfigured(Result<(), Seq<char>>),
    Persisted(Result<(), Seq<char>>),
}

impl View for SettingsWriteEvent {
    type V = SettingsWriteEventView;

    open spec fn view(&self) -> SettingsWriteEventView {
        match self {
            SettingsWriteEvent::LiveApplied(r) => SettingsWriteEventView::LiveApplied(result_view(*r)),
            SettingsWriteEvent::StartupConfigured(r) => SettingsWriteEventView::StartupConfigured(
                result_view(*r),
            ),
            SettingsWriteEvent::Persisted(r) => SettingsWriteEventView::Persisted(result_view(*r)),
        }
    }
}

/// Model of a command.
pub enum SettingsWriteCommandView {
    ApplyLive(SettingsRole),
    ConfigureStartup,
    Persist,
    RollbackRuntime { note: LogNoteView },
    Finish {
        revert_startup: bool,
        reapply_previous: bool,
        note: Option<LogNoteView>,
        result: Result<(), Seq<char>>,
    },
}

impl View for SettingsWriteCommand {
    type V = SettingsWriteCommandView;

    open spec fn view(&self) -> SettingsWriteCommandView {
        match self {
            SettingsWriteCommand::ApplyLive(r) => SettingsWriteCommandView::ApplyLive(*r),
            SettingsWriteCommand::ConfigureStartup => SettingsWriteCommandView::ConfigureStartup,
            SettingsWriteCommand::Persist => SettingsWriteCommandView::Persist,
            SettingsWriteCommand::RollbackRuntime { note } => SettingsWriteCommandView::RollbackRuntime {
                note: note_view(*note),
            },
            SettingsWriteCommand::Finish { revert_startup, reapply_previous, note, result } =>
                SettingsWriteCommandView::Finish {
                revert_startup: *revert_startup,
                reapply_previous: *reapply_previous,
                note: match note {
                    Some(n) => Some(note_view(*n)),
                    None => None,
                },
                result: result_view(*result),
            },
        }
    }
}

// ---------------------------------------------------------------------------
// Saving
// ---------------------------------------------------------------------------

/// A log note.
pub open spec fn note(level: Seq<char>, message: Seq<char>) -> LogNoteView {
    LogNoteView { level, message }
}

/// A final command.
pub open spec fn finish(
    revert_startup: bool,
    reapply_previous: bool,
    n: Option<LogNoteView>,
    result: Result<(), Seq<char>>,
) -> SettingsWriteCommandView {
    SettingsWriteCommandView::Finish { revert_startup, reapply_previous, note: n, result }
}

/// The first stage and command of a save: a live apply while connected, else the
/// start-with-Windows integration.
pub open spec fn save_start(connected: bool) -> (SettingsWriteView, SettingsWriteStage, SettingsWriteCommandView) {
    if connected {
        (
            SettingsWriteView { connected, persist_error: Seq::empty() },
            SettingsWriteStage::ApplyingCandidate,
            SettingsWriteCommandView::ApplyLive(SettingsRole::Candidate),
        )
    } else {
        (
            SettingsWriteView { connected, persist_error: Seq::empty() },
            SettingsWriteStage::ConfiguringStartup,
            SettingsWriteCommandView::ConfigureStartup,
        )
    }
}

/// A persistence failure while connected: revert and restore the runtime.
pub open spec fn persist_failed(rec: SettingsWriteView, e: Seq<char>) -> (
    SettingsWriteView,
    SettingsWriteStage,
    SettingsWriteCommandView,
) {
    (
        SettingsWriteView { persist_error: e, ..rec },
        SettingsWriteStage::RestoringRuntime,
        SettingsWriteCommandView::RollbackRuntime {
            note: note("ERROR"@, "Settings persistence failed: "@ + e + ". Initiating runtime rollback..."@),
        },
    )
}

/// The message of a persistence failure whose runtime rollback succeeded.
pub open spec fn restored_message(e: Seq<char>) -> Seq<char> {
    "Settings persistence failed ("@ + e + "). Runtime restored successfully to previous configuration."@
}

/// The message of a persistence failure whose runtime rollback failed too.
pub open spec fn critical_message(e: Seq<char>, rb: Seq<char>) -> Seq<char> {
    "CRITICAL: Settings persistence failed ("@ + e + ") AND runtime rollback also failed ("@ + rb
        + ")."@
}

/// One transition of a save.
pub open spec fn save_transition(
    rec: SettingsWriteView,
    stage: SettingsWriteStage,
    event: SettingsWriteEventView,
) -> (SettingsWriteView, SettingsWriteStage, SettingsWriteCommandView) {
    match (stage, event) {
        (SettingsWriteStage::ApplyingCandidate, SettingsWriteEventView::LiveApplied(r)) => match r {
            Err(e) => (rec, SettingsWriteStage::Done, finish(false, false, None, Err(e))),
            Ok(()) => (rec, SettingsWriteStage::ConfiguringStartup, SettingsWriteCommandView::ConfigureStartup),
        },
        (SettingsWriteStage::ConfiguringStartup, SettingsWriteEventView::StartupConfigured(r)) => match r {
            Err(e) => if rec.connected {
                persist_failed(rec, e)
            } else {
                (rec, SettingsWriteStage::Done, finish(false, false, None, Err(e)))
            },
            Ok(()) => (rec, SettingsWriteStage::Persisting, SettingsWriteCommandView::Persist),
        },
        (SettingsWriteStage::Persisting, SettingsWriteEventView::Persisted(r)) => match r {
            Err(e) => if rec.connected {
                persist_failed(rec, e)
            } else {
                (rec, SettingsWriteStage::Done, finish(true, false, None, Err(e)))
            },
            Ok(()) => if rec.connected {
                (
                    rec,
                    SettingsWriteStage::Done,
                    finish(
                        false,
                        false,
                        Some(note("INFO"@, "Settings validated, live applied, and persisted atomically"@)),
                        Ok(()),
                    ),
                )
            } else {
                (
                    rec,
                    SettingsWriteStage::Done,
                    finish(false, false, Some(note("INFO"@, "Settings saved successfully to storage"@)), Ok(())),
                )
            },
        },
        (SettingsWriteStage::RestoringRuntime, SettingsWriteEventView::LiveApplied(r)) => match r {
            Ok(()) => (
                rec,
                SettingsWriteStage::Done,
                finish(
                    false,
                    false,
                    Some(note("ERROR"@, restored_message(rec.persist_error))),
                    Err(restored_message(rec.persist_error)),
                ),
            ),
            Err(rb) => (
                rec,
                SettingsWriteStage::Done,
                finish(
                    false,
                    false,
                    Some(note("ERROR"@, critical_message(rec.persist_error, rb))),
                    Err(critical_message(rec.persist_error, rb)),
                ),
            ),
        },
        _ => (rec, stage, finish(false, false, None, Err("Unexpected event for the current settings stage"@))),
    }
}

// ---------------------------------------------------------------------------
// Resetting
// ---------------------------------------------------------------------------

/// The first stage and command of a reset to the defaults.
pub open spec fn reset_start(connected: bool) -> (SettingsWriteView, SettingsWriteStage, SettingsWriteCommandView) {
    save_start(connected)
}

/// A failed reset: start-with-Windows goes back, and while connected the previous settings
/// go back onto the running router.
pub open spec fn reset_failed(rec: SettingsWriteView, e: Seq<char>) -> (
    SettingsWriteView,
    SettingsWriteStage,
    SettingsWriteCommandView,
) {
    (rec, SettingsWriteStage::Done, finish(true, rec.connected, None, Err(e)))
}

/// One transition of a reset to the defaults (the candidate settings are the defaults).
pub open spec fn reset_transition(
    rec: SettingsWriteView,
    stage: SettingsWriteStage,
    event: SettingsWriteEventView,
) -> (SettingsWriteView, SettingsWriteStage, SettingsWriteCommandView) {
    match (stage, event) {
        (SettingsWriteStage::ApplyingCandidate, SettingsWriteEventView::LiveApplied(r)) => match r {
            Err(e) => (rec, SettingsWriteStage::Done, finish(false, false, None, Err(e))),
            Ok(()) => (rec, SettingsWriteStage::ConfiguringStartup, SettingsWriteCommandView::ConfigureStartup),
        },
        (SettingsWriteStage::ConfiguringStartup, SettingsWriteEventView::StartupConfigured(r)) => match r {
            Err(e) => reset_failed(rec, e),
            Ok(()) => (rec, SettingsWriteStage::Persisting, SettingsWriteCommandView::Persist),
        },
        (SettingsWriteStage::Persisting, SettingsWriteEventView::Persisted(r)) => match r {
            Err(e) => reset_failed(rec, e),
            Ok(()) => (
                rec,
                SettingsWriteStage::Done,
                finish(false, false, Some(note("WARN"@, "Reset settings to factory defaults"@)), Ok(())),
            ),
        },
        _ => (rec, stage, finish(false, false, None, Err("Unexpected event for the current settings stage"@))),
    }
}

// ---------------------------------------------------------------------------
// Executable transitions
// ---------------------------------------------------------------------------

fn log_note(level: &'static str, message: String) -> (r: LogNote)
    ensures
        note_view(r) == note(level@, message@),
{
    LogNote { level, message }
}

fn finish_exec(
    revert_startup: bool,
    reapply_previous: bool,
    n: Option<LogNote>,
    result: Result<(), String>,
) -> (r: (SettingsWriteStage, SettingsWriteCommand))
    ensures
        r.0 == SettingsWriteStage::Done,
        r.1@ == finish(
            revert_startup,
            reapply_previous,
            match n {
                Some(x) => Some(note_view(x)),
                None => None,
            },
            result_view(result),
        ),
{
    (SettingsWriteStage::Done, SettingsWriteCommand::Finish { revert_startup, reapply_previous, note: n, result })
}

fn unexpected(stage: SettingsWriteStage) -> (r: (SettingsWriteStage, SettingsWriteCommand))
    ensures
        r.0 == stage,
        r.1@ == finish(false, false, None, Err("Unexpected event for the current settings stage"@)),
{
    (
        stage,
        SettingsWriteCommand::Finish {
            revert_startup: false,
            reapply_previous: false,
            note: None,
            result: Err(str_to_string("Unexpected event for the current settings stage")),
        },
    )
}

/// Starts a save (or a reset) of the settings; `connected` says whether the router was
/// connected.
pub fn settings_write_begin(connected: bool) -> (r: (SettingsWrite, SettingsWriteStage, SettingsWriteCommand))
    ensures
        (r.0@, r.1, r.2@) == save_start(connected),
        (r.0@, r.1, r.2@) == reset_start(connected),
{
    let rec = SettingsWrite { connected, persist_error: String::new() };
    if connected {
        (rec, SettingsWriteStage::ApplyingCandidate, SettingsWriteCommand::ApplyLive(SettingsRole::Candidate))
    } else {
        (rec, SettingsWriteStage::ConfiguringStartup, SettingsWriteCommand::ConfigureStartup)
    }
}

fn persist_failed_exec(rec: &mut SettingsWrite, e: String) -> (r: (SettingsWriteStage, SettingsWriteCommand))
    ensures
        (final(rec)@, r.0, r.1@) == persist_failed(old(rec)@, e@),
{
    let n = log_note("ERROR", concat3("Settings persistence failed: ", e.as_str(), ". Initiating runtime rollback..."));
    rec.persist_error = e;
    (SettingsWriteStage::RestoringRuntime, SettingsWriteCommand::RollbackRuntime { note: n })
}

/// One step of a save: applies the result to the record and returns the next stage and
/// command. The caller performs each command and hands back its result until a `Finish`
/// command ends the save.
pub fn save_step(rec: &mut SettingsWrite, stage: SettingsWriteStage, event: SettingsWriteEvent) -> (r: (
    SettingsWriteStage,
    SettingsWriteCommand,
))
    ensures
        (final(rec)@, r.0, r.1@) == save_transition(old(rec)@, stage, event@),
{
    match (stage, event) {
        (SettingsWriteStage::ApplyingCandidate, SettingsWriteEvent::LiveApplied(r)) => match r {
            Err(e) => finish_exec(false, false, None, Err(e)),
            Ok(()) => (SettingsWriteStage::ConfiguringStartup, SettingsWriteCommand::ConfigureStartup),
        },
        (SettingsWriteStage::ConfiguringStartup, SettingsWriteEvent::StartupConfigured(r)) => match r {
            Err(e) => if rec.connected {
                persist_failed_exec(rec, e)
            } else {
                finish_exec(false, false, None, Err(e))
            },
            Ok(()) => (SettingsWriteStage::Persisting, SettingsWriteCommand::Persist),
        },
        (SettingsWriteStage::Persisting, SettingsWriteEvent::Persisted(r)) => match r {
            Err(e) => if rec.connected {
                persist_failed_exec(rec, e)
            } else {
                finish_exec(true, false, None, Err(e))
            },
            Ok(()) => if rec.connected {
                let n = log_note("INFO", str_to_string("Settings validated, live applied, and persisted atomically"));
                finish_exec(false, false, Some(n), Ok(()))
            } else {
                let n = log_note("INFO", str_to_string("Settings saved successfully to storage"));
                finish_exec(false, false, Some(n), Ok(()))
            },
        },
        (SettingsWriteStage::RestoringRuntime, SettingsWriteEvent::LiveApplied(r)) => match r {
            Ok(()) => {
                let m = concat3(
                    "Settings persistence failed (",
                    rec.persist_error.as_str(),
                    "). Runtime restored successfully to previous configuration.",
                );
                let n = log_note("ERROR", m.clone());
                finish_exec(false, false, Some(n), Err(m))
            },
            Err(rb) => {
                let mut m = concat3(
                    "CRITICAL: Settings persistence failed (",
                    rec.persist_error.as_str(),
                    ") AND runtime rollback also failed (",
                );
                m.append(rb.as_str());
                m.append(").");
                let n = log_note("ERROR", m.clone());
                finish_exec(false, false, Some(n), Err(m))
            },
        },
        _ => unexpected(stage),
    }
}

/// One step of a reset to the defaults.
pub fn reset_step(rec: &mut SettingsWrite, stage: SettingsWriteStage, event: SettingsWriteEvent) -> (r: (
    SettingsWriteStage,
    SettingsWriteCommand,
))
    ensures
        (final(rec)@, r.0, r.1@) == reset_transition(old(rec)@, stage, event@),
{
    match (stage, event) {
        (SettingsWriteStage::ApplyingCandidate, SettingsWriteEvent::LiveApplied(r)) => match r {
            Err(e) => finish_exec(false, false, None, Err(e)),
            Ok(()) => (SettingsWriteStage::ConfiguringStartup, SettingsWriteCommand::ConfigureStartup),
        },
        (SettingsWriteStage::ConfiguringStartup, SettingsWriteEvent::StartupConfigured(r)) => match r {
            Err(e) => {
                let c = rec.connected;
                finish_exec(true, c, None, Err(e))
            },
            Ok(()) => (SettingsWriteStage::Persisting, SettingsWriteCommand::Persist),
        },
        (SettingsWriteStage::Persisting, SettingsWriteEvent::Persisted(r)) => match r {
            Err(e) => {
                let c = rec.connected;
                finish_exec(true, c, None, Err(e))
            },
            Ok(()) => {
                let n = log_note("WARN", str_to_string("Reset settings to factory defaults"));
                finish_exec(false, false, Some(n), Ok(()))
            },
        },
        _ => unexpected(stage),
    }
}

// ---------------------------------------------------------------------------
// Laws of settings writes
// ---------------------------------------------------------------------------

/// The command ends the write successfully.
pub open spec fn finishes_ok(c: SettingsWriteCommandView) -> bool {
    match c {
        SettingsWriteCommandView::Finish { result: Ok(()), .. } => true,
        _ => false,
    }
}

/// The command ends the write with an error.
pub open spec fn finishes_err(c: SettingsWriteCommandView) -> bool {
    match c {
        SettingsWriteCommandView::Finish { result: Err(_), .. } => true,
        _ => false,
    }
}

/// The event reports a failed start-with-Windows integration or a failed write.
pub open spec fn persistence_failure(stage: SettingsWriteStage, event: SettingsWriteEventView) -> bool {
    match (stage, event) {
        (SettingsWriteStage::ConfiguringStartup, SettingsWriteEventView::StartupConfigured(Err(_))) => true,
        (SettingsWriteStage::Persisting, SettingsWriteEventView::Persisted(Err(_))) => true,
        _ => false,
    }
}

/// A save or a reset succeeds only once the settings were written; a save made while
/// connected whose persistence fails puts the previous settings back onto the running router
/// and ends in an error whatever that restore gives; a reset whose persistence fails reverts
/// start-with-Windows and, while connected, the running router.
pub proof fn law_settings_write_persists_or_restores(
    rec: SettingsWriteView,
    stage: SettingsWriteStage,
    event: SettingsWriteEventView,
    restore: Result<(), Seq<char>>,
)
    ensures
        finishes_ok(save_transition(rec, stage, event).2) ==> stage == SettingsWriteStage::Persisting
            && event == SettingsWriteEventView::Persisted(Ok(())),
        finishes_ok(reset_transition(rec, stage, event).2) ==> stage == SettingsWriteStage::Persisting
            && event == SettingsWriteEventView::Persisted(Ok(())),
        rec.connected && persistence_failure(stage, event) ==> {
            let (r2, s2, c2) = save_transition(rec, stage, event);
            &&& s2 == SettingsWriteStage::RestoringRuntime
            &&& c2 is RollbackRuntime
            &&& finishes_err(save_transition(r2, s2, SettingsWriteEventView::LiveApplied(restore)).2)
        },
        persistence_failure(stage, event) ==> reset_transition(rec, stage, event).2 == finish(
            true,
            rec.connected,
            None,
            match event {
                SettingsWriteEventView::StartupConfigured(r) => r,
                SettingsWriteEventView::Persisted(r) => r,
                SettingsWriteEventView::LiveApplied(r) => r,
            },
        ),
{
    match event {
        SettingsWriteEventView::Persisted(r) => match r {
            Ok(u) => {
                assert(event == SettingsWriteEventView::Persisted(Ok(())));
            },
            Err(_) => {},
        },
        _ => {},
    }
}

} // verus!
