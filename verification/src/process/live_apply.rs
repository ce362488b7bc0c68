//! Transactional live apply of new routing settings to a running sing-box router.
//!
//! The candidate configuration is written and checked while the old router keeps running;
//! the known-good configuration is backed up before it is replaced; the new router must
//! pass the full router verification, and if it fails, the backup is restored and the old
//! router is relaunched and verified in turn. The file operations, process launches and
//! verifications are performed by the caller, which hands back each result.
use vstd::prelude::*;
use crate::models::settings::AppSettings;
use crate::text::{concat, concat3, str_to_string};

verus! {

/// What the running router was launched with; it changes only when a router was verified.
#[derive(Debug, Clone)]
pub struct ActiveRouter {
    pub executable_path: Option<String>,
    pub interface_name: Option<String>,
}

/// The old and the candidate launch parameters of one live apply, and the failure that
/// started a rollback.
#[derive(Debug, Clone)]
pub struct LiveApplyPlan {
    pub old_executable: String,
    pub old_interface: String,
    pub candidate_executable: String,
    pub candidate_interface: String,
    pub candidate_tun_address: String,
    pub rollback_reason: String,
}

/// Where the live apply stands.
#[derive(Debug, Clone, Copy, PartialEq, Eq, Structural)]
pub enum LiveApplyStage {
    WritingCandidate,
    ValidatingCandidate,
    BackingUp,
    Replacing,
    StoppingOld,
    SpawningCandidate,
    VerifyingCandidate,
    RollbackStopping,
    RollbackCheckingBackup,
    RollbackRestoring,
    RollbackSpawning,
    RollbackVerifying,
    Done,
}

/// A log line to write.
#[derive(Debug, Clone)]
pub struct LogNote {
    pub level: &'static str,
    pub message: String,
}

/// The result handed back after a command.
#[derive(Debug)]
pub enum LiveApplyEvent {
    /// The candidate configuration was written to its own file.
    CandidateWritten(Result<(), String>),
    /// `sing-box check` on the candidate file.
    CandidateValidated(Result<(), String>),
    /// The active configuration was copied to the backup file (success when there was none).
    BackedUp(Result<(), String>),
    /// The candidate file atomically replaced the active configuration.
    Replaced(Result<(), String>),
    /// The running router was stopped (and the requested pause is over).
    Stopped,
    /// A router was launched from the active configuration file.
    Spawned(Result<(), String>),
    /// Router verification of the launched router.
    Verified(Result<(), String>),
    /// Whether the backup file exists.
    BackupExists(bool),
    /// The backup file atomically replaced the active configuration.
    Restored(Result<(), String>),
}

/// The next thing for the caller to do.
#[derive(Debug)]
pub enum LiveApplyCommand {
    /// Generate the configuration from the settings and write it to the candidate file.
    WriteCandidate,
    /// Run `sing-box check` with this executable on the candidate file.
    ValidateCandidate { executable: String },
    /// Copy the active configuration, if there is one, to the backup file.
    BackupActive,
    /// Atomically replace the active configuration with the candidate file.
    ReplaceActive,
    /// Log the note, stop the running router, then pause.
    StopRouter { note: LogNote, pause_ms: u64 },
    /// Launch a router with this executable from the active configuration file.
    Spawn { executable: String },
    /// Run the router verification for this interface and address.
    Verify { interface_name: String, tun_address: String },
    /// Report whether the backup file exists.
    CheckBackupExists,
    /// Log the note and atomically replace the active configuration with the backup file.
    RestoreBackup { note: LogNote },
    /// Remove the files named, log the note, and end with the result.
    Finish {
        remove_candidate: bool,
        remove_backup: bool,
        note: Option<LogNote>,
        result: Result<(), String>,
    },
}

// ---------------------------------------------------------------------------
// Models
// ---------------------------------------------------------------------------

/// Model of an optional text.
pub open spec fn opt_view(o: Option<String>) -> Option<Seq<char>> {
    match o {
        Some(s) => Some(s@),
        None => None,
    }
}

/// Model of the active router record.
pub struct ActiveRouterView {
    pub executable_path: Option<Seq<char>>,
    pub interface_name: Option<Seq<char>>,
}

impl View for ActiveRouter {
    type V = ActiveRouterView;

    open spec fn view(&self) -> ActiveRouterView {
        ActiveRouterView {
            executable_path: opt_view(self.executable_path),
            interface_name: opt_view(self.interface_name),
        }
    }
}

/// Model of a plan.
pub struct LiveApplyPlanView {
    pub old_executable: Seq<char>,
    pub old_interface: Seq<char>,
    pub candidate_executable: Seq<char>,
    pub candidate_interface: Seq<char>,
    pub candidate_tun_address: Seq<char>,
    pub rollback_reason: Seq<char>,
}

impl View for LiveApplyPlan {
    type V = LiveApplyPlanView;

    open spec fn view(&self) -> LiveApplyPlanView {
        LiveApplyPlanView {
            old_executable: self.old_executable@,
            old_interface: self.old_interface@,
            candidate_executable: self.candidate_executable@,
            candidate_interface: self.candidate_interface@,
            candidate_tun_address: self.candidate_tun_address@,
            rollback_reason: self.rollback_reason@,
        }
    }
}

/// Model of a log note.
pub struct LogNoteView {
    pub level: Seq<char>,
    pub message: Seq<char>,
}

/// Model of a log note.
pub open spec fn note_view(n: LogNote) -> LogNoteView {
    LogNoteView { level: n.level@, message: n.message@ }
}

/// Model of a unit result.
pub open spec fn result_view(r: Result<(), String>) -> Result<(), Seq<char>> {
    match r {
        Ok(()) => Ok(()),
        Err(e) => Err(e@),
    }
}

/// Model of an event.
pub enum LiveApplyEventView {
    CandidateWritten(Result<(), Seq<char>>),
    CandidateValidated(Result<(), Seq<char>>),
    BackedUp(Result<(), Seq<char>>),
    Replaced(Result<(), Seq<char>>),
    Stopped,
    Spawned(Result<(), Seq<char>>),
    Verified(Result<(), Seq<char>>),
    BackupExists(bool),
    Restored(Result<(), Seq<char>>),
}

impl View for LiveApplyEvent {
    type V = LiveApplyEventView;

    open spec fn view(&self) -> LiveApplyEventView {
        match self {
            LiveApplyEvent::CandidateWritten(r) => LiveApplyEventView::CandidateWritten(result_view(*r)),
            LiveApplyEvent::CandidateValidated(r) => LiveApplyEventView::CandidateValidated(
                result_view(*r),
            ),
            LiveApplyEvent::BackedUp(r) => LiveApplyEventView::BackedUp(result_view(*r)),
            LiveApplyEvent::Replaced(r) => LiveApplyEventView::Replaced(result_view(*r)),
            LiveApplyEvent::Stopped => LiveApplyEventView::Stopped,
            LiveApplyEvent::Spawned(r) => LiveApplyEventView::Spawned(result_view(*r)),
            LiveApplyEvent::Verified(r) => LiveApplyEventView::Verified(result_view(*r)),
            LiveApplyEvent::BackupExists(b) => LiveApplyEventView::BackupExists(*b),
            LiveApplyEvent::Restored(r) => LiveApplyEventView::Restored(result_view(*r)),
        }
    }
}

/// Model of a command.
pub enum LiveApplyCommandView {
    WriteCandidate,
    ValidateCandidate { executable: Seq<char> },
    BackupActive,
    ReplaceActive,
    StopRouter { note: LogNoteView, pause_ms: u64 },
    Spawn { executable: Seq<char> },
    Verify { interface_name: Seq<char>, tun_address: Seq<char> },
    CheckBackupExists,
    RestoreBackup { note: LogNoteView },
    Finish {
        remove_candidate: bool,
        remove_backup: bool,
        note: Option<LogNoteView>,
        result: Result<(), Seq<char>>,
    },
}

impl View for LiveApplyCommand {
    type V = LiveApplyCommandView;

    open spec fn view(&self) -> LiveApplyCommandView {
        match self {
            LiveApplyCommand::WriteCandidate => LiveApplyCommandView::WriteCandidate,
            LiveApplyCommand::ValidateCandidate { executable } => LiveApplyCommandView::ValidateCandidate {
                executable: executable@,
            },
            LiveApplyCommand::BackupActive => LiveApplyCommandView::BackupActive,
            LiveApplyCommand::ReplaceActive => LiveApplyCommandView::ReplaceActive,
            LiveApplyCommand::StopRouter { note, pause_ms } => LiveApplyCommandView::StopRouter {
                note: note_view(*note),
                pause_ms: *pause_ms,
            },
            LiveApplyCommand::Spawn { executable } => LiveApplyCommandView::Spawn {
                executable: executable@,
            },
            LiveApplyCommand::Verify { interface_name, tun_address } => LiveApplyCommandView::Verify {
                interface_name: interface_name@,
                tun_address: tun_address@,
            },
            LiveApplyCommand::CheckBackupExists => LiveApplyCommandView::CheckBackupExists,
            LiveApplyCommand::RestoreBackup { note } => LiveApplyCommandView::RestoreBackup {
                note: note_view(*note),
            },
            LiveApplyCommand::Finish { remove_candidate, remove_backup, note, result } =>
                LiveApplyCommandView::Finish {
                remove_candidate: *remove_candidate,
                remove_backup: *remove_backup,
                note: match note {
                    Some(n) => Some(note_view(*n)),
                    None => None,
                },
                result: result_view(*result),
            },
        }
    }
}

// ---------------------------------------------------------------------------
// Transition
// ---------------------------------------------------------------------------

/// Pause between stopping the old router and launching the candidate.
pub const STOP_PAUSE_MS: u64 = 150;

/// The plan of a live apply: the old parameters are those the running router was launched
/// with (the settings' own where it never was), the candidate ones come from the settings.
pub open spec fn plan_of(active: ActiveRouterView, settings: AppSettings) -> LiveApplyPlanView {
    LiveApplyPlanView {
        old_executable: match active.executable_path {
            Some(e) => e,
            None => settings.sing_box.executable_path@,
        },
        old_interface: match active.interface_name {
            Some(i) => i,
            None => settings.sing_box.interface_name@,
        },
        candidate_executable: settings.sing_box.executable_path@,
        candidate_interface: settings.sing_box.interface_name@,
        candidate_tun_address: settings.sing_box.tun_address@,
        rollback_reason: Seq::empty(),
    }
}

/// A log note.
pub open spec fn note(level: Seq<char>, message: Seq<char>) -> LogNoteView {
    LogNoteView { level, message }
}

/// A final command.
pub open spec fn finish(
    remove_candidate: bool,
    remove_backup: bool,
    n: Option<LogNoteView>,
    result: Result<(), Seq<char>>,
) -> LiveApplyCommandView {
    LiveApplyCommandView::Finish { remove_candidate, remove_backup, note: n, result }
}

/// The start of a rollback after `reason`, announced by an error note.
pub open spec fn start_rollback(
    active: ActiveRouterView,
    plan: LiveApplyPlanView,
    reason: Seq<char>,
    announcement: Seq<char>,
) -> (ActiveRouterView, LiveApplyPlanView, LiveApplyStage, LiveApplyCommandView) {
    (
        active,
        LiveApplyPlanView { rollback_reason: reason, ..plan },
        LiveApplyStage::RollbackStopping,
        LiveApplyCommandView::StopRouter { note: note("ERROR"@, announcement), pause_ms: 0 },
    )
}

/// One transition of the live apply: the new active-router record, the new plan, the next
/// stage and the next command.
pub open spec fn live_apply_transition(
    active: ActiveRouterView,
    plan: LiveApplyPlanView,
    stage: LiveApplyStage,
    event: LiveApplyEventView,
) -> (ActiveRouterView, LiveApplyPlanView, LiveApplyStage, LiveApplyCommandView) {
    let reason = plan.rollback_reason;
    match (stage, event) {
        (LiveApplyStage::WritingCandidate, LiveApplyEventView::CandidateWritten(r)) => match r {
            Err(e) => (active, plan, LiveApplyStage::Done, finish(false, false, None, Err(e))),
            Ok(()) => (
                active,
                plan,
                LiveApplyStage::ValidatingCandidate,
                LiveApplyCommandView::ValidateCandidate { executable: plan.candidate_executable },
            ),
        },
        (LiveApplyStage::ValidatingCandidate, LiveApplyEventView::CandidateValidated(r)) => match r {
            Err(e) => (
                active,
                plan,
                LiveApplyStage::Done,
                finish(
                    true,
                    false,
                    Some(note("ERROR"@, "Candidate config invalid: "@ + e + ". Existing routing unchanged."@)),
                    Err("Configuration check failed: "@ + e + ". Existing routing kept active."@),
                ),
            ),
            Ok(()) => (active, plan, LiveApplyStage::BackingUp, LiveApplyCommandView::BackupActive),
        },
        (LiveApplyStage::BackingUp, LiveApplyEventView::BackedUp(r)) => match r {
            Err(e) => (
                active,
                plan,
                LiveApplyStage::Done,
                finish(
                    true,
                    false,
                    None,
                    Err(
                        "Unable to preserve known-good routing config (backup creation failed: "@ + e
                            + "); live apply aborted."@,
                    ),
                ),
            ),
            Ok(()) => (active, plan, LiveApplyStage::Replacing, LiveApplyCommandView::ReplaceActive),
        },
        (LiveApplyStage::Replacing, LiveApplyEventView::Replaced(r)) => match r {
            Err(e) => (
                active,
                plan,
                LiveApplyStage::Done,
                finish(true, true, None, Err("Failed to atomically replace active config file: "@ + e)),
            ),
            Ok(()) => (
                active,
                plan,
                LiveApplyStage::StoppingOld,
                LiveApplyCommandView::StopRouter {
                    note: note("INFO"@, "Applying validated candidate routing configuration..."@),
                    pause_ms: STOP_PAUSE_MS,
                },
            ),
        },
        (LiveApplyStage::StoppingOld, LiveApplyEventView::Stopped) => (
            active,
            plan,
            LiveApplyStage::SpawningCandidate,
            LiveApplyCommandView::Spawn { executable: plan.candidate_executable },
        ),
        (LiveApplyStage::SpawningCandidate, LiveApplyEventView::Spawned(r)) => match r {
            Err(e) => start_rollback(
                active,
                plan,
                e,
                "Failed to spawn router with candidate config: "@ + e + ". Initiating rollback..."@,
            ),
            Ok(()) => (
                active,
                plan,
                LiveApplyStage::VerifyingCandidate,
                LiveApplyCommandView::Verify {
                    interface_name: plan.candidate_interface,
                    tun_address: plan.candidate_tun_address,
                },
            ),
        },
        (LiveApplyStage::VerifyingCandidate, LiveApplyEventView::Verified(r)) => match r {
            Err(e) => start_rollback(
                active,
                plan,
                e,
                "New routing candidate failed health verification ("@ + e + "). Initiating rollback..."@,
            ),
            Ok(()) => (
                ActiveRouterView {
                    executable_path: Some(plan.candidate_executable),
                    interface_name: Some(plan.candidate_interface),
                },
                plan,
                LiveApplyStage::Done,
                finish(
                    false,
                    true,
                    Some(note("INFO"@, "Updated routing configuration applied and fully verified successfully"@)),
                    Ok(()),
                ),
            ),
        },
        (LiveApplyStage::RollbackStopping, LiveApplyEventView::Stopped) => (
            active,
            plan,
            LiveApplyStage::RollbackCheckingBackup,
            LiveApplyCommandView::CheckBackupExists,
        ),
        (LiveApplyStage::RollbackCheckingBackup, LiveApplyEventView::BackupExists(exists)) => if !exists {
            (
                active,
                plan,
                LiveApplyStage::Done,
                finish(
                    false,
                    false,
                    None,
                    Err(
                        "CRITICAL: Failed to start new router ("@ + reason
                            + ") and no backup config existed for rollback."@,
                    ),
                ),
            )
        } else {
            (
                active,
                plan,
                LiveApplyStage::RollbackRestoring,
                LiveApplyCommandView::RestoreBackup {
                    note: note("WARN"@, "Restoring previous known-good routing configuration..."@),
                },
            )
        },
        (LiveApplyStage::RollbackRestoring, LiveApplyEventView::Restored(r)) => match r {
            Err(e) => (
                active,
                plan,
                LiveApplyStage::Done,
                finish(
                    false,
                    false,
                    None,
                    Err(
                        "CRITICAL: Failed to atomically restore backup config ("@ + e
                            + ") during rollback after error: "@ + reason,
                    ),
                ),
            ),
            Ok(()) => (
                active,
                plan,
                LiveApplyStage::RollbackSpawning,
                LiveApplyCommandView::Spawn { executable: plan.old_executable },
            ),
        },
        (LiveApplyStage::RollbackSpawning, LiveApplyEventView::Spawned(r)) => match r {
            Err(e) => (
                active,
                plan,
                LiveApplyStage::Done,
                finish(
                    false,
                    false,
                    Some(note("ERROR"@, "CRITICAL: Rollback router launch failed: "@ + e)),
                    Err(
                        "CRITICAL: New routing configuration failed ("@ + reason
                            + ") AND automatic rollback launch also failed ("@ + e + ")."@,
                    ),
                ),
            ),
            Ok(()) => (
                active,
                plan,
                LiveApplyStage::RollbackVerifying,
                LiveApplyCommandView::Verify {
                    interface_name: plan.old_interface,
                    tun_address: plan.candidate_tun_address,
                },
            ),
        },
        (LiveApplyStage::RollbackVerifying, LiveApplyEventView::Verified(r)) => match r {
            Err(e) => (
                active,
                plan,
                LiveApplyStage::Done,
                finish(
                    false,
                    false,
                    Some(note("ERROR"@, "CRITICAL: Rollback router failed health verification: "@ + e)),
                    Err(
                        "CRITICAL: New routing configuration failed ("@ + reason
                            + ") AND rollback router health verification also failed ("@ + e + ")."@,
                    ),
                ),
            ),
            Ok(()) => (
                ActiveRouterView {
                    executable_path: Some(plan.old_executable),
                    interface_name: Some(plan.old_interface),
                },
                plan,
                LiveApplyStage::Done,
                finish(
                    false,
                    true,
                    Some(note("INFO"@, "Rollback to previous known-good routing configuration verified successfully"@)),
                    Err(
                        "New routing configuration failed ("@ + reason
                            + "); rolled back to previous working configuration successfully."@,
                    ),
                ),
            ),
        },
        _ => (
            active,
            plan,
            stage,
            finish(false, false, None, Err("Unexpected event for the current live apply stage"@)),
        ),
    }
}

// ---------------------------------------------------------------------------
// Executable transition
// ---------------------------------------------------------------------------

fn concat5(a: &str, b: &str, c: &str, d: &str, e: &str) -> (r: String)
    ensures
        r@ == a@ + b@ + c@ + d@ + e@,
{
    let mut r = concat3(a, b, c);
    r.append(d);
    r.append(e);
    r
}

fn log_note(level: &'static str, message: String) -> (r: LogNote)
    ensures
        note_view(r) == note(level@, message@),
{
    LogNote { level, message }
}

fn finish_exec(
    remove_candidate: bool,
    remove_backup: bool,
    n: Option<LogNote>,
    result: Result<(), String>,
) -> (r: (LiveApplyStage, LiveApplyCommand))
    ensures
        r.0 == LiveApplyStage::Done,
        r.1@ == finish(
            remove_candidate,
            remove_backup,
            match n {
                Some(x) => Some(note_view(x)),
                None => None,
            },
            result_view(result),
        ),
{
    (LiveApplyStage::Done, LiveApplyCommand::Finish { remove_candidate, remove_backup, note: n, result })
}

/// Starts a live apply of `settings` to the router described by `active`: the first command
/// writes the candidate configuration.
pub fn live_apply_begin(active: &ActiveRouter, settings: &AppSettings) -> (r: (
    LiveApplyPlan,
    LiveApplyStage,
    LiveApplyCommand,
))
    ensures
        r.0@ == plan_of(active@, *settings),
        r.1 == LiveApplyStage::WritingCandidate,
        r.2@ == LiveApplyCommandView::WriteCandidate,
{
    let old_executable = match &active.executable_path {
        Some(e) => e.clone(),
        None => settings.sing_box.executable_path.clone(),
    };
    let old_interface = match &active.interface_name {
        Some(i) => i.clone(),
        None => settings.sing_box.interface_name.clone(),
    };
    (
        LiveApplyPlan {
            old_executable,
            old_interface,
            candidate_executable: settings.sing_box.executable_path.clone(),
            candidate_interface: settings.sing_box.interface_name.clone(),
            candidate_tun_address: settings.sing_box.tun_address.clone(),
            rollback_reason: String::new(),
        },
        LiveApplyStage::WritingCandidate,
        LiveApplyCommand::WriteCandidate,
    )
}

/// One step of the live apply: applies the result to the active-router record and the plan,
/// and returns the next stage and the next command. The caller performs each command and
/// hands back its result until a `Finish` command ends the live apply.
#[verifier::rlimit(40)]
pub fn live_apply_step(
    active: &mut ActiveRouter,
    plan: &mut LiveApplyPlan,
    stage: LiveApplyStage,
    event: LiveApplyEvent,
) -> (r: (LiveApplyStage, LiveApplyCommand))
    ensures
        (final(active)@, final(plan)@, r.0, r.1@) == live_apply_transition(
            old(active)@,
            old(plan)@,
            stage,
            event@,
        ),
{
    match (stage, event) {
        (LiveApplyStage::WritingCandidate, LiveApplyEvent::CandidateWritten(r)) => match r {
            Err(e) => finish_exec(false, false, None, Err(e)),
            Ok(()) => (
                LiveApplyStage::ValidatingCandidate,
                LiveApplyCommand::ValidateCandidate { executable: plan.candidate_executable.clone() },
            ),
        },
        (LiveApplyStage::ValidatingCandidate, LiveApplyEvent::CandidateValidated(r)) => match r {
            Err(e) => {
                let n = log_note(
                    "ERROR",
                    concat3("Candidate config invalid: ", e.as_str(), ". Existing routing unchanged."),
                );
                let m = concat3("Configuration check failed: ", e.as_str(), ". Existing routing kept active.");
                finish_exec(true, false, Some(n), Err(m))
            },
            Ok(()) => (LiveApplyStage::BackingUp, LiveApplyCommand::BackupActive),
        },
        (LiveApplyStage::BackingUp, LiveApplyEvent::BackedUp(r)) => match r {
            Err(e) => {
                let m = concat3(
                    "Unable to preserve known-good routing config (backup creation failed: ",
                    e.as_str(),
                    "); live apply aborted.",
                );
                finish_exec(true, false, None, Err(m))
            },
            Ok(()) => (LiveApplyStage::Replacing, LiveApplyCommand::ReplaceActive),
        },
        (LiveApplyStage::Replacing, LiveApplyEvent::Replaced(r)) => match r {
            Err(e) => {
                let m = concat("Failed to atomically replace active config file: ", e.as_str());
                finish_exec(true, true, None, Err(m))
            },
            Ok(()) => (
                LiveApplyStage::StoppingOld,
                LiveApplyCommand::StopRouter {
                    note: log_note("INFO", str_to_string("Applying validated candidate routing configuration...")),
                    pause_ms: STOP_PAUSE_MS,
                },
            ),
        },
        (LiveApplyStage::StoppingOld, LiveApplyEvent::Stopped) => (
            LiveApplyStage::SpawningCandidate,
            LiveApplyCommand::Spawn { executable: plan.candidate_executable.clone() },
        ),
        (LiveApplyStage::SpawningCandidate, LiveApplyEvent::Spawned(r)) => match r {
            Err(e) => {
                let a = concat3(
                    "Failed to spawn router with candidate config: ",
                    e.as_str(),
                    ". Initiating rollback...",
                );
                plan.rollback_reason = e;
                (
                    LiveApplyStage::RollbackStopping,
                    LiveApplyCommand::StopRouter { note: log_note("ERROR", a), pause_ms: 0 },
                )
            },
            Ok(()) => (
                LiveApplyStage::VerifyingCandidate,
                LiveApplyCommand::Verify {
                    interface_name: plan.candidate_interface.clone(),
                    tun_address: plan.candidate_tun_address.clone(),
                },
            ),
        },
        (LiveApplyStage::VerifyingCandidate, LiveApplyEvent::Verified(r)) => match r {
            Err(e) => {
                let a = concat3(
                    "New routing candidate failed health verification (",
                    e.as_str(),
                    "). Initiating rollback...",
                );
                plan.rollback_reason = e;
                (
                    LiveApplyStage::RollbackStopping,
                    LiveApplyCommand::StopRouter { note: log_note("ERROR", a), pause_ms: 0 },
                )
            },
            Ok(()) => {
                active.executable_path = Some(plan.candidate_executable.clone());
                active.interface_name = Some(plan.candidate_interface.clone());
                let n = log_note(
                    "INFO",
                    str_to_string("Updated routing configuration applied and fully verified successfully"),
                );
                finish_exec(false, true, Some(n), Ok(()))
            },
        },
        (LiveApplyStage::RollbackStopping, LiveApplyEvent::Stopped) => (
            LiveApplyStage::RollbackCheckingBackup,
            LiveApplyCommand::CheckBackupExists,
        ),
        (LiveApplyStage::RollbackCheckingBackup, LiveApplyEvent::BackupExists(exists)) => if !exists {
            let m = concat3(
                "CRITICAL: Failed to start new router (",
                plan.rollback_reason.as_str(),
                ") and no backup config existed for rollback.",
            );
            finish_exec(false, false, None, Err(m))
        } else {
            (
                LiveApplyStage::RollbackRestoring,
                LiveApplyCommand::RestoreBackup {
                    note: log_note("WARN", str_to_string("Restoring previous known-good routing configuration...")),
                },
            )
        },
        (LiveApplyStage::RollbackRestoring, LiveApplyEvent::Restored(r)) => match r {
            Err(e) => {
                let m = concat5(
                    "CRITICAL: Failed to atomically restore backup config (",
                    e.as_str(),
                    ") during rollback after error: ",
                    plan.rollback_reason.as_str(),
                    "",
                );
                proof {
                    reveal_strlit("");
                    assert(m@ =~= "CRITICAL: Failed to atomically restore backup config ("@ + e@
                        + ") during rollback after error: "@ + plan.rollback_reason@);
                }
                finish_exec(false, false, None, Err(m))
            },
            Ok(()) => (
                LiveApplyStage::RollbackSpawning,
                LiveApplyCommand::Spawn { executable: plan.old_executable.clone() },
            ),
        },
        (LiveApplyStage::RollbackSpawning, LiveApplyEvent::Spawned(r)) => match r {
            Err(e) => {
                let n = log_note("ERROR", concat("CRITICAL: Rollback router launch failed: ", e.as_str()));
                let m = concat5(
                    "CRITICAL: New routing configuration failed (",
                    plan.rollback_reason.as_str(),
                    ") AND automatic rollback launch also failed (",
                    e.as_str(),
                    ").",
                );
                finish_exec(false, false, Some(n), Err(m))
            },
            Ok(()) => (
                LiveApplyStage::RollbackVerifying,
                LiveApplyCommand::Verify {
                    interface_name: plan.old_interface.clone(),
                    tun_address: plan.candidate_tun_address.clone(),
                },
            ),
        },
        (LiveApplyStage::RollbackVerifying, LiveApplyEvent::Verified(r)) => match r {
            Err(e) => {
                let n = log_note(
                    "ERROR",
                    concat("CRITICAL: Rollback router failed health verification: ", e.as_str()),
                );
                let m = concat5(
                    "CRITICAL: New routing configuration failed (",
                    plan.rollback_reason.as_str(),
                    ") AND rollback router health verification also failed (",
                    e.as_str(),
                    ").",
                );
                finish_exec(false, false, Some(n), Err(m))
            },
            Ok(()) => {
                active.executable_path = Some(plan.old_executable.clone());
                active.interface_name = Some(plan.old_interface.clone());
                let n = log_note(
                    "INFO",
                    str_to_string("Rollback to previous known-good routing configuration verified successfully"),
                );
                let m = concat3(
                    "New routing configuration failed (",
                    plan.rollback_reason.as_str(),
                    "); rolled back to previous working configuration successfully.",
                );
                finish_exec(false, true, Some(n), Err(m))
            },
        },
        _ => finish_stay(stage),
    }
}

fn finish_stay(stage: LiveApplyStage) -> (r: (LiveApplyStage, LiveApplyCommand))
    ensures
        r.0 == stage,
        r.1@ == finish(false, false, None, Err("Unexpected event for the current live apply stage"@)),
{
    (
        stage,
        LiveApplyCommand::Finish {
            remove_candidate: false,
            remove_backup: false,
            note: None,
            result: Err(str_to_string("Unexpected event for the current live apply stage")),
        },
    )
}

// ---------------------------------------------------------------------------
// Laws of the live apply
// ---------------------------------------------------------------------------

/// The command ends the live apply successfully.
pub open spec fn finishes_ok(c: LiveApplyCommandView) -> bool {
    match c {
        LiveApplyCommandView::Finish { result: Ok(()), .. } => true,
        _ => false,
    }
}

/// The command ends the live apply with an error.
pub open spec fn finishes_err(c: LiveApplyCommandView) -> bool {
    match c {
        LiveApplyCommandView::Finish { result: Err(_), .. } => true,
        _ => false,
    }
}

/// The stage belongs to a rollback.
pub open spec fn in_rollback(stage: LiveApplyStage) -> bool {
    match stage {
        LiveApplyStage::RollbackStopping | LiveApplyStage::RollbackCheckingBackup
        | LiveApplyStage::RollbackRestoring | LiveApplyStage::RollbackSpawning
        | LiveApplyStage::RollbackVerifying => true,
        _ => false,
    }
}

/// The event reports the failure of the step the stage waits for, before the active
/// configuration was replaced.
pub open spec fn early_failure(stage: LiveApplyStage, event: LiveApplyEventView) -> bool {
    match (stage, event) {
        (LiveApplyStage::WritingCandidate, LiveApplyEventView::CandidateWritten(Err(_))) => true,
        (LiveApplyStage::ValidatingCandidate, LiveApplyEventView::CandidateValidated(Err(_))) => true,
        (LiveApplyStage::BackingUp, LiveApplyEventView::BackedUp(Err(_))) => true,
        (LiveApplyStage::Replacing, LiveApplyEventView::Replaced(Err(_))) => true,
        _ => false,
    }
}

/// The record of what the running router was launched with changes only when a launched
/// router passed its verification: to the candidate parameters after the candidate's, to
/// the old ones after the rollback router's. A live apply succeeds only when the candidate
/// router passed, and no step of a rollback ever reports success.
pub proof fn law_live_apply_commits_only_verified_routers(
    active: ActiveRouterView,
    plan: LiveApplyPlanView,
    stage: LiveApplyStage,
    event: LiveApplyEventView,
)
    ensures
        ({
            let (a2, _, _, _) = live_apply_transition(active, plan, stage, event);
            a2 != active ==> (stage == LiveApplyStage::VerifyingCandidate || stage
                == LiveApplyStage::RollbackVerifying) && event == LiveApplyEventView::Verified(Ok(()))
        }),
        stage == LiveApplyStage::VerifyingCandidate && event == LiveApplyEventView::Verified(Ok(()))
            ==> live_apply_transition(active, plan, stage, event).0 == (ActiveRouterView {
            executable_path: Some(plan.candidate_executable),
            interface_name: Some(plan.candidate_interface),
        }),
        stage == LiveApplyStage::RollbackVerifying && event == LiveApplyEventView::Verified(Ok(()))
            ==> live_apply_transition(active, plan, stage, event).0 == (ActiveRouterView {
            executable_path: Some(plan.old_executable),
            interface_name: Some(plan.old_interface),
        }),
        finishes_ok(live_apply_transition(active, plan, stage, event).3) ==> stage
            == LiveApplyStage::VerifyingCandidate && event == LiveApplyEventView::Verified(Ok(())),
        in_rollback(stage) ==> !finishes_ok(live_apply_transition(active, plan, stage, event).3),
{
    match event {
        LiveApplyEventView::Verified(r) => match r {
            Ok(u) => {
                assert(event == LiveApplyEventView::Verified(Ok(())));
            },
            Err(_) => {},
        },
        _ => {},
    }
}

/// A failure before the active configuration is replaced ends the live apply with an error
/// and leaves the running router alone: nothing is stopped and its record is unchanged.
pub proof fn law_live_apply_early_failure_keeps_running_router(
    active: ActiveRouterView,
    plan: LiveApplyPlanView,
    stage: LiveApplyStage,
    event: LiveApplyEventView,
)
    requires
        early_failure(stage, event),
    ensures
        live_apply_transition(active, plan, stage, event).0 == active,
        live_apply_transition(active, plan, stage, event).2 == LiveApplyStage::Done,
        finishes_err(live_apply_transition(active, plan, stage, event).3),
{
}

/// Once the active configuration was replaced, a candidate router that fails to launch or
/// to verify starts a rollback: the router is stopped, the failure is kept as the reason,
/// and the rollback restores the backup, relaunches the old executable and verifies it on
/// the old interface.
pub proof fn law_live_apply_failed_candidate_rolls_back(
    active: ActiveRouterView,
    plan: LiveApplyPlanView,
    e: Seq<char>,
    launch_failed: bool,
)
    ensures
        ({
            let (stage, event) = if launch_failed {
                (LiveApplyStage::SpawningCandidate, LiveApplyEventView::Spawned(Err(e)))
            } else {
                (LiveApplyStage::VerifyingCandidate, LiveApplyEventView::Verified(Err(e)))
            };
            let (a2, p2, s2, c2) = live_apply_transition(active, plan, stage, event);
            &&& a2 == active
            &&& p2.rollback_reason == e
            &&& s2 == LiveApplyStage::RollbackStopping
            &&& c2 is StopRouter
        }),
        live_apply_transition(active, plan, LiveApplyStage::RollbackStopping, LiveApplyEventView::Stopped).3
            == LiveApplyCommandView::CheckBackupExists,
        live_apply_transition(
            active,
            plan,
            LiveApplyStage::RollbackCheckingBackup,
            LiveApplyEventView::BackupExists(true),
        ).3 is RestoreBackup,
        live_apply_transition(
            active,
            plan,
            LiveApplyStage::RollbackRestoring,
            LiveApplyEventView::Restored(Ok(())),
        ).3 == (LiveApplyCommandView::Spawn { executable: plan.old_executable }),
        live_apply_transition(
            active,
            plan,
            LiveApplyStage::RollbackSpawning,
            LiveApplyEventView::Spawned(Ok(())),
        ).3 == (LiveApplyCommandView::Verify {
            interface_name: plan.old_interface,
            tun_address: plan.candidate_tun_address,
        }),
{
}

} // verus!
