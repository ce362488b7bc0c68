//! Installation of the engines from their latest GitHub release, and the first-run setup
//! that installs whatever is missing.
//!
//! The release lookup, the download, the extraction, the file search, the version check and
//! the settings write are performed by the caller, which hands back each result; this module
//! decides what comes next, what progress to report and how the installation ends.
use vstd::prelude::*;
use crate::dependencies::github::{GithubRelease, ReleaseAsset};
use crate::dependencies::manager::{first_of_patterns, DependencyManager, DependencyStatus};
use crate::process::live_apply::result_view;
use crate::text::{concat, str_to_string};

verus! {

/// An engine that can be installed.
#[derive(Debug, Clone, Copy, PartialEq, Eq, Structural)]
pub enum Component {
    Aether,
    SingBox,
}

/// A progress report for the interface.
#[derive(Debug, Clone)]
pub struct ProgressNote {
    pub status: String,
    pub percent: u8,
    pub downloaded_bytes: u64,
    pub total_bytes: u64,
}

/// Where an installation stands.
#[derive(Debug, Clone, Copy, PartialEq, Eq, Structural)]
pub enum InstallStage {
    FetchingRelease,
    PreparingDir,
    Downloading,
    Extracting,
    Locating,
    CheckingVersion,
    Saving,
    Done,
}

/// What an installation remembers.
#[derive(Debug, Clone)]
pub struct InstallRecord {
    pub component: Component,
    /// Size of the chosen asset.
    pub asset_size: u64,
    /// Download URL of the chosen asset.
    pub asset_url: String,
    /// Where the release was extracted, as displayed in messages.
    pub dir_text: String,
    /// The executable that was found.
    pub executable: String,
}

/// The result handed back after a command.
#[derive(Debug)]
pub enum InstallEvent {
    /// The latest release, or the failure to get it.
    ReleaseFetched(Result<GithubRelease, String>),
    /// The release folder exists: its path as displayed, or the failure to create it.
    DirPrepared(Result<String, String>),
    /// The asset was downloaded to the temporary archive.
    Downloaded(Result<(), String>),
    /// The archive was extracted into the release folder.
    Extracted(Result<(), String>),
    /// The executable found in the release folder, if any.
    Located(Option<String>),
    /// `sing-box version`: whether it exited successfully, or the failure to run it.
    VersionChecked(Result<bool, String>),
    /// The executable path was saved in the settings.
    Saved(Result<(), String>),
}

/// The next thing for the caller to do; `progress`, when present, is reported first.
#[derive(Debug)]
pub enum InstallCommand {
    /// Fetch the latest release of the repository.
    FetchRelease { repo: String, progress: ProgressNote },
    /// Create the folder of this release tag.
    PrepareDir { tag: String },
    /// Download the asset to the temporary archive of this name.
    Download { url: String, expected_size: u64, archive_name: String },
    /// Extract the temporary archive into the release folder (then remove it).
    Extract { archive_name: String, progress: ProgressNote },
    /// Look for the executable of this name in the release folder.
    Locate { executable_name: String, progress: ProgressNote },
    /// Run `version` with the executable.
    CheckVersion { executable: String },
    /// Save the executable path in the settings of the component.
    SaveExecutablePath { executable: String },
    /// The installation is over: the executable's path, or the failure.
    Finish { progress: Option<ProgressNote>, result: Result<String, String> },
}

// ---------------------------------------------------------------------------
// Models
// ---------------------------------------------------------------------------

/// Model of a progress report.
pub struct ProgressView {
    pub status: Seq<char>,
    pub percent: u8,
    pub downloaded_bytes: u64,
    pub total_bytes: u64,
}

/// Model of a progress report.
pub open spec fn progress_view(p: ProgressNote) -> ProgressView {
    ProgressView {
        status: p.status@,
        percent: p.percent,
        downloaded_bytes: p.downloaded_bytes,
        total_bytes: p.total_bytes,
    }
}

/// Model of the record.
pub struct InstallRecordView {
    pub component: Component,
    pub asset_size: u64,
    pub asset_url: Seq<char>,
    pub dir_text: Seq<char>,
    pub executable: Seq<char>,
}

impl View for InstallRecord {
    type V = InstallRecordView;

    open spec fn view(&self) -> InstallRecordView {
        InstallRecordView {
            component: self.component,
            asset_size: self.asset_size,
            asset_url: self.asset_url@,
            dir_text: self.dir_text@,
            executable: self.executable@,
        }
    }
}

/// Model of an event.
pub enum InstallEventView {
    ReleaseFetched(Result<GithubRelease, Seq<char>>),
    DirPrepared(Result<Seq<char>, Seq<char>>),
    Downloaded(Result<(), Seq<char>>),
    Extracted(Result<(), Seq<char>>),
    Located(Option<Seq<char>>),
    VersionChecked(Result<bool, Seq<char>>),
    Saved(Result<(), Seq<char>>),
}

impl View for InstallEvent {
    type V = InstallEventView;

    open spec fn view(&self) -> InstallEventView {
        match self {
            InstallEvent::ReleaseFetched(r) => InstallEventView::ReleaseFetched(
                match r {
                    Ok(rel) => Ok(*rel),
                    Err(e) => Err(e@),
                },
            ),
            InstallEvent::DirPrepared(r) => InstallEventView::DirPrepared(
                match r {
                    Ok(d) => Ok(d@),
                    Err(e) => Err(e@),
                },
            ),
            InstallEvent::Downloaded(r) => InstallEventView::Downloaded(result_view(*r)),
            InstallEvent::Extracted(r) => InstallEventView::Extracted(result_view(*r)),
            InstallEvent::Located(o) => InstallEventView::Located(
                match o {
                    Some(p) => Some(p@),
                    None => None,
                },
            ),
            InstallEvent::VersionChecked(r) => InstallEventView::VersionChecked(
                match r {
                    Ok(b) => Ok(*b),
                    Err(e) => Err(e@),
                },
            ),
            InstallEvent::Saved(r) => InstallEventView::Saved(result_view(*r)),
        }
    }
}

/// Model of a command.
pub enum InstallCommandView {
    FetchRelease { repo: Seq<char>, progress: ProgressView },
    PrepareDir { tag: Seq<char> },
    Download { url: Seq<char>, expected_size: u64, archive_name: Seq<char> },
    Extract { archive_name: Seq<char>, progress: ProgressView },
    Locate { executable_name: Seq<char>, progress: ProgressView },
    CheckVersion { executable: Seq<char> },
    SaveExecutablePath { executable: Seq<char> },
    Finish { progress: Option<ProgressView>, result: Result<Seq<char>, Seq<char>> },
}

impl View for InstallCommand {
    type V = InstallCommandView;

    open spec fn view(&self) -> InstallCommandView {
        match self {
            InstallCommand::FetchRelease { repo, progress } => InstallCommandView::FetchRelease {
                repo: repo@,
                progress: progress_view(*progress),
            },
            InstallCommand::PrepareDir { tag } => InstallCommandView::PrepareDir { tag: tag@ },
            InstallCommand::Download { url, expected_size, archive_name } => InstallCommandView::Download {
                url: url@,
                expected_size: *expected_size,
                archive_name: archive_name@,
            },
            InstallCommand::Extract { archive_name, progress } => InstallCommandView::Extract {
                archive_name: archive_name@,
                progress: progress_view(*progress),
            },
            InstallCommand::Locate { executable_name, progress } => InstallCommandView::Locate {
                executable_name: executable_name@,
                progress: progress_view(*progress),
            },
            InstallCommand::CheckVersion { executable } => InstallCommandView::CheckVersion {
                executable: executable@,
            },
            InstallCommand::SaveExecutablePath { executable } => InstallCommandView::SaveExecutablePath {
                executable: executable@,
            },
            InstallCommand::Finish { progress, result } => InstallCommandView::Finish {
                progress: match progress {
                    Some(p) => Some(progress_view(*p)),
                    None => None,
                },
                result: match result {
                    Ok(p) => Ok(p@),
                    Err(e) => Err(e@),
                },
            },
        }
    }
}

// ---------------------------------------------------------------------------
// Transition
// ---------------------------------------------------------------------------

/// The GitHub repository of a component.
pub open spec fn repo_of(c: Component) -> Seq<char> {
    match c {
        Component::Aether => "CluvexStudio/Aether"@,
        Component::SingBox => "SagerNet/sing-box"@,
    }
}

/// The asset name patterns of a component, in order of preference.
pub open spec fn asset_patterns(c: Component) -> Seq<Seq<char>> {
    match c {
        Component::Aether => seq!["aether-windows-x86_64.zip"@, "windows-x86_64.zip"@, ".zip"@],
        Component::SingBox => seq!["windows-amd64.zip"@, "windows-x86_64.zip"@],
    }
}

/// The error of a release without a suitable asset.
pub open spec fn no_asset_message(c: Component, tag: Seq<char>) -> Seq<char> {
    match c {
        Component::Aether => "No compatible Windows x86_64 zip asset found in Aether release "@ + tag,
        Component::SingBox => "No compatible Windows amd64 zip asset found in sing-box release "@ + tag,
    }
}

/// The temporary archive of a component.
pub open spec fn archive_name(c: Component) -> Seq<char> {
    match c {
        Component::Aether => "aether-download.tmp.zip"@,
        Component::SingBox => "sing-box-download.tmp.zip"@,
    }
}

/// The executable of a component.
pub open spec fn executable_name(c: Component) -> Seq<char> {
    match c {
        Component::Aether => "aether.exe"@,
        Component::SingBox => "sing-box.exe"@,
    }
}

/// A progress report.
pub open spec fn progress(status: Seq<char>, percent: u8, done: u64, total: u64) -> ProgressView {
    ProgressView { status, percent, downloaded_bytes: done, total_bytes: total }
}

/// A failing end.
pub open spec fn fail(rec: InstallRecordView, e: Seq<char>) -> (InstallRecordView, InstallStage, InstallCommandView) {
    (rec, InstallStage::Done, InstallCommandView::Finish { progress: None, result: Err(e) })
}

/// The first record, stage and command of an installation.
pub open spec fn install_start(c: Component) -> (InstallRecordView, InstallStage, InstallCommandView) {
    (
        InstallRecordView { component: c, asset_size: 0, asset_url: Seq::empty(), dir_text: Seq::empty(), executable: Seq::empty() },
        InstallStage::FetchingRelease,
        InstallCommandView::FetchRelease {
            repo: repo_of(c),
            progress: progress("Resolving latest release from GitHub..."@, 0, 0, 0),
        },
    )
}

/// One transition of an installation.
pub open spec fn install_transition(
    rec: InstallRecordView,
    stage: InstallStage,
    event: InstallEventView,
) -> (InstallRecordView, InstallStage, InstallCommandView) {
    let c = rec.component;
    let size = rec.asset_size;
    match (stage, event) {
        (InstallStage::FetchingRelease, InstallEventView::ReleaseFetched(r)) => match r {
            Err(e) => fail(rec, e),
            Ok(release) => match first_of_patterns(release.assets@, asset_patterns(c)) {
                None => fail(rec, no_asset_message(c, release.tag_name@)),
                Some(i) => (
                    InstallRecordView {
                        asset_size: release.assets@[i].size,
                        asset_url: release.assets@[i].browser_download_url@,
                        ..rec
                    },
                    InstallStage::PreparingDir,
                    InstallCommandView::PrepareDir { tag: release.tag_name@ },
                ),
            },
        },
        (InstallStage::PreparingDir, InstallEventView::DirPrepared(r)) => match r {
            Err(e) => fail(rec, e),
            Ok(d) => (
                InstallRecordView { dir_text: d, ..rec },
                InstallStage::Downloading,
                InstallCommandView::Download {
                    url: rec.asset_url,
                    expected_size: size,
                    archive_name: archive_name(c),
                },
            ),
        },
        (InstallStage::Downloading, InstallEventView::Downloaded(r)) => match r {
            Err(e) => fail(rec, e),
            Ok(()) => (
                rec,
                InstallStage::Extracting,
                InstallCommandView::Extract {
                    archive_name: archive_name(c),
                    progress: progress("Extracting files securely..."@, 90, size, size),
                },
            ),
        },
        (InstallStage::Extracting, InstallEventView::Extracted(r)) => match r {
            Err(e) => fail(rec, e),
            Ok(()) => (
                rec,
                InstallStage::Locating,
                InstallCommandView::Locate {
                    executable_name: executable_name(c),
                    progress: progress("Locating and verifying executable..."@, 98, size, size),
                },
            ),
        },
        (InstallStage::Locating, InstallEventView::Located(o)) => match o {
            None => fail(rec, executable_name(c) + " not found after extracting "@ + rec.dir_text),
            Some(p) => {
                let found = InstallRecordView { executable: p, ..rec };
                match c {
                    Component::Aether => (
                        found,
                        InstallStage::Saving,
                        InstallCommandView::SaveExecutablePath { executable: p },
                    ),
                    Component::SingBox => (
                        found,
                        InstallStage::CheckingVersion,
                        InstallCommandView::CheckVersion { executable: p },
                    ),
                }
            },
        },
        (InstallStage::CheckingVersion, InstallEventView::VersionChecked(r)) => match r {
            Err(e) => fail(rec, "Failed to run sing-box version check: "@ + e),
            Ok(success) => if !success {
                fail(rec, "sing-box binary verification failed on execution test"@)
            } else {
                (rec, InstallStage::Saving, InstallCommandView::SaveExecutablePath { executable: rec.executable })
            },
        },
        (InstallStage::Saving, InstallEventView::Saved(r)) => match r {
            Err(e) => fail(rec, e),
            Ok(()) => (
                rec,
                InstallStage::Done,
                InstallCommandView::Finish {
                    progress: Some(progress("Installation complete"@, 100, size, size)),
                    result: Ok(rec.executable),
                },
            ),
        },
        _ => fail(rec, "Unexpected event for the current installation stage"@),
    }
}

// ---------------------------------------------------------------------------
// Executable transition
// ---------------------------------------------------------------------------

fn progress_note(status: &str, percent: u8, done: u64, total: u64) -> (r: ProgressNote)
    ensures
        progress_view(r) == progress(status@, percent, done, total),
{
    ProgressNote { status: str_to_string(status), percent, downloaded_bytes: done, total_bytes: total }
}

fn fail_exec(e: String) -> (r: (InstallStage, InstallCommand))
    ensures
        r.0 == InstallStage::Done,
        r.1@ == (InstallCommandView::Finish { progress: None, result: Err(e@) }),
{
    (InstallStage::Done, InstallCommand::Finish { progress: None, result: Err(e) })
}

fn archive_name_exec(c: Component) -> (r: String)
    ensures
        r@ == archive_name(c),
{
    match c {
        Component::Aether => str_to_string("aether-download.tmp.zip"),
        Component::SingBox => str_to_string("sing-box-download.tmp.zip"),
    }
}

fn executable_name_exec(c: Component) -> (r: &'static str)
    ensures
        r@ == executable_name(c),
{
    match c {
        Component::Aether => "aether.exe",
        Component::SingBox => "sing-box.exe",
    }
}

/// Starts the installation of a component: the first command fetches its latest release.
pub fn install_begin(c: Component) -> (r: (InstallRecord, InstallStage, InstallCommand))
    ensures
        (r.0@, r.1, r.2@) == install_start(c),
{
    let repo = match c {
        Component::Aether => str_to_string("CluvexStudio/Aether"),
        Component::SingBox => str_to_string("SagerNet/sing-box"),
    };
    (
        InstallRecord { component: c, asset_size: 0, asset_url: String::new(), dir_text: String::new(), executable: String::new() },
        InstallStage::FetchingRelease,
        InstallCommand::FetchRelease {
            repo,
            progress: progress_note("Resolving latest release from GitHub...", 0, 0, 0),
        },
    )
}

fn chosen_asset(c: Component, release: &GithubRelease) -> (r: Result<&ReleaseAsset, String>)
    ensures
        match first_of_patterns(release.assets@, asset_patterns(c)) {
            Some(i) => r == Ok::<&ReleaseAsset, String>(&release.assets@[i]),
            None => r matches Err(m) && m@ == no_asset_message(c, release.tag_name@),
        },
{
    match c {
        Component::Aether => DependencyManager::select_aether_asset(release),
        Component::SingBox => DependencyManager::select_singbox_asset(release),
    }
}

/// One step of an installation: applies the result to the record and returns the next
/// stage and command. The caller performs each command (reporting its progress first) and
/// hands back its result until a `Finish` command ends the installation.
#[verifier::rlimit(40)]
pub fn install_step(rec: &mut InstallRecord, stage: InstallStage, event: InstallEvent) -> (r: (
    InstallStage,
    InstallCommand,
))
    ensures
        (final(rec)@, r.0, r.1@) == install_transition(old(rec)@, stage, event@),
{
    let c = rec.component;
    let size = rec.asset_size;
    match (stage, event) {
        (InstallStage::FetchingRelease, InstallEvent::ReleaseFetched(r)) => match r {
            Err(e) => fail_exec(e),
            Ok(release) => match chosen_asset(c, &release) {
                Err(m) => fail_exec(m),
                Ok(a) => {
                    rec.asset_size = a.size;
                    rec.asset_url = a.browser_download_url.clone();
                    (InstallStage::PreparingDir, InstallCommand::PrepareDir { tag: release.tag_name.clone() })
                },
            },
        },
        (InstallStage::PreparingDir, InstallEvent::DirPrepared(r)) => match r {
            Err(e) => fail_exec(e),
            Ok(d) => {
                rec.dir_text = d;
                (
                    InstallStage::Downloading,
                    InstallCommand::Download {
                        url: rec.asset_url.clone(),
                        expected_size: size,
                        archive_name: archive_name_exec(c),
                    },
                )
            },
        },
        (InstallStage::Downloading, InstallEvent::Downloaded(r)) => match r {
            Err(e) => fail_exec(e),
            Ok(()) => (
                InstallStage::Extracting,
                InstallCommand::Extract {
                    archive_name: archive_name_exec(c),
                    progress: progress_note("Extracting files securely...", 90, size, size),
                },
            ),
        },
        (InstallStage::Extracting, InstallEvent::Extracted(r)) => match r {
            Err(e) => fail_exec(e),
            Ok(()) => (
                InstallStage::Locating,
                InstallCommand::Locate {
                    executable_name: str_to_string(executable_name_exec(c)),
                    progress: progress_note("Locating and verifying executable...", 98, size, size),
                },
            ),
        },
        (InstallStage::Locating, InstallEvent::Located(o)) => match o {
            None => {
                let mut m = concat(executable_name_exec(c), " not found after extracting ");
                m.append(rec.dir_text.as_str());
                fail_exec(m)
            },
            Some(p) => {
                rec.executable = p.clone();
                match c {
                    Component::Aether => (InstallStage::Saving, InstallCommand::SaveExecutablePath { executable: p }),
                    Component::SingBox => (InstallStage::CheckingVersion, InstallCommand::CheckVersion { executable: p }),
                }
            },
        },
        (InstallStage::CheckingVersion, InstallEvent::VersionChecked(r)) => match r {
            Err(e) => fail_exec(concat("Failed to run sing-box version check: ", e.as_str())),
            Ok(success) => if !success {
                fail_exec(str_to_string("sing-box binary verification failed on execution test"))
            } else {
                (InstallStage::Saving, InstallCommand::SaveExecutablePath { executable: rec.executable.clone() })
            },
        },
        (InstallStage::Saving, InstallEvent::Saved(r)) => match r {
            Err(e) => fail_exec(e),
            Ok(()) => (
                InstallStage::Done,
                InstallCommand::Finish {
                    progress: Some(progress_note("Installation complete", 100, size, size)),
                    result: Ok(rec.executable.clone()),
                },
            ),
        },
        _ => fail_exec(str_to_string("Unexpected event for the current installation stage")),
    }
}

// ---------------------------------------------------------------------------
// Laws of the installation
// ---------------------------------------------------------------------------

/// An installation saves a path only once an executable of that path was found in the
/// extracted release: directly for Aether, and after a successful version check of the
/// found executable otherwise; and it succeeds only with the path it saved.
pub proof fn law_install_saves_only_a_found_executable(
    rec: InstallRecordView,
    stage: InstallStage,
    event: InstallEventView,
)
    ensures
        ({
            let (r2, _, c2) = install_transition(rec, stage, event);
            c2 matches InstallCommandView::SaveExecutablePath { executable } ==> executable == r2.executable
                && ((stage == InstallStage::Locating && rec.component == Component::Aether
                && event == InstallEventView::Located(Some(executable))) || (stage
                == InstallStage::CheckingVersion && event == InstallEventView::VersionChecked(Ok(true))))
        }),
        ({
            let (_, _, c2) = install_transition(rec, stage, event);
            c2 matches InstallCommandView::Finish { result: Ok(p), .. } ==> stage == InstallStage::Saving
                && event == InstallEventView::Saved(Ok(())) && p == rec.executable
        }),
{
    match event {
        InstallEventView::Saved(r) => match r {
            Ok(u) => {
                assert(event == InstallEventView::Saved(Ok(())));
            },
            Err(_) => {},
        },
        InstallEventView::VersionChecked(r) => match r {
            Ok(b) => {
                if b {
                    assert(event == InstallEventView::VersionChecked(Ok(true)));
                }
            },
            Err(_) => {},
        },
        InstallEventView::Located(o) => match o {
            Some(p) => {
                assert(event == InstallEventView::Located(Some(p)));
            },
            None => {},
        },
        _ => {},
    }
}

// ---------------------------------------------------------------------------
// First-run setup
// ---------------------------------------------------------------------------

/// Where the first-run setup stands.
#[derive(Debug, Clone, Copy, PartialEq, Eq, Structural)]
pub enum SetupStage {
    /// The first status check.
    Checking,
    /// Installing Aether, which was missing.
    InstallingAether,
    /// The status check after installing Aether.
    CheckingAfterAether,
    /// Installing sing-box, which was missing.
    InstallingSingBox,
    /// The status check after installing sing-box.
    CheckingAfterSingBox,
    /// Marking the first run as completed.
    Saving,
    Done,
}

/// The result handed back after a setup command.
#[derive(Debug)]
pub enum SetupEvent {
    /// The dependency status.
    StatusChecked(DependencyStatus),
    /// An installation finished.
    Installed(Result<String, String>),
    /// The settings, marked as past the first run, were saved.
    FirstRunSaved(Result<(), String>),
}

/// The next thing for the setup's caller to do.
#[derive(Debug)]
pub enum SetupCommand {
    /// Check the dependency status.
    CheckStatus,
    /// Install the component.
    Install(Component),
    /// Mark the first run as completed in the settings and save them.
    MarkFirstRunCompleted,
    /// The setup is over: on success the last status checked is returned.
    Finish(Result<(), String>),
}

/// Model of a setup event: the installed flags of a status, or the results.
pub enum SetupEventView {
    StatusChecked { aether_installed: bool, singbox_installed: bool },
    Installed(Result<Seq<char>, Seq<char>>),
    FirstRunSaved(Result<(), Seq<char>>),
}

impl View for SetupEvent {
    type V = SetupEventView;

    open spec fn view(&self) -> SetupEventView {
        match self {
            SetupEvent::StatusChecked(st) => SetupEventView::StatusChecked {
                aether_installed: st.aether_installed,
                singbox_installed: st.singbox_installed,
            },
            SetupEvent::Installed(r) => SetupEventView::Installed(
                match r {
                    Ok(p) => Ok(p@),
                    Err(e) => Err(e@),
                },
            ),
            SetupEvent::FirstRunSaved(r) => SetupEventView::FirstRunSaved(result_view(*r)),
        }
    }
}

/// Model of a setup command.
pub enum SetupCommandView {
    CheckStatus,
    Install(Component),
    MarkFirstRunCompleted,
    Finish(Result<(), Seq<char>>),
}

impl View for SetupCommand {
    type V = SetupCommandView;

    open spec fn view(&self) -> SetupCommandView {
        match self {
            SetupCommand::CheckStatus => SetupCommandView::CheckStatus,
            SetupCommand::Install(c) => SetupCommandView::Install(*c),
            SetupCommand::MarkFirstRunCompleted => SetupCommandView::MarkFirstRunCompleted,
            SetupCommand::Finish(r) => SetupCommandView::Finish(result_view(*r)),
        }
    }
}

/// The error of engines still missing after their installation.
pub open spec fn engines_missing_message() -> Seq<char> {
    "One or more core engines failed validation after installation."@
}

/// One transition of the first-run setup: missing engines are installed one after the
/// other, each followed by a new status check; the setup completes only when both engines
/// are installed.
pub open spec fn setup_transition(stage: SetupStage, event: SetupEventView) -> (SetupStage, SetupCommandView) {
    match (stage, event) {
        (SetupStage::Checking, SetupEventView::StatusChecked { aether_installed, singbox_installed }) =>
            if !aether_installed {
            (SetupStage::InstallingAether, SetupCommandView::Install(Component::Aether))
        } else if !singbox_installed {
            (SetupStage::InstallingSingBox, SetupCommandView::Install(Component::SingBox))
        } else {
            (SetupStage::Saving, SetupCommandView::MarkFirstRunCompleted)
        },
        (SetupStage::InstallingAether, SetupEventView::Installed(r)) => match r {
            Err(e) => (SetupStage::Done, SetupCommandView::Finish(Err(e))),
            Ok(_) => (SetupStage::CheckingAfterAether, SetupCommandView::CheckStatus),
        },
        (
            SetupStage::CheckingAfterAether,
            SetupEventView::StatusChecked { aether_installed, singbox_installed },
        ) => if !singbox_installed {
            (SetupStage::InstallingSingBox, SetupCommandView::Install(Component::SingBox))
        } else if !aether_installed {
            (SetupStage::Done, SetupCommandView::Finish(Err(engines_missing_message())))
        } else {
            (SetupStage::Saving, SetupCommandView::MarkFirstRunCompleted)
        },
        (SetupStage::InstallingSingBox, SetupEventView::Installed(r)) => match r {
            Err(e) => (SetupStage::Done, SetupCommandView::Finish(Err(e))),
            Ok(_) => (SetupStage::CheckingAfterSingBox, SetupCommandView::CheckStatus),
        },
        (
            SetupStage::CheckingAfterSingBox,
            SetupEventView::StatusChecked { aether_installed, singbox_installed },
        ) => if !aether_installed || !singbox_installed {
            (SetupStage::Done, SetupCommandView::Finish(Err(engines_missing_message())))
        } else {
            (SetupStage::Saving, SetupCommandView::MarkFirstRunCompleted)
        },
        (SetupStage::Saving, SetupEventView::FirstRunSaved(r)) => (SetupStage::Done, SetupCommandView::Finish(r)),
        _ => (SetupStage::Done, SetupCommandView::Finish(Err("Unexpected event for the current setup stage"@))),
    }
}

/// One step of the first-run setup. The caller starts with `SetupCommand::CheckStatus` in
/// `SetupStage::Checking`.
pub fn setup_step(stage: SetupStage, event: SetupEvent) -> (r: (SetupStage, SetupCommand))
    ensures
        (r.0, r.1@) == setup_transition(stage, event@),
{
    match (stage, event) {
        (SetupStage::Checking, SetupEvent::StatusChecked(st)) => if !st.aether_installed {
            (SetupStage::InstallingAether, SetupCommand::Install(Component::Aether))
        } else if !st.singbox_installed {
            (SetupStage::InstallingSingBox, SetupCommand::Install(Component::SingBox))
        } else {
            (SetupStage::Saving, SetupCommand::MarkFirstRunCompleted)
        },
        (SetupStage::InstallingAether, SetupEvent::Installed(r)) => match r {
            Err(e) => (SetupStage::Done, SetupCommand::Finish(Err(e))),
            Ok(_) => (SetupStage::CheckingAfterAether, SetupCommand::CheckStatus),
        },
        (SetupStage::CheckingAfterAether, SetupEvent::StatusChecked(st)) => if !st.singbox_installed {
            (SetupStage::InstallingSingBox, SetupCommand::Install(Component::SingBox))
        } else if !st.aether_installed {
            (
                SetupStage::Done,
                SetupCommand::Finish(Err(str_to_string("One or more core engines failed validation after installation."))),
            )
        } else {
            (SetupStage::Saving, SetupCommand::MarkFirstRunCompleted)
        },
        (SetupStage::InstallingSingBox, SetupEvent::Installed(r)) => match r {
            Err(e) => (SetupStage::Done, SetupCommand::Finish(Err(e))),
            Ok(_) => (SetupStage::CheckingAfterSingBox, SetupCommand::CheckStatus),
        },
        (SetupStage::CheckingAfterSingBox, SetupEvent::StatusChecked(st)) => if !st.aether_installed
            || !st.singbox_installed {
            (
                SetupStage::Done,
                SetupCommand::Finish(Err(str_to_string("One or more core engines failed validation after installation."))),
            )
        } else {
            (SetupStage::Saving, SetupCommand::MarkFirstRunCompleted)
        },
        (SetupStage::Saving, SetupEvent::FirstRunSaved(r)) => (SetupStage::Done, SetupCommand::Finish(r)),
        _ => (
            SetupStage::Done,
            SetupCommand::Finish(Err(str_to_string("Unexpected event for the current setup stage"))),
        ),
    }
}

/// The first run is marked as completed only after a status check that found both engines
/// installed.
pub proof fn law_setup_completes_only_with_both_engines(stage: SetupStage, event: SetupEventView)
    ensures
        setup_transition(stage, event).1 == SetupCommandView::MarkFirstRunCompleted ==> (event matches SetupEventView::StatusChecked {
            aether_installed,
            singbox_installed,
        } && aether_installed && singbox_installed),
{
}

} // verus!
