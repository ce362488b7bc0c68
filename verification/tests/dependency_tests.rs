use aether_desktop::dependencies::manager::check_download_size;
use aether_desktop::dependencies::github::{GithubClient, GithubRelease, ReleaseAsset};
use aether_desktop::dependencies::install::{
    install_begin, install_step, setup_step, Component, InstallCommand, InstallEvent,
    InstallStage, SetupCommand, SetupEvent, SetupStage,
};
use aether_desktop::dependencies::manager::{DependencyManager, DependencyStatus};

fn asset(name: &str, size: u64) -> ReleaseAsset {
    ReleaseAsset {
        name: name.to_string(),
        size,
        browser_download_url: format!("https://github.com/dl/{}", name),
    }
}

fn release(tag: &str, assets: Vec<ReleaseAsset>) -> GithubRelease {
    GithubRelease {
        tag_name: tag.to_string(),
        name: None,
        draft: false,
        prerelease: false,
        assets,
    }
}

fn status(aether: bool, singbox: bool) -> DependencyStatus {
    DependencyStatus {
        aether_installed: aether,
        aether_path: "a".to_string(),
        aether_version: None,
        singbox_installed: singbox,
        singbox_path: "s".to_string(),
        singbox_version: None,
    }
}

#[test]
fn release_url_and_asset_lookup_ignore_case() {
    assert_eq!(
        GithubClient::latest_release_url("SagerNet/sing-box"),
        "https://api.github.com/repos/SagerNet/sing-box/releases/latest"
    );
    let r = release("v1", vec![asset("sing-box-1.0-linux-amd64.tar.gz", 1), asset("SING-BOX-1.0-WINDOWS-AMD64.ZIP", 2)]);
    assert_eq!(GithubClient::find_asset(&r, "windows-amd64.zip").unwrap().size, 2);
    assert!(GithubClient::find_asset(&r, "darwin").is_none());
}

#[test]
fn asset_choice_follows_the_preference_order() {
    let r = release(
        "v2.1.0",
        vec![asset("aether-linux.zip", 1), asset("aether-windows-x86_64.zip", 2), asset("other-windows-x86_64.zip", 3)],
    );
    assert_eq!(DependencyManager::select_aether_asset(&r).unwrap().size, 2);
    let only_zip = release("v2", vec![asset("aether-src.tar.gz", 1), asset("bundle.zip", 5)]);
    assert_eq!(DependencyManager::select_aether_asset(&only_zip).unwrap().size, 5);
    let none = release("v3", vec![asset("aether.tar.gz", 1)]);
    assert_eq!(
        DependencyManager::select_aether_asset(&none).unwrap_err(),
        "No compatible Windows x86_64 zip asset found in Aether release v3"
    );
    let sb = release("v1.9", vec![asset("sing-box-1.9-windows-arm64.zip", 1)]);
    assert_eq!(
        DependencyManager::select_singbox_asset(&sb).unwrap_err(),
        "No compatible Windows amd64 zip asset found in sing-box release v1.9"
    );
}

#[test]
fn dependency_status_report() {
    let s = DependencyManager::status_from(
        "C:\\a\\aether.exe".to_string(),
        true,
        "".to_string(),
        true,
        None,
    );
    assert!(s.aether_installed);
    assert_eq!(s.aether_version.as_deref(), Some("Ready"));
    assert!(!s.singbox_installed);
    assert!(s.singbox_version.is_none());
    let s2 = DependencyManager::status_from(
        "".to_string(),
        false,
        "C:\\s\\sing-box.exe".to_string(),
        true,
        Some("sing-box version 1.11.0\nEnvironment: go1.23\n".to_string()),
    );
    assert_eq!(s2.singbox_version.as_deref(), Some("sing-box version 1.11.0"));
    let s3 = DependencyManager::status_from("".to_string(), false, "x".to_string(), true, None);
    assert_eq!(s3.singbox_version.as_deref(), Some("Ready"));
}

#[test]
fn singbox_installation_runs_to_completion() {
    let (mut rec, stage, cmd) = install_begin(Component::SingBox);
    match cmd {
        InstallCommand::FetchRelease { repo, progress } => {
            assert_eq!(repo, "SagerNet/sing-box");
            assert_eq!(progress.status, "Resolving latest release from GitHub...");
            assert_eq!(progress.percent, 0);
        }
        other => panic!("unexpected {:?}", other),
    }
    let rel = release("v1.11.0", vec![asset("sing-box-1.11.0-windows-amd64.zip", 4096)]);
    let (stage, cmd) = install_step(&mut rec, stage, InstallEvent::ReleaseFetched(Ok(rel)));
    match cmd {
        InstallCommand::PrepareDir { tag } => assert_eq!(tag, "v1.11.0"),
        other => panic!("unexpected {:?}", other),
    }
    let (stage, cmd) = install_step(&mut rec, stage, InstallEvent::DirPrepared(Ok("\"C:\\\\deps\\\\sing-box\\\\v1.11.0\"".to_string())));
    match cmd {
        InstallCommand::Download { url, expected_size, archive_name } => {
            assert_eq!(url, "https://github.com/dl/sing-box-1.11.0-windows-amd64.zip");
            assert_eq!(expected_size, 4096);
            assert_eq!(archive_name, "sing-box-download.tmp.zip");
        }
        other => panic!("unexpected {:?}", other),
    }
    let (stage, cmd) = install_step(&mut rec, stage, InstallEvent::Downloaded(Ok(())));
    match cmd {
        InstallCommand::Extract { progress, .. } => {
            assert_eq!(progress.percent, 90);
            assert_eq!(progress.status, "Extracting files securely...");
            assert_eq!(progress.total_bytes, 4096);
        }
        other => panic!("unexpected {:?}", other),
    }
    let (stage, cmd) = install_step(&mut rec, stage, InstallEvent::Extracted(Ok(())));
    match cmd {
        InstallCommand::Locate { executable_name, progress } => {
            assert_eq!(executable_name, "sing-box.exe");
            assert_eq!(progress.percent, 98);
        }
        other => panic!("unexpected {:?}", other),
    }
    let (stage, cmd) = install_step(&mut rec, stage, InstallEvent::Located(Some("C:\\deps\\sing-box.exe".to_string())));
    assert!(matches!(cmd, InstallCommand::CheckVersion { .. }));
    let (stage, cmd) = install_step(&mut rec, stage, InstallEvent::VersionChecked(Ok(true)));
    match cmd {
        InstallCommand::SaveExecutablePath { executable } => assert_eq!(executable, "C:\\deps\\sing-box.exe"),
        other => panic!("unexpected {:?}", other),
    }
    let (stage, cmd) = install_step(&mut rec, stage, InstallEvent::Saved(Ok(())));
    assert_eq!(stage, InstallStage::Done);
    match cmd {
        InstallCommand::Finish { progress, result } => {
            let p = progress.unwrap();
            assert_eq!(p.status, "Installation complete");
            assert_eq!(p.percent, 100);
            assert_eq!(result.unwrap(), "C:\\deps\\sing-box.exe");
        }
        other => panic!("unexpected {:?}", other),
    }
}

#[test]
fn installation_failures_end_it() {
    let (mut rec, stage, _) = install_begin(Component::Aether);
    let rel = release("v9", vec![asset("aether-windows-x86_64.zip", 10)]);
    let (stage, _) = install_step(&mut rec, stage, InstallEvent::ReleaseFetched(Ok(rel)));
    let (stage, _) = install_step(&mut rec, stage, InstallEvent::DirPrepared(Ok("\"D\"".to_string())));
    let (stage, _) = install_step(&mut rec, stage, InstallEvent::Downloaded(Ok(())));
    let (stage, _) = install_step(&mut rec, stage, InstallEvent::Extracted(Ok(())));
    let (stage, cmd) = install_step(&mut rec, stage, InstallEvent::Located(None));
    assert_eq!(stage, InstallStage::Done);
    match cmd {
        InstallCommand::Finish { result, .. } => {
            assert_eq!(result.unwrap_err(), "aether.exe not found after extracting \"D\"")
        }
        other => panic!("unexpected {:?}", other),
    }

    let (mut rec2, stage2, _) = install_begin(Component::SingBox);
    let rel2 = release("v1", vec![asset("sing-box-windows-amd64.zip", 1)]);
    let (stage2, _) = install_step(&mut rec2, stage2, InstallEvent::ReleaseFetched(Ok(rel2)));
    let (stage2, _) = install_step(&mut rec2, stage2, InstallEvent::DirPrepared(Ok("d".to_string())));
    let (stage2, _) = install_step(&mut rec2, stage2, InstallEvent::Downloaded(Ok(())));
    let (stage2, _) = install_step(&mut rec2, stage2, InstallEvent::Extracted(Ok(())));
    let (stage2, _) = install_step(&mut rec2, stage2, InstallEvent::Located(Some("x".to_string())));
    let (_, cmd2) = install_step(&mut rec2, stage2, InstallEvent::VersionChecked(Ok(false)));
    match cmd2 {
        InstallCommand::Finish { result, .. } => assert_eq!(
            result.unwrap_err(),
            "sing-box binary verification failed on execution test"
        ),
        other => panic!("unexpected {:?}", other),
    }

    let (mut rec3, stage3, _) = install_begin(Component::SingBox);
    let (_, cmd3) = install_step(&mut rec3, stage3, InstallEvent::ReleaseFetched(Ok(release("v7", vec![]))));
    match cmd3 {
        InstallCommand::Finish { result, .. } => assert_eq!(
            result.unwrap_err(),
            "No compatible Windows amd64 zip asset found in sing-box release v7"
        ),
        other => panic!("unexpected {:?}", other),
    }
}

#[test]
fn setup_installs_what_is_missing_then_completes() {
    let (stage, cmd) = setup_step(SetupStage::Checking, SetupEvent::StatusChecked(status(false, false)));
    assert!(matches!(cmd, SetupCommand::Install(Component::Aether)));
    let (stage, cmd) = setup_step(stage, SetupEvent::Installed(Ok("a".to_string())));
    assert!(matches!(cmd, SetupCommand::CheckStatus));
    let (stage, cmd) = setup_step(stage, SetupEvent::StatusChecked(status(true, false)));
    assert!(matches!(cmd, SetupCommand::Install(Component::SingBox)));
    let (stage, _) = setup_step(stage, SetupEvent::Installed(Ok("s".to_string())));
    let (stage, cmd) = setup_step(stage, SetupEvent::StatusChecked(status(true, true)));
    assert!(matches!(cmd, SetupCommand::MarkFirstRunCompleted));
    let (stage, cmd) = setup_step(stage, SetupEvent::FirstRunSaved(Ok(())));
    assert_eq!(stage, SetupStage::Done);
    assert!(matches!(cmd, SetupCommand::Finish(Ok(()))));
}

#[test]
fn setup_fails_when_an_engine_is_still_missing() {
    let (stage, _) = setup_step(SetupStage::Checking, SetupEvent::StatusChecked(status(true, false)));
    let (stage, _) = setup_step(stage, SetupEvent::Installed(Ok("s".to_string())));
    let (_, cmd) = setup_step(stage, SetupEvent::StatusChecked(status(true, false)));
    match cmd {
        SetupCommand::Finish(Err(m)) => {
            assert_eq!(m, "One or more core engines failed validation after installation.")
        }
        other => panic!("unexpected {:?}", other),
    }
    let (_, cmd2) = setup_step(SetupStage::InstallingAether, SetupEvent::Installed(Err("offline".to_string())));
    match cmd2 {
        SetupCommand::Finish(Err(m)) => assert_eq!(m, "offline"),
        other => panic!("unexpected {:?}", other),
    }
}

#[test]
fn truncated_and_oversized_downloads_are_rejected() {
    assert_eq!(check_download_size(100, 100, true), Ok(()));
    assert_eq!(check_download_size(40, 100, false), Ok(()));
    assert_eq!(
        check_download_size(40, 100, true),
        Err("Download truncated: received 40 of 100 bytes".to_string())
    );
    assert_eq!(
        check_download_size(101, 100, false),
        Err("Download exceeds the expected size: received 101 of 100 bytes".to_string())
    );
    assert_eq!(check_download_size(5, 0, true), Ok(()));
}
