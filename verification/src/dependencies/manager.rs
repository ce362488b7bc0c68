//! Choice of the engine downloads and the dependency status report.
use vstd::prelude::*;
use crate::dependencies::github::{first_asset, GithubClient, GithubRelease, ReleaseAsset};
use crate::text::{decimal, decimal_string, str_to_string, unicode_lowercase};

verus! {

/// Progress of a download, as reported to the interface.
#[derive(Debug, Clone)]
pub struct DownloadProgress {
    pub component: String,
    pub status: String,
    pub percent: u8,
    pub downloaded_bytes: u64,
    pub total_bytes: u64,
}

/// Whether each engine is installed, where, and its version.
#[derive(Debug, Clone)]
pub struct DependencyStatus {
    pub aether_installed: bool,
    pub aether_path: String,
    pub aether_version: Option<String>,
    pub singbox_installed: bool,
    pub singbox_path: String,
    pub singbox_version: Option<String>,
}

/// Installation of the engines.
pub struct DependencyManager;

/// The first asset that matches one of the patterns, tried in order.
pub open spec fn first_of_patterns(assets: Seq<ReleaseAsset>, patterns: Seq<Seq<char>>) -> Option<int>
    decreases patterns.len(),
{
    if patterns.len() == 0 {
        None
    } else {
        match first_asset(assets, unicode_lowercase(patterns[0]), 0) {
            Some(i) => Some(i),
            None => first_of_patterns(assets, patterns.drop_first()),
        }
    }
}

impl DependencyManager {
    /// The Aether download of a release: the Windows x86-64 zip, else any zip.
    pub fn select_aether_asset(release: &GithubRelease) -> (r: Result<&ReleaseAsset, String>)
        ensures
            match first_of_patterns(
                release.assets@,
                seq!["aether-windows-x86_64.zip"@, "windows-x86_64.zip"@, ".zip"@],
            ) {
                Some(i) => r == Ok::<&ReleaseAsset, String>(&release.assets@[i]),
                None => r matches Err(m) && m@
                    == "No compatible Windows x86_64 zip asset found in Aether release "@
                    + release.tag_name@,
            },
    {
        proof {
            let p = seq!["aether-windows-x86_64.zip"@, "windows-x86_64.zip"@, ".zip"@];
            assert(p.drop_first() =~= seq!["windows-x86_64.zip"@, ".zip"@]);
            assert(p.drop_first().drop_first() =~= seq![".zip"@]);
            assert(seq![".zip"@].drop_first() =~= Seq::<Seq<char>>::empty());
            reveal_with_fuel(first_of_patterns, 4);
        }
        if let Some(a) = GithubClient::find_asset(release, "aether-windows-x86_64.zip") {
            return Ok(a);
        }
        if let Some(a) = GithubClient::find_asset(release, "windows-x86_64.zip") {
            return Ok(a);
        }
        if let Some(a) = GithubClient::find_asset(release, ".zip") {
            return Ok(a);
        }
        let mut m = str_to_string("No compatible Windows x86_64 zip asset found in Aether release ");
        m.append(release.tag_name.as_str());
        Err(m)
    }

    /// The sing-box download of a release: the Windows amd64 (or x86-64) zip.
    pub fn select_singbox_asset(release: &GithubRelease) -> (r: Result<&ReleaseAsset, String>)
        ensures
            match first_of_patterns(
                release.assets@,
                seq!["windows-amd64.zip"@, "windows-x86_64.zip"@],
            ) {
                Some(i) => r == Ok::<&ReleaseAsset, String>(&release.assets@[i]),
                None => r matches Err(m) && m@
                    == "No compatible Windows amd64 zip asset found in sing-box release "@
                    + release.tag_name@,
            },
    {
        proof {
            let p = seq!["windows-amd64.zip"@, "windows-x86_64.zip"@];
            assert(p.drop_first() =~= seq!["windows-x86_64.zip"@]);
            assert(seq!["windows-x86_64.zip"@].drop_first() =~= Seq::<Seq<char>>::empty());
            reveal_with_fuel(first_of_patterns, 3);
        }
        if let Some(a) = GithubClient::find_asset(release, "windows-amd64.zip") {
            return Ok(a);
        }
        if let Some(a) = GithubClient::find_asset(release, "windows-x86_64.zip") {
            return Ok(a);
        }
        let mut m = str_to_string("No compatible Windows amd64 zip asset found in sing-box release ");
        m.append(release.tag_name.as_str());
        Err(m)
    }

    /// The dependency report: an engine is installed when its configured path is set and
    /// the file exists; the Aether version reads `Ready`, the sing-box version is the first
    /// line of the output of `sing-box version`, or `Ready` when it could not be run.
    pub fn status_from(
        aether_path: String,
        aether_file_exists: bool,
        singbox_path: String,
        singbox_file_exists: bool,
        singbox_version_output: Option<String>,
    ) -> (r: DependencyStatus)
        ensures
            r.aether_installed == (aether_path@.len() > 0 && aether_file_exists),
            r.aether_path@ == aether_path@,
            version_text(r.aether_version) == (if r.aether_installed {
                Some("Ready"@)
            } else {
                None
            }),
            r.singbox_installed == (singbox_path@.len() > 0 && singbox_file_exists),
            r.singbox_path@ == singbox_path@,
            version_text(r.singbox_version) == (if r.singbox_installed {
                match singbox_version_output {
                    Some(out) => first_line(out@),
                    None => Some("Ready"@),
                }
            } else {
                None
            }),
    {
        let aether_installed = aether_path.as_str().unicode_len() > 0 && aether_file_exists;
        let singbox_installed = singbox_path.as_str().unicode_len() > 0 && singbox_file_exists;
        let aether_version = if aether_installed {
            Some(str_to_string("Ready"))
        } else {
            None
        };
        let singbox_version = if singbox_installed {
            match singbox_version_output {
                Some(out) => {
                    let c = crate::text::chars_of(out.as_str());
                    let lines = crate::text::lines_exec(&c);
                    if lines.len() > 0 {
                        proof {
                            assert(crate::text::texts_of(lines@)[0] == lines@[0]@);
                        }
                        Some(crate::text::string_of(lines[0].as_slice()))
                    } else {
                        None
                    }
                },
                None => Some(str_to_string("Ready")),
            }
        } else {
            None
        };
        DependencyStatus {
            aether_installed,
            aether_path,
            aether_version,
            singbox_installed,
            singbox_path,
            singbox_version,
        }
    }
}

/// Model of an optional version.
pub open spec fn version_text(o: Option<String>) -> Option<Seq<char>> {
    match o {
        Some(s) => Some(s@),
        None => None,
    }
}

/// The first line of a text, if it has one.
pub open spec fn first_line(s: Seq<char>) -> Option<Seq<char>> {
    let ls = crate::text::lines_of(s);
    if ls.len() > 0 {
        Some(ls[0])
    } else {
        None
    }
}

/// The size check of a download: with a known expected size (not 0), more bytes than
/// expected are rejected at once, and a finished download with fewer bytes is truncated.
pub open spec fn download_size_spec(downloaded: u64, expected_size: u64, complete: bool) -> Result<(), Seq<char>> {
    if expected_size == 0 {
        Ok(())
    } else if downloaded > expected_size {
        Err("Download exceeds the expected size: received "@ + decimal(downloaded as nat) + " of "@
            + decimal(expected_size as nat) + " bytes"@)
    } else if complete && downloaded < expected_size {
        Err("Download truncated: received "@ + decimal(downloaded as nat) + " of "@ + decimal(
            expected_size as nat,
        ) + " bytes"@)
    } else {
        Ok(())
    }
}

/// Checks the bytes received so far (or in all, when `complete`) against the expected size.
pub fn check_download_size(downloaded: u64, expected_size: u64, complete: bool) -> (r: Result<(), String>)
    ensures
        match r {
            Ok(()) => download_size_spec(downloaded, expected_size, complete) == Ok::<(), Seq<char>>(()),
            Err(e) => download_size_spec(downloaded, expected_size, complete) == Err::<(), Seq<char>>(e@),
        },
{
    if expected_size == 0 {
        return Ok(());
    }
    let head = if downloaded > expected_size {
        "Download exceeds the expected size: received "
    } else if complete && downloaded < expected_size {
        "Download truncated: received "
    } else {
        return Ok(());
    };
    let mut m = str_to_string(head);
    let d = decimal_string(downloaded);
    m.append(d.as_str());
    m.append(" of ");
    let e = decimal_string(expected_size);
    m.append(e.as_str());
    m.append(" bytes");
    Err(m)
}

} // verus!
