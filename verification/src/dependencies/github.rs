//! GitHub release metadata and the choice of a release asset.
use vstd::prelude::*;
use crate::text::{chars_of, contains_text, str_to_string, to_lowercase, unicode_lowercase};

verus! {

/// A downloadable file of a release.
#[derive(Debug, Clone)]
pub struct ReleaseAsset {
    pub name: String,
    pub size: u64,
    pub browser_download_url: String,
}

/// The latest release of a repository.
#[derive(Debug, Clone)]
pub struct GithubRelease {
    pub tag_name: String,
    pub name: Option<String>,
    pub draft: bool,
    pub prerelease: bool,
    pub assets: Vec<ReleaseAsset>,
}

/// Release lookups.
pub struct GithubClient;

/// The index of the first asset, from `i`, whose lower-case name holds the lower-case
/// pattern.
pub open spec fn first_asset(assets: Seq<ReleaseAsset>, pattern_lower: Seq<char>, i: int) -> Option<int>
    decreases assets.len() - i,
{
    if i < 0 || i >= assets.len() {
        None
    } else if contains_text(unicode_lowercase(assets[i].name@), pattern_lower) {
        Some(i)
    } else {
        first_asset(assets, pattern_lower, i + 1)
    }
}

impl GithubClient {
    /// The URL of the latest-release metadata of `owner/name`.
    pub fn latest_release_url(repo: &str) -> (r: String)
        ensures
            r@ == "https://api.github.com/repos/"@ + repo@ + "/releases/latest"@,
    {
        let mut s = str_to_string("https://api.github.com/repos/");
        s.append(repo);
        s.append("/releases/latest");
        s
    }

    /// The first asset whose name holds the pattern, ignoring case.
    pub fn find_asset<'a>(release: &'a GithubRelease, pattern: &str) -> (r: Option<&'a ReleaseAsset>)
        ensures
            match first_asset(release.assets@, unicode_lowercase(pattern@), 0) {
                Some(i) => r == Some(&release.assets@[i]),
                None => r is None,
            },
    {
        let pattern_lower = to_lowercase(pattern);
        let pl = chars_of(pattern_lower.as_str());
        let mut i: usize = 0;
        while i < release.assets.len()
            invariant
                i <= release.assets@.len(),
                pl@ == unicode_lowercase(pattern@),
                first_asset(release.assets@, pl@, 0) == first_asset(release.assets@, pl@, i as int),
            decreases release.assets@.len() - i,
        {
            let name_lower = to_lowercase(release.assets[i].name.as_str());
            let nl = chars_of(name_lower.as_str());
            if crate::text::contains_exec(&nl, &pl) {
                return Some(&release.assets[i]);
            }
            i = i + 1;
        }
        None
    }
}

} // verus!
