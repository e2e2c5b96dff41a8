//! GitHub as a release platform.
use crate::error::PlatformError;
use crate::platform::{Release, ReleaseAsset, ReleasePlatform};
use crate::text::{chars_of, split_once, split_once_chars, string_of, trim, trim_chars, CharClass};
use vstd::prelude::*;
use vstd::string::StringExecFns;

verus! {

/// The platform GitHub.
#[derive(Clone, Copy, Debug, Default)]
pub struct Github;

/// One file of a GitHub release.
#[derive(Debug)]
pub struct GithubAsset {
    pub name: String,
    pub size: u64,
    pub browser_download_url: String,
}

/// One release of a GitHub project.
#[derive(Debug)]
pub struct GithubRelease {
    pub name: Option<String>,
    pub tag_name: String,
    pub prerelease: bool,
    pub published_at: String,
    pub assets: Vec<GithubAsset>,
}

impl ReleasePlatform for Github {
    const API_BASE_PRIMARY: &'static str = "https://api.github.com";

    const API_BASE_PKGFORGE: &'static str = "https://api.gh.pkgforge.dev";

    const TOKEN_ENV_VAR: &'static str = "GITHUB_TOKEN";

    /// A GitHub project is an owner and a repository with a slash between
    /// them, neither of them blank.
    open spec fn project_path(project: Seq<char>) -> Option<(Seq<char>, Seq<char>)> {
        match split_once(project, '/') {
            Some(halves) => if trim(halves.0, CharClass::Space).len() > 0 && trim(
                halves.1,
                CharClass::Space,
            ).len() > 0 {
                Some(halves)
            } else {
                None
            },
            None => None,
        }
    }

    /// The releases of a project are listed under its repository; with a
    /// tag, the one release with that tag is asked for.
    open spec fn api_path(project: Seq<char>, tag: Option<Seq<char>>) -> Option<Seq<char>> {
        match Self::project_path(project) {
            Some(pair) => Some(
                "/repos/"@ + pair.0 + "/"@ + pair.1 + "/releases"@ + match tag {
                    Some(t) => "/tags/"@ + t + "?per_page=100"@,
                    None => "?per_page=100"@,
                },
            ),
            None => None,
        }
    }

    fn format_project_path(project: &str) -> (r: Result<(String, String), PlatformError>) {
        let text = chars_of(project);
        match split_once_chars(&text, '/') {
            Some((owner, repo)) => {
                if trim_chars(&owner, CharClass::Space).len() > 0 && trim_chars(
                    &repo,
                    CharClass::Space,
                ).len() > 0 {
                    return Ok((string_of(&owner), string_of(&repo)));
                }
            },
            None => {},
        }
        Err(
            PlatformError::InvalidInput(
                String::from_str("Github project '").concat(project).concat(
                    "' must be in 'owner/repo' format",
                ),
            ),
        )
    }

    fn format_api_path(project: &str, tag: Option<&str>) -> (r: Result<String, PlatformError>) {
        let (owner, repo) = match Self::format_project_path(project) {
            Ok(pair) => pair,
            Err(e) => {
                return Err(e);
            },
        };
        let base = String::from_str("/repos/").concat(owner.as_str()).concat("/").concat(
            repo.as_str(),
        ).concat("/releases");
        let ghost prefix = base@;
        match tag {
            Some(t) => {
                let path = base.concat("/tags/").concat(t).concat("?per_page=100");
                assert(path@ == prefix + ("/tags/"@ + t@ + "?per_page=100"@));
                Ok(path)
            },
            None => Ok(base.concat("?per_page=100")),
        }
    }
}

impl GithubAsset {
    /// A copy of the asset.
    pub fn copy(&self) -> (r: GithubAsset)
        ensures
            r == *self,
    {
        GithubAsset {
            name: self.name.clone(),
            size: self.size,
            browser_download_url: self.browser_download_url.clone(),
        }
    }
}

impl ReleaseAsset for GithubAsset {
    open spec fn name_text(&self) -> Seq<char> {
        self.name@
    }

    open spec fn size_value(&self) -> Option<u64> {
        Some(self.size)
    }

    open spec fn url_text(&self) -> Seq<char> {
        self.browser_download_url@
    }

    fn name(&self) -> (r: &str) {
        self.name.as_str()
    }

    fn size(&self) -> (r: Option<u64>) {
        Some(self.size)
    }

    fn download_url(&self) -> (r: &str) {
        self.browser_download_url.as_str()
    }
}

impl Release<GithubAsset> for GithubRelease {
    /// A release without a name has the empty name.
    open spec fn name_text(&self) -> Seq<char> {
        match self.name {
            Some(name) => name@,
            None => Seq::empty(),
        }
    }

    open spec fn tag_text(&self) -> Seq<char> {
        self.tag_name@
    }

    open spec fn prerelease(&self) -> bool {
        self.prerelease
    }

    open spec fn published_text(&self) -> Seq<char> {
        self.published_at@
    }

    open spec fn asset_list(&self) -> Seq<GithubAsset> {
        self.assets@
    }

    fn name(&self) -> (r: &str) {
        match &self.name {
            Some(name) => name.as_str(),
            None => {
                proof {
                    reveal_strlit("");
                    assert(""@ =~= Seq::<char>::empty());
                }
                ""
            },
        }
    }

    fn tag_name(&self) -> (r: &str) {
        self.tag_name.as_str()
    }

    fn is_prerelease(&self) -> (r: bool) {
        self.prerelease
    }

    fn published_at(&self) -> (r: &str) {
        self.published_at.as_str()
    }

    fn assets(&self) -> (r: Vec<GithubAsset>) {
        let mut r: Vec<GithubAsset> = Vec::new();
        let mut i: usize = 0;
        while i < self.assets.len()
            invariant
                i <= self.assets.len(),
                r@ == self.assets@.take(i as int),
            decreases self.assets.len() - i,
        {
            r.push(self.assets[i].copy());
            i += 1;
        }
        assert(self.assets@.take(i as int) == self.assets@);
        r
    }
}

} // verus!
