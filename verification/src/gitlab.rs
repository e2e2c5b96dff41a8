//! GitLab as a release platform.
use crate::error::PlatformError;
use crate::platform::{Release, ReleaseAsset, ReleasePlatform};
use crate::text::{append, chars_of, split_once, split_once_chars, string_of};
use vstd::prelude::*;
use vstd::string::StringExecFns;

verus! {

/// The platform GitLab.
#[derive(Clone, Copy, Debug, Default)]
pub struct Gitlab;

/// One file of a GitLab release.
#[derive(Debug)]
pub struct GitlabAsset {
    pub name: String,
    pub direct_asset_url: String,
}

/// The files of a GitLab release.
#[derive(Debug)]
pub struct GitlabAssets {
    pub links: Vec<GitlabAsset>,
}

/// One release of a GitLab project.
#[derive(Debug)]
pub struct GitlabRelease {
    pub name: String,
    pub tag_name: String,
    pub upcoming_release: bool,
    pub released_at: String,
    pub assets: GitlabAssets,
}

/// `s` with every `c` replaced by the text `with`.
pub open spec fn replace_char(s: Seq<char>, c: char, with: Seq<char>) -> Seq<char>
    decreases s.len(),
{
    if s.len() == 0 {
        Seq::empty()
    } else {
        replace_char(s.drop_last(), c, with) + if s.last() == c {
            with
        } else {
            seq![s.last()]
        }
    }
}

/// Replaces every `c` in `s` by the text `with`.
pub fn replace_char_chars(s: &Vec<char>, c: char, with: &Vec<char>) -> (r: Vec<char>)
    ensures
        r@ == replace_char(s@, c, with@),
{
    let mut r: Vec<char> = Vec::new();
    let mut i: usize = 0;
    assert(s@.take(0) =~= Seq::empty());
    while i < s.len()
        invariant
            i <= s.len(),
            r@ == replace_char(s@.take(i as int), c, with@),
        decreases s.len() - i,
    {
        proof {
            let next = s@.take(i + 1);
            assert(next.drop_last() == s@.take(i as int));
            assert(next.last() == s@[i as int]);
        }
        if s[i] == c {
            append(&mut r, with);
        } else {
            r.push(s[i]);
        }
        i += 1;
    }
    assert(s@.take(i as int) == s@);
    r
}

impl ReleasePlatform for Gitlab {
    const API_BASE_PRIMARY: &'static str = "https://gitlab.com";

    const API_BASE_PKGFORGE: &'static str = "https://api.gl.pkgforge.dev";

    const TOKEN_ENV_VAR: &'static str = "GITLAB_TOKEN";

    /// A GitLab project is a number, or a path whose first segment is the
    /// owner. Every text is one or the other.
    open spec fn project_path(project: Seq<char>) -> Option<(Seq<char>, Seq<char>)> {
        match split_once(project, '/') {
            Some(halves) => Some(halves),
            None => Some((project, Seq::empty())),
        }
    }

    /// The releases of a project are listed under the project's number or
    /// under its path with `%2F` for each slash. The tag is not part of the
    /// request.
    open spec fn api_path(project: Seq<char>, tag: Option<Seq<char>>) -> Option<Seq<char>> {
        Some("/api/v4/projects/"@ + replace_char(project, '/', "%2F"@) + "/releases"@)
    }

    fn format_project_path(project: &str) -> (r: Result<(String, String), PlatformError>) {
        let text = chars_of(project);
        match split_once_chars(&text, '/') {
            Some((owner, repo)) => Ok((string_of(&owner), string_of(&repo))),
            None => Ok((String::from_str(project), String::new())),
        }
    }

    fn format_api_path(project: &str, tag: Option<&str>) -> (r: Result<String, PlatformError>) {
        let encoded = replace_char_chars(&chars_of(project), '/', &chars_of("%2F"));
        Ok(
            String::from_str("/api/v4/projects/").concat(string_of(&encoded).as_str()).concat(
                "/releases",
            ),
        )
    }
}

impl GitlabAsset {
    /// A copy of the asset.
    pub fn copy(&self) -> (r: GitlabAsset)
        ensures
            r == *self,
    {
        GitlabAsset { name: self.name.clone(), direct_asset_url: self.direct_asset_url.clone() }
    }
}

impl ReleaseAsset for GitlabAsset {
    open spec fn name_text(&self) -> Seq<char> {
        self.name@
    }

    /// GitLab does not tell the size of an asset.
    open spec fn size_value(&self) -> Option<u64> {
        None
    }

    open spec fn url_text(&self) -> Seq<char> {
        self.direct_asset_url@
    }

    fn name(&self) -> (r: &str) {
        self.name.as_str()
    }

    fn size(&self) -> (r: Option<u64>) {
        None
    }

    fn download_url(&self) -> (r: &str) {
        self.direct_asset_url.as_str()
    }
}

impl Release<GitlabAsset> for GitlabRelease {
    open spec fn name_text(&self) -> Seq<char> {
        self.name@
    }

    open spec fn tag_text(&self) -> Seq<char> {
        self.tag_name@
    }

    /// An upcoming release counts as a prerelease.
    open spec fn prerelease(&self) -> bool {
        self.upcoming_release
    }

    open spec fn published_text(&self) -> Seq<char> {
        self.released_at@
    }

    open spec fn asset_list(&self) -> Seq<GitlabAsset> {
        self.assets.links@
    }

    fn name(&self) -> (r: &str) {
        self.name.as_str()
    }

    fn tag_name(&self) -> (r: &str) {
        self.tag_name.as_str()
    }

    fn is_prerelease(&self) -> (r: bool) {
        self.upcoming_release
    }

    fn published_at(&self) -> (r: &str) {
        self.released_at.as_str()
    }

    fn assets(&self) -> (r: Vec<GitlabAsset>) {
        let mut r: Vec<GitlabAsset> = Vec::new();
        let mut i: usize = 0;
        while i < self.assets.links.len()
            invariant
                i <= self.assets.links.len(),
                r@ == self.assets.links@.take(i as int),
            decreases self.assets.links.len() - i,
        {
            r.push(self.assets.links[i].copy());
            i += 1;
        }
        assert(self.assets.links@.take(i as int) == self.assets.links@);
        r
    }
}

} // verus!
