//! Release platforms: what a piece of input names, how a platform's API is
//! asked, and which release and assets are taken.
use crate::downloader::{sets_up, DownloadOptions, Downloader};
use crate::error::{DownloadError, PlatformError};
use crate::foreign::{
    ascii_lower, header_entries, header_insert, header_map_new, header_value_ok, no_headers,
    parse_url, regex_captures, regex_groups, url_parse,
};
use crate::headers::is_header_value;
use crate::text::{
    chars_of, contains, contains_chars, same_text, starts_with, starts_with_chars, string_of,
    trim, trim_chars, CharClass,
};
use crate::transfer::Transfer;
use crate::utils::{
    copy_opt, decode_uri, is_fallback_status, matches_pattern, opt_text, should_fallback, texts,
    uri_decoded, FileMode, Filter,
};
use reqwest::header::HeaderMap;
use vstd::prelude::*;
use vstd::string::StringExecFns;
use vstd::utf8::encode_utf8;

verus! {

/// The two endpoints of a platform's API.
#[derive(Clone, Copy, Debug, PartialEq, Eq, Structural)]
pub enum ApiType {
    /// The mirror, which is asked first.
    PkgForge,
    /// The platform's own API.
    Primary,
}

/// What a piece of input names.
#[derive(Debug)]
pub enum PlatformUrl {
    /// A GitHub project, with `@` and a tag where one was given.
    Github(String),
    /// A GitLab project, with `@` and a tag where one was given.
    Gitlab(String),
    /// A reference into a container registry.
    Oci(String),
    /// Any other URL.
    DirectUrl(String),
}

/// The regular expression that a GitHub project matches.
pub const GITHUB_RELEASE_RE: &'static str =
    r"^(?i)(?:https?://)?(?:github(?:\.com)?[:/])([^/@]+/[^/@]+)(?:@([^/\s]+(?:/[^/\s]*)*)?)?$";

/// The regular expression that a GitLab project matches.
pub const GITLAB_RELEASE_RE: &'static str =
    r"^(?i)(?:https?://)?(?:gitlab(?:\.com)?[:/])((?:\d+)|(?:[^/@]+(?:/[^/@]+)*))(?:@([^/\s]+(?:/[^/\s]*)*)?)?$";

/// What a piece of input names, as text.
pub enum Classified {
    Github(Seq<char>),
    Gitlab(Seq<char>),
    Oci(Seq<char>),
    DirectUrl(Seq<char>),
    /// The input names nothing.
    Invalid(Seq<char>),
}

/// The capture group `i`, where it took part in the match.
pub open spec fn group(groups: Seq<Option<Seq<char>>>, i: int) -> Option<Seq<char>> {
    if 0 <= i < groups.len() {
        groups[i]
    } else {
        None
    }
}

/// A project with its tag: the tag is stripped of quotes and blanks around
/// it and percent-decoded; an empty tag is none.
pub open spec fn tagged(project: Seq<char>, tag: Option<Seq<char>>) -> Seq<char> {
    match tag {
        Some(raw) => {
            let t = trim(raw, CharClass::Quoting);
            if t.len() == 0 {
                project
            } else {
                project + seq!['@'] + uri_decoded(t)
            }
        },
        None => project,
    }
}

/// What the groups of a match of the GitHub expression name.
pub open spec fn github_from_groups(url: Seq<char>, groups: Seq<Option<Seq<char>>>) -> Classified {
    match group(groups, 1) {
        Some(project) => Classified::Github(tagged(project, group(groups, 2))),
        None => Classified::Invalid(url),
    }
}

/// What the groups of a match of the GitLab expression name. A project
/// that begins with `api` or holds `/-/` is a URL of the API or of the web
/// interface, and no project.
pub open spec fn gitlab_from_groups(url: Seq<char>, groups: Seq<Option<Seq<char>>>) -> Classified {
    match group(groups, 1) {
        Some(project) => if starts_with(project, "api"@) || contains(project, "/-/"@) {
            Classified::DirectUrl(url)
        } else {
            Classified::Gitlab(tagged(project, group(groups, 2)))
        },
        None => Classified::Invalid(url),
    }
}

/// What `url` names: a registry reference where it begins with `ghcr.io`;
/// else a GitHub project where the GitHub expression matches; else what
/// the GitLab expression gives where that matches; else a URL in its normal
/// form where it is one.
pub open spec fn classify(url: Seq<char>) -> Classified {
    if starts_with(url, "ghcr.io"@) {
        Classified::Oci(url)
    } else {
        match regex_captures(GITHUB_RELEASE_RE@, url) {
            Some(groups) => github_from_groups(url, groups),
            None => match regex_captures(GITLAB_RELEASE_RE@, url) {
                Some(groups) => gitlab_from_groups(url, groups),
                None => match url_parse(url) {
                    Some(parsed) => Classified::DirectUrl(parsed.0),
                    None => Classified::Invalid(url),
                },
            },
        }
    }
}

/// The texts of a list of capture groups.
pub open spec fn group_texts(groups: Seq<Option<String>>) -> Seq<Option<Seq<char>>> {
    Seq::new(groups.len(), |i: int| opt_text(groups[i]))
}

/// What the outcome of a classification says, as text.
pub open spec fn classified(outcome: Result<PlatformUrl, PlatformError>) -> Classified {
    match outcome {
        Ok(PlatformUrl::Github(project)) => Classified::Github(project@),
        Ok(PlatformUrl::Gitlab(project)) => Classified::Gitlab(project@),
        Ok(PlatformUrl::Oci(reference)) => Classified::Oci(reference@),
        Ok(PlatformUrl::DirectUrl(url)) => Classified::DirectUrl(url@),
        Err(PlatformError::InvalidInput(input)) => Classified::Invalid(input@),
        Err(_) => Classified::Invalid(Seq::empty()),
    }
}

/// Joins a project and the tag that a capture group holds.
fn with_tag(project: &str, tag: &Option<String>) -> (r: String)
    ensures
        r@ == tagged(project@, opt_text(*tag)),
{
    match tag {
        Some(raw) => {
            let t = trim_chars(&chars_of(raw.as_str()), CharClass::Quoting);
            if t.len() == 0 {
                String::from_str(project)
            } else {
                let decoded = decode_uri(string_of(&t).as_str());
                proof {
                    reveal_strlit("@");
                    assert("@"@ =~= seq!['@']);
                }
                String::from_str(project).concat("@").concat(decoded.as_str())
            }
        },
        None => String::from_str(project),
    }
}

/// The group `i` of `groups`.
fn group_at(groups: &Vec<Option<String>>, i: usize) -> (r: &Option<String>)
    ensures
        opt_text(*r) == group(group_texts(groups@), i as int),
{
    if i < groups.len() {
        &groups[i]
    } else {
        &None
    }
}

impl PlatformUrl {
    /// Says what the groups of a match of the GitHub expression in `url`
    /// name.
    pub fn from_github_groups(url: &str, groups: &Vec<Option<String>>) -> (r: Result<
        PlatformUrl,
        PlatformError,
    >)
        ensures
            classified(r) == github_from_groups(url@, group_texts(groups@)),
            r matches Err(e) ==> e is InvalidInput,
    {
        match group_at(groups, 1) {
            Some(project) => Ok(PlatformUrl::Github(with_tag(project.as_str(), group_at(groups, 2)))),
            None => Err(PlatformError::InvalidInput(String::from_str(url))),
        }
    }

    /// Says what the groups of a match of the GitLab expression in `url`
    /// name.
    pub fn from_gitlab_groups(url: &str, groups: &Vec<Option<String>>) -> (r: Result<
        PlatformUrl,
        PlatformError,
    >)
        ensures
            classified(r) == gitlab_from_groups(url@, group_texts(groups@)),
            r matches Err(e) ==> e is InvalidInput,
    {
        match group_at(groups, 1) {
            Some(project) => {
                let p = chars_of(project.as_str());
                if starts_with_chars(&p, &chars_of("api")) || contains_chars(&p, &chars_of("/-/")) {
                    Ok(PlatformUrl::DirectUrl(String::from_str(url)))
                } else {
                    Ok(PlatformUrl::Gitlab(with_tag(project.as_str(), group_at(groups, 2))))
                }
            },
            None => Err(PlatformError::InvalidInput(String::from_str(url))),
        }
    }

    /// Says what `url` names. Every input gets an answer: one of the four
    /// kinds, or the error that the input is invalid.
    pub fn parse(url: &str) -> (r: Result<PlatformUrl, PlatformError>)
        ensures
            classified(r) == classify(url@),
            r matches Err(e) ==> e matches PlatformError::InvalidInput(input) && input@ == url@,
    {
        if starts_with_chars(&chars_of(url), &chars_of("ghcr.io")) {
            return Ok(PlatformUrl::Oci(String::from_str(url)));
        }
        let github = regex_groups(GITHUB_RELEASE_RE, url);
        assert(crate::foreign::groups_view(github) == regex_captures(GITHUB_RELEASE_RE@, url@));
        match github {
            Some(groups) => {
                assert(group_texts(groups@) == crate::foreign::groups_view(github)->0);
                return match Self::from_github_groups(url, &groups) {
                    Ok(found) => Ok(found),
                    Err(_) => Err(PlatformError::InvalidInput(String::from_str(url))),
                };
            },
            None => {},
        }
        let gitlab = regex_groups(GITLAB_RELEASE_RE, url);
        match gitlab {
            Some(groups) => {
                assert(group_texts(groups@) == crate::foreign::groups_view(gitlab)->0);
                return match Self::from_gitlab_groups(url, &groups) {
                    Ok(found) => Ok(found),
                    Err(_) => Err(PlatformError::InvalidInput(String::from_str(url))),
                };
            },
            None => {},
        }
        match parse_url(url) {
            Ok(parsed) => Ok(PlatformUrl::DirectUrl(parsed.text)),
            Err(_) => Err(PlatformError::InvalidInput(String::from_str(url))),
        }
    }
}

/// Something that can be downloaded.
pub trait DownloadableAsset {
    fn name(&self) -> &str;

    fn size(&self) -> u64;

    fn download_url(&self) -> &str;
}

/// What tells one release platform from another.
pub trait ReleasePlatform {
    /// The base URL of the platform's own API.
    const API_BASE_PRIMARY: &'static str;

    /// The base URL of the mirror.
    const API_BASE_PKGFORGE: &'static str;

    /// The environment variable that holds the API token.
    const TOKEN_ENV_VAR: &'static str;

    /// The owner and the repository that a project text names, if it has
    /// the platform's form.
    spec fn project_path(project: Seq<char>) -> Option<(Seq<char>, Seq<char>)>;

    /// The path of the API request for the releases of a project.
    spec fn api_path(project: Seq<char>, tag: Option<Seq<char>>) -> Option<Seq<char>>;

    fn format_project_path(project: &str) -> (r: Result<(String, String), PlatformError>)
        ensures
            match r {
                Ok(pair) => Self::project_path(project@) == Some((pair.0@, pair.1@)),
                Err(e) => Self::project_path(project@) is None && e is InvalidInput,
            },
    ;

    fn format_api_path(project: &str, tag: Option<&str>) -> (r: Result<String, PlatformError>)
        ensures
            match r {
                Ok(path) => Self::api_path(
                    project@,
                    match tag {
                        Some(t) => Some(t@),
                        None => None,
                    },
                ) == Some(path@),
                Err(e) => Self::api_path(
                    project@,
                    match tag {
                        Some(t) => Some(t@),
                        None => None,
                    },
                ) is None && e is InvalidInput,
            },
    ;
}

/// One file of a release.
pub trait ReleaseAsset {
    spec fn name_text(&self) -> Seq<char>;

    spec fn size_value(&self) -> Option<u64>;

    spec fn url_text(&self) -> Seq<char>;

    fn name(&self) -> (r: &str)
        ensures
            r@ == self.name_text(),
    ;

    fn size(&self) -> (r: Option<u64>)
        ensures
            r == self.size_value(),
    ;

    fn download_url(&self) -> (r: &str)
        ensures
            r@ == self.url_text(),
    ;
}

/// One release of a project.
pub trait Release<A: ReleaseAsset> {
    spec fn name_text(&self) -> Seq<char>;

    spec fn tag_text(&self) -> Seq<char>;

    spec fn prerelease(&self) -> bool;

    spec fn published_text(&self) -> Seq<char>;

    spec fn asset_list(&self) -> Seq<A>;

    fn name(&self) -> (r: &str)
        ensures
            r@ == self.name_text(),
    ;

    fn tag_name(&self) -> (r: &str)
        ensures
            r@ == self.tag_text(),
    ;

    fn is_prerelease(&self) -> (r: bool)
        ensures
            r == self.prerelease(),
    ;

    fn published_at(&self) -> (r: &str)
        ensures
            r@ == self.published_text(),
    ;

    fn assets(&self) -> (r: Vec<A>)
        ensures
            r@ == self.asset_list(),
    ;
}

/// What to take from a release, and where to put it.
#[derive(Clone, Debug)]
pub struct PlatformDownloadOptions {
    pub output_path: Option<String>,
    pub tag: Option<String>,
    pub regexes: Vec<String>,
    pub globs: Vec<String>,
    pub match_keywords: Vec<String>,
    pub exclude_keywords: Vec<String>,
    pub exact_case: bool,
    pub extract_archive: bool,
    pub extract_dir: Option<String>,
    pub file_mode: FileMode,
}

impl PlatformDownloadOptions {
    /// The filter that the options set.
    pub open spec fn filter(self) -> Filter {
        Filter {
            regexes: texts(self.regexes@),
            globs: texts(self.globs@),
            match_keywords: texts(self.match_keywords@),
            exclude_keywords: texts(self.exclude_keywords@),
            exact_case: self.exact_case,
        }
    }
}

/// A request to a platform's API.
pub struct ApiRequest {
    pub url: String,
    pub headers: HeaderMap,
}

/// What follows an answer of a platform's API.
pub enum FetchStep {
    /// The mirror is given up: send this request to the platform itself.
    Call(ApiRequest),
    /// The lookup failed.
    Fail(PlatformError),
    /// Read the releases from the body.
    Read,
}

/// The body of an API's answer, as far as it could be read.
pub enum ApiBody<R> {
    /// A JSON array; the releases in it, where they decode.
    List(Option<Vec<R>>),
    /// A JSON object; the release that it is, where it decodes.
    Single(Option<R>),
    /// Anything else.
    Other,
}

/// Looks up releases on the platform `P`.
pub struct ReleaseHandler<P: ReleasePlatform> {
    pub downloader: Downloader,
    _platform: std::marker::PhantomData<P>,
}

/// The base URL of one endpoint of the platform `P`.
pub open spec fn base_of<P: ReleasePlatform>(api_type: ApiType) -> Seq<char> {
    match api_type {
        ApiType::PkgForge => P::API_BASE_PKGFORGE@,
        ApiType::Primary => P::API_BASE_PRIMARY@,
    }
}

/// The token that a request carries: only the platform's own API gets one,
/// and only where it can be sent as a header value.
pub open spec fn sent_token(api_type: ApiType, token: Option<Seq<char>>) -> Option<Seq<char>> {
    match token {
        Some(t) => if api_type is Primary && header_value_ok(t) {
            Some(t)
        } else {
            None
        },
        None => None,
    }
}

/// The headers of a request to an API.
pub open spec fn api_entries(api_type: ApiType, token: Option<Seq<char>>) -> Map<
    Seq<char>,
    Seq<Seq<u8>>,
> {
    let plain = no_headers().insert("user-agent"@, seq![encode_utf8("pkgforge/soar"@)]);
    match sent_token(api_type, token) {
        Some(t) => plain.insert("authorization"@, seq![encode_utf8("Bearer "@ + t)]),
        None => plain,
    }
}

/// Index of the first release with the tag `tag`, or the number of
/// releases.
pub open spec fn first_tagged<A: ReleaseAsset, R: Release<A>>(releases: Seq<R>, tag: Seq<char>) -> int
    decreases releases.len(),
{
    if releases.len() == 0 {
        0
    } else if releases[0].tag_text() == tag {
        0
    } else {
        1 + first_tagged::<A, R>(releases.drop_first(), tag)
    }
}

/// Index of the first release that is no prerelease, or the number of
/// releases.
pub open spec fn first_stable<A: ReleaseAsset, R: Release<A>>(releases: Seq<R>) -> int
    decreases releases.len(),
{
    if releases.len() == 0 {
        0
    } else if !releases[0].prerelease() {
        0
    } else {
        1 + first_stable::<A, R>(releases.drop_first())
    }
}

/// Index of the release that is taken: with a tag, the first release that
/// has it; without, the first that is no prerelease, or else the first.
pub open spec fn chosen_release<A: ReleaseAsset, R: Release<A>>(
    releases: Seq<R>,
    tag: Option<Seq<char>>,
) -> Option<int> {
    match tag {
        Some(t) => {
            let i = first_tagged::<A, R>(releases, t);
            if 0 <= i < releases.len() {
                Some(i)
            } else {
                None
            }
        },
        None => {
            let i = first_stable::<A, R>(releases);
            if 0 <= i < releases.len() {
                Some(i)
            } else if releases.len() > 0 {
                Some(0)
            } else {
                None
            }
        },
    }
}

/// The assets whose names pass the filter, in their order.
pub open spec fn passing<A: ReleaseAsset>(assets: Seq<A>, filter: Filter) -> Seq<A>
    decreases assets.len(),
{
    if assets.len() == 0 {
        Seq::empty()
    } else if filter.passes(assets.last().name_text()) {
        passing(assets.drop_last(), filter).push(assets.last())
    } else {
        passing(assets.drop_last(), filter)
    }
}

/// The names of `assets`.
pub open spec fn names_of<A: ReleaseAsset>(assets: Seq<A>) -> Seq<Seq<char>> {
    Seq::new(assets.len(), |i: int| assets[i].name_text())
}

/// Finds the first release with the tag `tag`.
fn find_tagged<A: ReleaseAsset, R: Release<A>>(releases: &[R], tag: &str) -> (i: usize)
    ensures
        i <= releases@.len(),
        i == first_tagged::<A, R>(releases@, tag@),
{
    let mut i: usize = 0;
    assert(releases@.skip(0) == releases@);
    while i < releases.len()
        invariant
            i <= releases.len(),
            first_tagged::<A, R>(releases@, tag@) == i + first_tagged::<A, R>(
                releases@.skip(i as int),
                tag@,
            ),
        decreases releases.len() - i,
    {
        proof {
            let rest = releases@.skip(i as int);
            assert(rest[0] == releases@[i as int]);
            assert(rest.drop_first() == releases@.skip(i + 1));
        }
        if same_text(releases[i].tag_name(), tag) {
            return i;
        }
        i += 1;
    }
    i
}

/// Finds the first release that is no prerelease.
fn find_stable<A: ReleaseAsset, R: Release<A>>(releases: &[R]) -> (i: usize)
    ensures
        i <= releases@.len(),
        i == first_stable::<A, R>(releases@),
{
    let mut i: usize = 0;
    assert(releases@.skip(0) == releases@);
    while i < releases.len()
        invariant
            i <= releases.len(),
            first_stable::<A, R>(releases@) == i + first_stable::<A, R>(releases@.skip(i as int)),
        decreases releases.len() - i,
    {
        proof {
            let rest = releases@.skip(i as int);
            assert(rest[0] == releases@[i as int]);
            assert(rest.drop_first() == releases@.skip(i + 1));
        }
        if !releases[i].is_prerelease() {
            return i;
        }
        i += 1;
    }
    i
}

/// Reads the releases out of the body of an answer: an array is the list
/// of releases, an object is one release.
pub fn releases_from<R>(body: ApiBody<R>) -> (r: Result<Vec<R>, PlatformError>)
    ensures
        match body {
            ApiBody::List(Some(list)) => r == Ok::<Vec<R>, PlatformError>(list),
            ApiBody::Single(Some(one)) => r matches Ok(list) && list@ == seq![one],
            _ => r matches Err(e) && e is InvalidResponse,
        },
{
    match body {
        ApiBody::List(Some(list)) => Ok(list),
        ApiBody::Single(Some(one)) => {
            let mut list: Vec<R> = Vec::new();
            list.push(one);
            Ok(list)
        },
        _ => Err(PlatformError::InvalidResponse),
    }
}

impl<P: ReleasePlatform> ReleaseHandler<P> {
    /// A handler for the platform `P`.
    pub fn new() -> (handler: ReleaseHandler<P>) {
        ReleaseHandler { downloader: Downloader, _platform: std::marker::PhantomData }
    }

    /// Builds the request for the releases of `project` at one endpoint.
    /// `token` is the API token, where the environment holds one.
    pub fn call_api(&self, api_type: ApiType, project: &str, tag: Option<&str>, token: Option<&str>) -> (r:
        Result<ApiRequest, PlatformError>)
        ensures
            match P::api_path(
                project@,
                match tag {
                    Some(t) => Some(t@),
                    None => None,
                },
            ) {
                Some(path) => r matches Ok(request) && request.url@ == base_of::<P>(api_type) + path
                    && header_entries(request.headers) == api_entries(
                    api_type,
                    match token {
                        Some(t) => Some(t@),
                        None => None,
                    },
                ),
                None => r matches Err(e) && e is InvalidInput,
            },
    {
        let base = match api_type {
            ApiType::PkgForge => P::API_BASE_PKGFORGE,
            ApiType::Primary => P::API_BASE_PRIMARY,
        };
        let path = match P::format_api_path(project, tag) {
            Ok(path) => path,
            Err(e) => {
                return Err(e);
            },
        };
        let url = String::from_str(base).concat(path.as_str());
        let mut headers = header_map_new();
        proof {
            reveal_strlit("user-agent");
            reveal_strlit("authorization");
            reveal_strlit("pkgforge/soar");
            reveal_strlit("Bearer ");
            assert(ascii_lower("user-agent"@) =~= "user-agent"@);
            assert(ascii_lower("authorization"@) =~= "authorization"@);
        }
        header_insert(&mut headers, "user-agent", "pkgforge/soar");
        match api_type {
            ApiType::Primary => match token {
                Some(t) => {
                    if is_header_value(t) {
                        let value = String::from_str("Bearer ").concat(t);
                        header_insert(&mut headers, "authorization", value.as_str());
                    }
                },
                None => {},
            },
            ApiType::PkgForge => {},
        }
        Ok(ApiRequest { url, headers })
    }

    /// Begins the lookup of the releases of `project`: the mirror is asked
    /// first.
    pub fn fetch_releases(&self, project: &str, tag: Option<&str>, token: Option<&str>) -> (r:
        Result<ApiRequest, PlatformError>)
        ensures
            match P::api_path(
                project@,
                match tag {
                    Some(t) => Some(t@),
                    None => None,
                },
            ) {
                Some(path) => r matches Ok(request) && request.url@ == P::API_BASE_PKGFORGE@ + path
                    && header_entries(request.headers) == api_entries(ApiType::PkgForge, None),
                None => r matches Err(e) && e is InvalidInput,
            },
    {
        self.call_api(ApiType::PkgForge, project, tag, token)
    }

    /// Takes the status of an answer. A mirror that answers 401, 403, 429
    /// or with a server error is given up for the platform itself; any
    /// other status that is no success ends the lookup with an error that
    /// names `url`, the URL that answered.
    pub fn on_api_answer(
        &self,
        asked: ApiType,
        status: u16,
        url: &str,
        project: &str,
        tag: Option<&str>,
        token: Option<&str>,
    ) -> (step: FetchStep)
        ensures
            if asked is PkgForge && is_fallback_status(status) {
                match P::api_path(
                    project@,
                    match tag {
                        Some(t) => Some(t@),
                        None => None,
                    },
                ) {
                    Some(path) => step matches FetchStep::Call(request) && request.url@
                        == P::API_BASE_PRIMARY@ + path && header_entries(request.headers)
                        == api_entries(
                        ApiType::Primary,
                        match token {
                            Some(t) => Some(t@),
                            None => None,
                        },
                    ),
                    None => step matches FetchStep::Fail(e) && e is InvalidInput,
                }
            } else if !(200 <= status < 300) {
                step matches FetchStep::Fail(
                    PlatformError::DownloadError(DownloadError::ResourceError { url: u, status: s }),
                ) && u@ == url@ && s == status
            } else {
                step is Read
            },
    {
        let mirror = match asked {
            ApiType::PkgForge => true,
            ApiType::Primary => false,
        };
        if mirror && should_fallback(status) {
            return match self.call_api(ApiType::Primary, project, tag, token) {
                Ok(request) => FetchStep::Call(request),
                Err(e) => FetchStep::Fail(e),
            };
        }
        if !(200 <= status && status < 300) {
            return FetchStep::Fail(
                PlatformError::DownloadError(
                    DownloadError::ResourceError { url: String::from_str(url), status },
                ),
            );
        }
        FetchStep::Read
    }

    /// Takes one release of `releases` and the assets of it that pass the
    /// filter.
    pub fn filter_releases<R, A>(&self, releases: &[R], options: &PlatformDownloadOptions) -> (r:
        Result<Vec<A>, PlatformError>)
        where
            R: Release<A>,
            A: ReleaseAsset,
        ensures
            match chosen_release::<A, R>(releases@, opt_text(options.tag)) {
                None => r matches Err(PlatformError::NoRelease { tag }) && opt_text(tag)
                    == opt_text(options.tag),
                Some(i) => {
                    let all = releases@[i].asset_list();
                    let kept = passing(all, options.filter());
                    if kept.len() == 0 {
                        r matches Err(PlatformError::NoMatchingAssets { available_assets })
                            && texts(available_assets@) == names_of(all)
                    } else {
                        r matches Ok(assets) && assets@ == kept
                    }
                },
            },
    {
        let found = match &options.tag {
            Some(tag) => find_tagged::<A, R>(releases, tag.as_str()),
            None => {
                let stable = find_stable::<A, R>(releases);
                if stable == releases.len() && releases.len() > 0 {
                    0
                } else {
                    stable
                }
            },
        };
        if found >= releases.len() {
            return Err(PlatformError::NoRelease { tag: copy_opt(&options.tag) });
        }
        let mut rest = releases[found].assets();
        let ghost all = rest@;
        let ghost filter = options.filter();
        let mut kept: Vec<A> = Vec::new();
        let mut names: Vec<String> = Vec::new();
        let ghost mut seen: int = 0;
        assert(all.take(0) =~= Seq::empty());
        while rest.len() > 0
            invariant
                0 <= seen <= all.len(),
                rest@ == all.skip(seen),
                filter == options.filter(),
                kept@ == passing(all.take(seen), filter),
                texts(names@) == names_of(all.take(seen)),
            decreases rest.len(),
        {
            let asset = rest.remove(0);
            proof {
                assert(asset == all[seen]);
                assert(all.take(seen + 1).drop_last() == all.take(seen));
                assert(all.take(seen + 1).last() == asset);
                assert(rest@ == all.skip(seen + 1));
            }
            let ghost before = texts(names@);
            names.push(String::from_str(asset.name()));
            assert(texts(names@) == before.push(asset.name_text()));
            assert(names_of(all.take(seen + 1)) == names_of(all.take(seen)).push(asset.name_text()));
            if matches_pattern(
                asset.name(),
                options.regexes.as_slice(),
                options.globs.as_slice(),
                options.match_keywords.as_slice(),
                options.exclude_keywords.as_slice(),
                options.exact_case,
            ) {
                kept.push(asset);
            }
            proof {
                seen = seen + 1;
            }
        }
        assert(all.take(seen) == all);
        if kept.len() == 0 {
            return Err(PlatformError::NoMatchingAssets { available_assets: names });
        }
        Ok(kept)
    }

    /// Sets up the download of `asset`.
    pub fn download<A: ReleaseAsset>(
        &self,
        asset: &A,
        options: &PlatformDownloadOptions,
        output_is_dir: bool,
    ) -> (r: Result<Transfer, PlatformError>)
        ensures
            sets_up(
                asset.url_text(),
                opt_text(options.output_path),
                output_is_dir,
                options.extract_archive,
                opt_text(options.extract_dir),
                options.file_mode,
                match r {
                    Ok(transfer) => Ok(transfer),
                    Err(PlatformError::DownloadError(error)) => Err(error),
                    Err(_) => Err(DownloadError::InvalidResponse),
                },
            ),
    {
        let download = DownloadOptions {
            url: String::from_str(asset.download_url()),
            output_path: copy_opt(&options.output_path),
            extract_archive: options.extract_archive,
            extract_dir: copy_opt(&options.extract_dir),
            file_mode: options.file_mode,
        };
        match self.downloader.download(&download, output_is_dir) {
            Ok(transfer) => Ok(transfer),
            Err(e) => Err(PlatformError::from(e)),
        }
    }
}

} // verus!
