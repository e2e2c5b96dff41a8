use soar_dl::error::{DownloadError, PlatformError};
use soar_dl::github::{Github, GithubAsset, GithubRelease};
use soar_dl::gitlab::{Gitlab, GitlabAsset, GitlabAssets, GitlabRelease};
use soar_dl::platform::{
    releases_from, ApiBody, ApiType, FetchStep, PlatformDownloadOptions, PlatformUrl, Release,
    ReleaseAsset, ReleaseHandler, ReleasePlatform,
};
use soar_dl::transfer::TransferKind;
use soar_dl::utils::FileMode;

fn options() -> PlatformDownloadOptions {
    PlatformDownloadOptions {
        output_path: None,
        tag: None,
        regexes: vec![],
        globs: vec![],
        match_keywords: vec![],
        exclude_keywords: vec![],
        exact_case: false,
        extract_archive: false,
        extract_dir: None,
        file_mode: FileMode::PromptOverwrite,
    }
}

fn asset(name: &str) -> GithubAsset {
    GithubAsset {
        name: name.to_string(),
        size: 10,
        browser_download_url: format!("https://github.com/o/r/releases/download/v1/{}", name),
    }
}

fn release(tag: &str, prerelease: bool, assets: &[&str]) -> GithubRelease {
    GithubRelease {
        name: None,
        tag_name: tag.to_string(),
        prerelease,
        published_at: "2024-01-01T00:00:00Z".to_string(),
        assets: assets.iter().map(|a| asset(a)).collect(),
    }
}

fn names(assets: &[GithubAsset]) -> Vec<&str> {
    assets.iter().map(|a| a.name()).collect()
}

fn kind(url: &str) -> String {
    match PlatformUrl::parse(url) {
        Ok(PlatformUrl::Github(p)) => format!("github:{}", p),
        Ok(PlatformUrl::Gitlab(p)) => format!("gitlab:{}", p),
        Ok(PlatformUrl::Oci(p)) => format!("oci:{}", p),
        Ok(PlatformUrl::DirectUrl(p)) => format!("url:{}", p),
        Err(PlatformError::InvalidInput(p)) => format!("invalid:{}", p),
        Err(_) => "other error".to_string(),
    }
}

#[test]
fn classifier_examples() {
    assert_eq!(kind("github.com/foo/bar@v1.2.3"), "github:foo/bar@v1.2.3");
    assert_eq!(kind("gitlab.com/api/v4/projects/1/releases"), "url:gitlab.com/api/v4/projects/1/releases");
    assert_eq!(kind("ghcr.io/ns/app:latest"), "oci:ghcr.io/ns/app:latest");
}

#[test]
fn classifier_github() {
    assert_eq!(kind("github.com/foo/bar"), "github:foo/bar");
    assert_eq!(kind("https://github.com/foo/bar"), "github:foo/bar");
    assert_eq!(kind("HTTP://GitHub.com/Foo/Bar"), "github:Foo/Bar");
    assert_eq!(kind("github:foo/bar@"), "github:foo/bar");
    assert_eq!(kind("github/foo/bar@v1/x"), "github:foo/bar@v1/x");
    assert_eq!(kind("github.com/foo/bar@v%201"), "github:foo/bar@v 1");
    assert_eq!(kind("github.com/foo/bar@'v1'"), "github:foo/bar@v1");
    assert_eq!(kind("github.com/foo/bar@\"\""), "github:foo/bar");
}

#[test]
fn classifier_gitlab() {
    assert_eq!(kind("gitlab.com/foo/bar"), "gitlab:foo/bar");
    assert_eq!(kind("gitlab.com/a/b/c@v1"), "gitlab:a/b/c@v1");
    assert_eq!(kind("gitlab:12345"), "gitlab:12345");
    assert_eq!(kind("gitlab.com/12345@v2"), "gitlab:12345@v2");
    assert_eq!(kind("https://gitlab.com/a/b/-/releases"), "url:https://gitlab.com/a/b/-/releases");
    assert_eq!(kind("gitlab.com/apiary/x"), "url:gitlab.com/apiary/x");
}

#[test]
fn classifier_urls_and_rubbish() {
    assert_eq!(kind("https://example.com/a b"), "url:https://example.com/a%20b");
    assert_eq!(kind("HTTPS://EXAMPLE.com"), "url:https://example.com/");
    assert_eq!(kind("https://github.com/foo/bar/releases/download/v1/x.tar.gz"),
        "url:https://github.com/foo/bar/releases/download/v1/x.tar.gz");
    assert_eq!(kind("just some words"), "invalid:just some words");
    assert_eq!(kind(""), "invalid:");
    assert_eq!(kind("github.com/foo"), "invalid:github.com/foo");
}

#[test]
fn classifier_answers_every_input() {
    let inputs = [
        "", "@", "/", "github", "github.com/", "github.com//", "gitlab.com/@", "ghcr.io",
        "\u{0}", "%", "%zz", "gitlab.com/%2F", "a:b", "://", "github.com/a/b@%ff%fe",
        "github.com/a/b@\u{1F600}", "GITLAB:\u{661}\u{662}",
    ];
    for input in inputs {
        match PlatformUrl::parse(input) {
            Ok(_) => {}
            Err(PlatformError::InvalidInput(text)) => assert_eq!(text, input),
            Err(_) => panic!("unexpected kind of error for {:?}", input),
        }
    }
}

#[test]
fn classifier_from_groups() {
    let g = |items: &[Option<&str>]| -> Vec<Option<String>> {
        items.iter().map(|i| i.map(|s| s.to_string())).collect()
    };
    match PlatformUrl::from_github_groups("u", &g(&[Some("whole"), Some("o/r"), Some(" v1 ")])) {
        Ok(PlatformUrl::Github(p)) => assert_eq!(p, "o/r@v1"),
        _ => panic!("expected a project"),
    }
    match PlatformUrl::from_github_groups("u", &g(&[Some("whole"), Some("o/r"), None])) {
        Ok(PlatformUrl::Github(p)) => assert_eq!(p, "o/r"),
        _ => panic!("expected a project"),
    }
    match PlatformUrl::from_github_groups("u", &g(&[Some("whole"), Some("o/r")])) {
        Ok(PlatformUrl::Github(p)) => assert_eq!(p, "o/r"),
        _ => panic!("expected a project"),
    }
    assert!(matches!(
        PlatformUrl::from_github_groups("u", &g(&[Some("whole"), None, Some("v1")])),
        Err(PlatformError::InvalidInput(_))
    ));
    assert!(matches!(PlatformUrl::from_github_groups("u", &g(&[])), Err(PlatformError::InvalidInput(_))));
    match PlatformUrl::from_gitlab_groups("the url", &g(&[Some("whole"), Some("api/v4"), None])) {
        Ok(PlatformUrl::DirectUrl(p)) => assert_eq!(p, "the url"),
        _ => panic!("expected a URL"),
    }
    match PlatformUrl::from_gitlab_groups("the url", &g(&[Some("whole"), Some("a/-/b"), None])) {
        Ok(PlatformUrl::DirectUrl(p)) => assert_eq!(p, "the url"),
        _ => panic!("expected a URL"),
    }
    match PlatformUrl::from_gitlab_groups("u", &g(&[Some("whole"), Some("a/b"), Some("v%31")])) {
        Ok(PlatformUrl::Gitlab(p)) => assert_eq!(p, "a/b@v1"),
        _ => panic!("expected a project"),
    }
    assert!(matches!(
        PlatformUrl::from_gitlab_groups("u", &g(&[Some("whole")])),
        Err(PlatformError::InvalidInput(_))
    ));
}

#[test]
fn github_paths() {
    assert_eq!(
        Github::format_project_path("owner/repo").unwrap(),
        ("owner".to_string(), "repo".to_string())
    );
    assert_eq!(
        Github::format_project_path("owner/repo/more").unwrap(),
        ("owner".to_string(), "repo/more".to_string())
    );
    for bad in ["owner", "", "/repo", "owner/", " / ", "/"] {
        match Github::format_project_path(bad) {
            Err(PlatformError::InvalidInput(text)) => {
                assert_eq!(text, format!("Github project '{}' must be in 'owner/repo' format", bad))
            }
            _ => panic!("expected invalid input for {:?}", bad),
        }
        assert!(matches!(Github::format_api_path(bad, None), Err(PlatformError::InvalidInput(_))));
    }
    assert_eq!(
        Github::format_api_path("owner/repo", None).unwrap(),
        "/repos/owner/repo/releases?per_page=100"
    );
    assert_eq!(
        Github::format_api_path("owner/repo", Some("v1.0")).unwrap(),
        "/repos/owner/repo/releases/tags/v1.0?per_page=100"
    );
    assert_eq!(Github::API_BASE_PRIMARY, "https://api.github.com");
    assert_eq!(Github::API_BASE_PKGFORGE, "https://api.gh.pkgforge.dev");
    assert_eq!(Github::TOKEN_ENV_VAR, "GITHUB_TOKEN");
}

#[test]
fn gitlab_paths() {
    assert_eq!(Gitlab::format_api_path("12345", None).unwrap(), "/api/v4/projects/12345/releases");
    assert_eq!(
        Gitlab::format_api_path("group/sub/project", Some("v1")).unwrap(),
        "/api/v4/projects/group%2Fsub%2Fproject/releases"
    );
    assert_eq!(Gitlab::format_api_path("", None).unwrap(), "/api/v4/projects//releases");
    assert_eq!(
        Gitlab::format_project_path("12345").unwrap(),
        ("12345".to_string(), String::new())
    );
    assert_eq!(
        Gitlab::format_project_path("group/sub/project").unwrap(),
        ("group".to_string(), "sub/project".to_string())
    );
    assert_eq!(Gitlab::format_project_path("solo").unwrap(), ("solo".to_string(), String::new()));
    assert_eq!(Gitlab::API_BASE_PRIMARY, "https://gitlab.com");
    assert_eq!(Gitlab::API_BASE_PKGFORGE, "https://api.gl.pkgforge.dev");
    assert_eq!(Gitlab::TOKEN_ENV_VAR, "GITLAB_TOKEN");
}

#[test]
fn release_accessors() {
    let r = release("v1", true, &["a", "b"]);
    assert_eq!(r.name(), "");
    assert_eq!(r.tag_name(), "v1");
    assert!(r.is_prerelease());
    assert_eq!(r.published_at(), "2024-01-01T00:00:00Z");
    let assets = r.assets();
    assert_eq!(names(&assets), vec!["a", "b"]);
    assert_eq!(assets[0].size(), Some(10));
    assert_eq!(assets[0].download_url(), "https://github.com/o/r/releases/download/v1/a");
    let named = GithubRelease { name: Some("First".to_string()), ..release("v1", false, &[]) };
    assert_eq!(named.name(), "First");

    let g = GitlabRelease {
        name: "One".to_string(),
        tag_name: "v1".to_string(),
        upcoming_release: true,
        released_at: "2024".to_string(),
        assets: GitlabAssets {
            links: vec![GitlabAsset { name: "x".to_string(), direct_asset_url: "https://gl/x".to_string() }],
        },
    };
    assert_eq!(g.name(), "One");
    assert_eq!(g.tag_name(), "v1");
    assert!(g.is_prerelease());
    assert_eq!(g.published_at(), "2024");
    let assets = g.assets();
    assert_eq!(assets.len(), 1);
    assert_eq!(assets[0].name(), "x");
    assert_eq!(assets[0].size(), None);
    assert_eq!(assets[0].download_url(), "https://gl/x");
}

#[test]
fn api_requests() {
    let handler = ReleaseHandler::<Github>::new();
    let first = handler.fetch_releases("o/r", None, Some("secret")).unwrap();
    assert_eq!(first.url, "https://api.gh.pkgforge.dev/repos/o/r/releases?per_page=100");
    assert_eq!(first.headers.len(), 1);
    assert_eq!(first.headers.get("user-agent").unwrap(), "pkgforge/soar");

    let primary = handler.call_api(ApiType::Primary, "o/r", Some("v1"), Some("secret")).unwrap();
    assert_eq!(primary.url, "https://api.github.com/repos/o/r/releases/tags/v1?per_page=100");
    assert_eq!(primary.headers.get("authorization").unwrap(), "Bearer secret");
    assert_eq!(primary.headers.get("user-agent").unwrap(), "pkgforge/soar");

    let plain = handler.call_api(ApiType::Primary, "o/r", None, None).unwrap();
    assert!(plain.headers.get("authorization").is_none());
    let odd = handler.call_api(ApiType::Primary, "o/r", None, Some("bad\ntoken")).unwrap();
    assert!(odd.headers.get("authorization").is_none());
    assert!(matches!(
        handler.fetch_releases("nonsense", None, None),
        Err(PlatformError::InvalidInput(_))
    ));

    let handler = ReleaseHandler::<Gitlab>::new();
    let first = handler.fetch_releases("g/p", Some("v1"), None).unwrap();
    assert_eq!(first.url, "https://api.gl.pkgforge.dev/api/v4/projects/g%2Fp/releases");
}

#[test]
fn mirror_fallback() {
    let handler = ReleaseHandler::<Github>::new();
    for status in [401u16, 403, 429, 500, 503] {
        match handler.on_api_answer(ApiType::PkgForge, status, "https://m/x", "o/r", None, Some("t")) {
            FetchStep::Call(request) => {
                assert_eq!(request.url, "https://api.github.com/repos/o/r/releases?per_page=100");
                assert_eq!(request.headers.get("authorization").unwrap(), "Bearer t");
            }
            _ => panic!("expected the primary API to be asked for {}", status),
        }
        match handler.on_api_answer(ApiType::Primary, status, "https://p/x", "o/r", None, None) {
            FetchStep::Fail(PlatformError::DownloadError(DownloadError::ResourceError { url, status: s })) => {
                assert_eq!(url, "https://p/x");
                assert_eq!(s, status);
            }
            _ => panic!("expected the status to be reported for {}", status),
        }
    }
    match handler.on_api_answer(ApiType::PkgForge, 404, "https://m/x", "o/r", None, None) {
        FetchStep::Fail(PlatformError::DownloadError(DownloadError::ResourceError { url, status })) => {
            assert_eq!(url, "https://m/x");
            assert_eq!(status, 404);
        }
        _ => panic!("expected the status to be reported"),
    }
    assert!(matches!(
        handler.on_api_answer(ApiType::PkgForge, 200, "https://m/x", "o/r", None, None),
        FetchStep::Read
    ));
    assert!(matches!(
        handler.on_api_answer(ApiType::Primary, 204, "https://m/x", "o/r", None, None),
        FetchStep::Read
    ));
}

#[test]
fn bodies() {
    let list = releases_from(ApiBody::List(Some(vec![release("a", false, &[]), release("b", false, &[])]))).unwrap();
    assert_eq!(list.len(), 2);
    let one = releases_from(ApiBody::Single(Some(release("a", false, &[])))).unwrap();
    assert_eq!(one.len(), 1);
    assert_eq!(one[0].tag_name, "a");
    assert!(matches!(releases_from::<GithubRelease>(ApiBody::List(None)), Err(PlatformError::InvalidResponse)));
    assert!(matches!(releases_from::<GithubRelease>(ApiBody::Single(None)), Err(PlatformError::InvalidResponse)));
    assert!(matches!(releases_from::<GithubRelease>(ApiBody::Other), Err(PlatformError::InvalidResponse)));
}

#[test]
fn release_selection() {
    let handler = ReleaseHandler::<Github>::new();
    let releases = vec![
        release("v3-rc", true, &["rc.tar.gz"]),
        release("v2", false, &["two.tar.gz", "two.zip"]),
        release("v1", false, &["one.tar.gz"]),
        release("v2", false, &["shadowed.tar.gz"]),
    ];
    let got = handler.filter_releases(&releases, &options()).unwrap();
    assert_eq!(names(&got), vec!["two.tar.gz", "two.zip"]);

    let mut o = options();
    o.tag = Some("v1".to_string());
    assert_eq!(names(&handler.filter_releases(&releases, &o).unwrap()), vec!["one.tar.gz"]);
    o.tag = Some("v3-rc".to_string());
    assert_eq!(names(&handler.filter_releases(&releases, &o).unwrap()), vec!["rc.tar.gz"]);
    o.tag = Some("v2".to_string());
    assert_eq!(names(&handler.filter_releases(&releases, &o).unwrap()), vec!["two.tar.gz", "two.zip"]);
    o.tag = Some("v".to_string());
    match handler.filter_releases(&releases, &o) {
        Err(PlatformError::NoRelease { tag }) => assert_eq!(tag.as_deref(), Some("v")),
        _ => panic!("expected no release"),
    }

    let only_pre = vec![release("v3-rc", true, &["rc.tar.gz"]), release("v4-rc", true, &["x"])];
    assert_eq!(names(&handler.filter_releases(&only_pre, &options()).unwrap()), vec!["rc.tar.gz"]);

    let none: Vec<GithubRelease> = vec![];
    match handler.filter_releases(&none, &options()) {
        Err(PlatformError::NoRelease { tag }) => assert_eq!(tag, None),
        _ => panic!("expected no release"),
    }
}

#[test]
fn asset_filtering() {
    let handler = ReleaseHandler::<Github>::new();
    let releases = vec![release(
        "v1",
        false,
        &["app-linux-amd64.tar.gz", "app-linux-amd64-musl.tar.gz", "app-darwin.tar.gz"],
    )];
    let mut o = options();
    o.globs = vec!["*.tar.gz".to_string()];
    o.match_keywords = vec!["linux,amd64".to_string()];
    o.exclude_keywords = vec!["musl".to_string()];
    assert_eq!(names(&handler.filter_releases(&releases, &o).unwrap()), vec!["app-linux-amd64.tar.gz"]);

    o.match_keywords = vec!["windows".to_string()];
    match handler.filter_releases(&releases, &o) {
        Err(PlatformError::NoMatchingAssets { available_assets }) => assert_eq!(
            available_assets,
            vec!["app-linux-amd64.tar.gz", "app-linux-amd64-musl.tar.gz", "app-darwin.tar.gz"]
        ),
        _ => panic!("expected no matching assets"),
    }
    let empty = vec![release("v1", false, &[])];
    match handler.filter_releases(&empty, &options()) {
        Err(PlatformError::NoMatchingAssets { available_assets }) => assert!(available_assets.is_empty()),
        _ => panic!("expected no matching assets"),
    }
}

#[test]
fn asset_download() {
    let handler = ReleaseHandler::<Github>::new();
    let mut o = options();
    o.output_path = Some("/tmp/".to_string());
    o.extract_archive = true;
    o.file_mode = FileMode::SkipExisting;
    let t = handler.download(&asset("tool.tar.gz"), &o, false).unwrap();
    assert_eq!(t.plan.kind, TransferKind::File);
    assert_eq!(t.plan.url, "https://github.com/o/r/releases/download/v1/tool.tar.gz");
    assert_eq!(t.plan.provisional_path, "/tmp/tool.tar.gz");
    assert_eq!(t.plan.file_mode, FileMode::SkipExisting);
    assert!(t.plan.extract_archive);
    let broken = GitlabAsset { name: "x".to_string(), direct_asset_url: "no url".to_string() };
    match ReleaseHandler::<Gitlab>::new().download(&broken, &options(), false) {
        Err(PlatformError::DownloadError(DownloadError::InvalidUrl { url, .. })) => assert_eq!(url, "no url"),
        _ => panic!("expected an invalid URL"),
    }
}
