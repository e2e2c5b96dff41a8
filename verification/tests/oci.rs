use soar_dl::downloader::{DownloadState, OciDownloadOptions, OciDownloader, OciStart};
use soar_dl::error::DownloadError;
use soar_dl::oci::{OciClient, OciConfig, OciLayer, OciManifest, Reference};
use soar_dl::resume::{ResponseHead, Sidecar};
use soar_dl::transfer::{Action, Phase, TransferKind};
use soar_dl::utils::FileMode;

fn layer(digest: &str, size: u64, title: Option<&str>) -> OciLayer {
    let mut l = OciLayer {
        media_type: "application/vnd.oci.image.layer.v1.tar".to_string(),
        digest: digest.to_string(),
        size,
        annotations: vec![("org.example.other".to_string(), "x".to_string())],
    };
    if let Some(t) = title {
        l.set_title(t);
    }
    l
}

fn manifest(layers: Vec<OciLayer>) -> OciManifest {
    OciManifest {
        media_type: "application/vnd.oci.image.manifest.v1+json".to_string(),
        config: OciConfig {
            media_type: "application/vnd.oci.empty.v1+json".to_string(),
            digest: "sha256:cfg".to_string(),
            size: 2,
        },
        layers,
    }
}

fn options(url: &str) -> OciDownloadOptions {
    OciDownloadOptions {
        url: url.to_string(),
        concurrency: None,
        output_path: None,
        api: None,
        regexes: vec![],
        globs: vec![],
        match_keywords: vec![],
        exclude_keywords: vec![],
        exact_case: false,
        file_mode: FileMode::ForceOverwrite,
    }
}

#[test]
fn references() {
    let cases = [
        ("ghcr.io/org/pkg:1.0", "org/pkg", "1.0"),
        ("org/pkg:1.0", "org/pkg", "1.0"),
        ("ghcr.io/org/pkg", "org/pkg", "latest"),
        ("ghcr.io/org/pkg@sha256:abc", "org/pkg", "sha256:abc"),
        ("ghcr.io/ghcr.io/org/pkg", "org/pkg", "latest"),
        ("host:5000/pkg:tag", "host", "5000/pkg:tag"),
        ("pkg:tag@sha256:abc", "pkg:tag", "sha256:abc"),
        ("", "", "latest"),
        ("ghcr.io", "ghcr.io", "latest"),
    ];
    for (text, package, tag) in cases {
        let r = Reference::from_str(text);
        assert_eq!((r.package.as_str(), r.tag.as_str()), (package, tag), "{:?}", text);
    }
    assert!(Reference::from_str("p@sha256:abc").is_blob());
    assert!(!Reference::from_str("p:sha256").is_blob());
    assert!(!Reference::from_str("p").is_blob());
}

#[test]
fn titles() {
    let mut l = layer("sha256:a", 1, None);
    assert_eq!(l.get_title(), None);
    l.set_title("tool");
    assert_eq!(l.get_title().as_deref(), Some("tool"));
    assert_eq!(l.annotations.len(), 2);
    l.set_title("other");
    assert_eq!(l.get_title().as_deref(), Some("other"));
    assert_eq!(l.annotations.len(), 2);
    assert_eq!(l.annotations[0], ("org.example.other".to_string(), "x".to_string()));
    let copy = l.copy();
    assert_eq!(copy.digest, l.digest);
    assert_eq!(copy.annotations, l.annotations);
    assert_eq!(copy.size, l.size);
}

#[test]
fn client_urls_and_headers() {
    let r = Reference::from_str("ghcr.io/org/pkg:1.0");
    let client = OciClient::new(&r, None, FileMode::SkipExisting);
    assert_eq!(client.manifest_url(), "https://ghcr.io/v2/org/pkg/manifests/1.0");
    assert_eq!(client.blob_url("sha256:abc"), "https://ghcr.io/v2/org/pkg/blobs/sha256:abc");
    let client = OciClient::new(&r, Some("http://localhost:5000/v2//".to_string()), FileMode::SkipExisting);
    assert_eq!(client.manifest_url(), "http://localhost:5000/v2/org/pkg/manifests/1.0");
    let headers = client.headers();
    assert_eq!(headers.len(), 2);
    assert_eq!(headers.get("authorization").unwrap(), "Bearer QQ==");
    assert_eq!(
        headers.get("accept").unwrap(),
        "application/vnd.docker.distribution.manifest.v2+json, \
         application/vnd.docker.distribution.manifest.list.v2+json, \
         application/vnd.oci.image.manifest.v1+json, \
         application/vnd.oci.image.index.v1+json, \
         application/vnd.oci.artifact.manifest.v1+json"
    );
}

#[test]
fn manifest_answers() {
    let r = Reference::from_str("org/pkg:1.0");
    let client = OciClient::new(&r, None, FileMode::SkipExisting);
    match client.manifest(404, None) {
        Err(DownloadError::ResourceError { url, status }) => {
            assert_eq!(url, "https://ghcr.io/v2/org/pkg/manifests/1.0");
            assert_eq!(status, 404);
        }
        _ => panic!("expected the status to be reported"),
    }
    assert!(matches!(client.manifest(500, Some(manifest(vec![]))), Err(DownloadError::ResourceError { .. })));
    assert!(matches!(client.manifest(200, None), Err(DownloadError::InvalidResponse)));
    let m = client.manifest(200, Some(manifest(vec![layer("sha256:a", 1, None)]))).unwrap();
    assert_eq!(m.layers.len(), 1);
}

#[test]
fn three_layers_two_at_a_time() {
    let mut o = options("ghcr.io/org/pkg:1.0");
    o.concurrency = Some(2);
    o.output_path = Some("out".to_string());
    let mut d = OciDownloader::new(o);
    let client = match d.download_oci() {
        OciStart::FetchManifest { client } => client,
        _ => panic!("expected the manifest to be fetched"),
    };
    assert_eq!(client.manifest_url(), "https://ghcr.io/v2/org/pkg/manifests/1.0");
    let m = manifest(vec![
        layer("sha256:a", 100, Some("a.bin")),
        layer("sha256:b", 200, Some("b.bin")),
        layer("sha256:c", 300, Some("c.bin")),
        layer("sha256:d", 50, None),
    ]);
    let plan = d.on_manifest(m).unwrap();
    assert_eq!(plan.total_bytes, 600);
    assert_eq!(plan.permits, 2);
    assert_eq!(plan.directory.as_deref(), Some("out"));
    let files: Vec<&str> = plan.jobs.iter().map(|j| j.file_path.as_str()).collect();
    assert_eq!(files, vec!["out/a.bin", "out/b.bin", "out/c.bin"]);
    let mut events = vec![OciDownloader::preparing(&plan)];
    for job in &plan.jobs {
        let mut t = client.pull_layer(&job.layer, &job.file_path);
        assert_eq!(t.plan.kind, TransferKind::Layer);
        assert_eq!(t.plan.url, format!("https://ghcr.io/v2/org/pkg/blobs/{}", job.layer.digest));
        t.start(Sidecar::Absent, None);
        let head = ResponseHead {
            status: 200,
            etag: None,
            last_modified: None,
            content_range: None,
            content_length: Some(job.layer.size),
            content_disposition: None,
        };
        assert!(matches!(t.on_response(&head), Action::Probe));
        assert_eq!(t.target, job.file_path);
        match t.on_probe(false, false) {
            Action::Open { total, .. } => {
                assert_eq!(total, job.layer.size);
                events.push(d.layer_progress(0));
            }
            _ => panic!("expected the part file to be opened"),
        }
        t.on_chunk(job.layer.size);
        events.push(d.layer_progress(job.layer.size));
        assert!(matches!(t.on_body_end(), Action::Store));
        assert!(matches!(t.on_stored(&[], "/"), Action::Conclude { extract_to: None, .. }));
        assert_eq!(t.phase, Phase::Finished);
        d.layer_completed(&job.layer.digest);
    }
    assert_eq!(events.first(), Some(&DownloadState::Preparing(600)));
    assert_eq!(events.last(), Some(&DownloadState::Progress(600)));
    let mut last = 0;
    for e in &events[1..] {
        match e {
            DownloadState::Progress(n) => {
                assert!(*n >= last);
                last = *n;
            }
            _ => panic!("expected progress"),
        }
    }
    assert_eq!(d.completed_layers, vec!["sha256:a", "sha256:b", "sha256:c"]);

    match d.download_oci() {
        OciStart::Pull { plan, .. } => {
            assert_eq!(plan.total_bytes, 600);
            assert!(plan.jobs.is_empty());
        }
        _ => panic!("expected a plan from the manifest that is known"),
    }
    assert_eq!(d.downloaded_bytes, 0);
}

#[test]
fn layers_are_filtered_by_title() {
    let mut o = options("org/pkg");
    o.globs = vec!["*.tar.gz".to_string()];
    o.exclude_keywords = vec!["musl".to_string()];
    let mut d = OciDownloader::new(o);
    d.layer_completed("sha256:done");
    d.layer_completed("sha256:done");
    assert_eq!(d.completed_layers.len(), 1);
    assert!(d.has_completed("sha256:done"));
    assert!(!d.has_completed("sha256:a"));
    let m = manifest(vec![
        layer("sha256:a", 10, Some("a.tar.gz")),
        layer("sha256:b", 20, Some("a-musl.tar.gz")),
        layer("sha256:c", 30, Some("c.zip")),
        layer("sha256:done", 40, Some("d.tar.gz")),
        layer("sha256:e", 50, None),
    ]);
    let plan = d.on_manifest(m).unwrap();
    assert_eq!(plan.total_bytes, 50);
    assert_eq!(plan.permits, 1);
    assert_eq!(plan.directory, None);
    assert_eq!(plan.jobs.len(), 1);
    assert_eq!(plan.jobs[0].layer.digest, "sha256:a");
    assert_eq!(plan.jobs[0].file_path, "a.tar.gz");
}

#[test]
fn no_layer_passes() {
    let mut o = options("org/pkg");
    o.match_keywords = vec!["windows".to_string()];
    let mut d = OciDownloader::new(o);
    let m = manifest(vec![layer("sha256:a", 10, Some("a.tar.gz")), layer("sha256:e", 50, None)]);
    assert!(matches!(d.on_manifest(m), Err(DownloadError::LayersNotFound)));
    assert!(matches!(d.download_oci(), OciStart::Fail { error: DownloadError::LayersNotFound }));
    let mut d = OciDownloader::new(options("org/pkg"));
    assert!(matches!(d.on_manifest(manifest(vec![])), Err(DownloadError::LayersNotFound)));
}

#[test]
fn sizes_are_summed_as_far_as_they_fit() {
    let mut d = OciDownloader::new(options("org/pkg"));
    let m = manifest(vec![
        layer("sha256:a", u64::MAX - 1, Some("a")),
        layer("sha256:b", 5, Some("b")),
    ]);
    assert_eq!(d.on_manifest(m).unwrap().total_bytes, u64::MAX);
}

#[test]
fn blob_by_digest() {
    let mut d = OciDownloader::new(options("ghcr.io/org/pkg@sha256:abc"));
    match d.download_oci() {
        OciStart::Blob { client, directory, job } => {
            assert_eq!(client.reference.package, "org/pkg");
            assert_eq!(directory, None);
            assert_eq!(job.file_path, "pkg");
            assert_eq!(job.layer.digest, "sha256:abc");
            assert_eq!(job.layer.media_type, "application/octet-stream");
            assert_eq!(job.layer.size, 0);
            assert!(job.layer.annotations.is_empty());
            let t = client.pull_layer(&job.layer, &job.file_path);
            assert_eq!(t.plan.url, "https://ghcr.io/v2/org/pkg/blobs/sha256:abc");
            assert_eq!(t.plan.part_path, "pkg.part");
        }
        _ => panic!("expected a blob"),
    }
    let mut o = options("pkg@sha256:abc");
    o.output_path = Some("out//".to_string());
    let mut d = OciDownloader::new(o);
    match d.download_oci() {
        OciStart::Blob { directory, job, .. } => {
            assert_eq!(directory.as_deref(), Some("out//"));
            assert_eq!(job.file_path, "out/sha256:abc");
        }
        _ => panic!("expected a blob"),
    }
    let mut o = options("org/pkg@sha256:abc");
    o.output_path = Some("file.bin".to_string());
    let mut d = OciDownloader::new(o);
    match d.download_oci() {
        OciStart::Blob { directory, job, .. } => {
            assert_eq!(directory, None);
            assert_eq!(job.file_path, "file.bin");
        }
        _ => panic!("expected a blob"),
    }
}

#[test]
fn blob_progress_announces_a_known_total() {
    let mut d = OciDownloader::new(options("org/pkg@sha256:abc"));
    assert_eq!(d.blob_progress(0, 300), (Some(DownloadState::Preparing(300)), DownloadState::Progress(0)));
    assert_eq!(d.blob_progress(100, 0), (None, DownloadState::Progress(100)));
    assert_eq!(d.blob_progress(200, 0), (None, DownloadState::Progress(300)));
    assert_eq!(d.layer_progress(u64::MAX), DownloadState::Progress(u64::MAX));
}

#[test]
fn layer_overwrite_never_asks() {
    let r = Reference::from_str("org/pkg:1.0");
    for (mode, removes) in [(FileMode::ForceOverwrite, true), (FileMode::PromptOverwrite, true)] {
        let client = OciClient::new(&r, None, mode);
        let mut t = client.pull_layer(&layer("sha256:a", 1, Some("a")), "a");
        t.start(Sidecar::Absent, None);
        let head = ResponseHead {
            status: 200,
            etag: None,
            last_modified: None,
            content_range: None,
            content_length: None,
            content_disposition: Some("attachment; filename=evil".to_string()),
        };
        t.on_response(&head);
        assert_eq!(t.target, "a");
        match t.on_probe(true, false) {
            Action::Open { remove_target, .. } => assert_eq!(remove_target, removes),
            _ => panic!("expected the part file to be opened"),
        }
    }
    let client = OciClient::new(&r, None, FileMode::SkipExisting);
    let mut t = client.pull_layer(&layer("sha256:a", 1, Some("a")), "a");
    match t.start(Sidecar::Absent, Some(3)) {
        Action::Send { headers, .. } => {
            assert_eq!(headers.len(), 3);
            assert_eq!(headers.get("range").unwrap(), "bytes=3-");
            assert_eq!(headers.get("authorization").unwrap(), "Bearer QQ==");
        }
        _ => panic!("expected a request"),
    }
}

#[test]
fn title_keeps_keys_apart() {
    let mut l = layer("sha256:a", 1, Some("first"));
    for title in ["second", "third"] {
        l.set_title(title);
        let mut keys: Vec<&str> = l.annotations.iter().map(|(k, _)| k.as_str()).collect();
        keys.sort();
        keys.dedup();
        assert_eq!(keys.len(), l.annotations.len());
    }
    assert_eq!(l.get_title().as_deref(), Some("third"));
}
