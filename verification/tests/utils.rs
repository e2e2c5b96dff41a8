use soar_dl::utils::{
    build_absolute_path, decode_uri, extract_filename, extract_filename_from_url,
    filename_for_url, get_file_mode, is_elf, matches_pattern, should_fallback, FileMode,
};

fn strings(items: &[&str]) -> Vec<String> {
    items.iter().map(|s| s.to_string()).collect()
}

#[test]
fn filter_keeps_only_the_plain_linux_archive() {
    let globs = strings(&["*.tar.gz"]);
    let wanted = strings(&["linux,amd64"]);
    let unwanted = strings(&["musl"]);
    let names = ["app-linux-amd64.tar.gz", "app-linux-amd64-musl.tar.gz", "app-darwin.tar.gz"];
    let kept: Vec<&str> = names
        .iter()
        .copied()
        .filter(|n| matches_pattern(n, &[], &globs, &wanted, &unwanted, false))
        .collect();
    assert_eq!(kept, vec!["app-linux-amd64.tar.gz"]);
}

#[test]
fn filter_with_nothing_set_accepts_every_name() {
    assert!(matches_pattern("anything", &[], &[], &[], &[], false));
    assert!(matches_pattern("", &[], &[], &[], &[], true));
}

#[test]
fn filter_regex_must_match() {
    let regexes = strings(&["^app-.*\\.gz$"]);
    assert!(matches_pattern("app-x.gz", &regexes, &[], &[], &[], false));
    assert!(!matches_pattern("lib-x.gz", &regexes, &[], &[], &[], false));
}

#[test]
fn filter_invalid_regex_accepts_nothing() {
    let regexes = strings(&["("]);
    assert!(!matches_pattern("app", &regexes, &[], &[], &[], false));
}

#[test]
fn filter_case_mode() {
    let wanted = strings(&["Linux"]);
    assert!(matches_pattern("app-linux", &[], &[], &wanted, &[], false));
    assert!(!matches_pattern("app-linux", &[], &[], &wanted, &[], true));
    assert!(matches_pattern("app-Linux", &[], &[], &wanted, &[], true));
}

#[test]
fn filter_ignores_empty_keyword_parts() {
    let wanted = strings(&[" , linux ,, "]);
    assert!(matches_pattern("app-linux", &[], &[], &wanted, &[], false));
    let unwanted = strings(&[",,"]);
    assert!(matches_pattern("app-linux", &[], &[], &[], &unwanted, false));
}

#[test]
fn filter_exclusion_shrinks_and_fewer_globs_grow() {
    let names = ["a.tar.gz", "a-musl.tar.gz", "b.zip"];
    let globs = strings(&["*.tar.gz"]);
    for n in names {
        let narrow = matches_pattern(n, &[], &globs, &[], &strings(&["musl"]), false);
        let wide = matches_pattern(n, &[], &globs, &[], &[], false);
        let wider = matches_pattern(n, &[], &[], &[], &[], false);
        assert!(!narrow || wide);
        assert!(!wide || wider);
    }
}

#[test]
fn file_mode_precedence() {
    assert_eq!(get_file_mode(false, false), FileMode::PromptOverwrite);
    assert_eq!(get_file_mode(true, false), FileMode::SkipExisting);
    assert_eq!(get_file_mode(false, true), FileMode::ForceOverwrite);
    assert_eq!(get_file_mode(true, true), FileMode::SkipExisting);
}

#[test]
fn fallback_statuses() {
    for s in [401u16, 403, 429, 500, 502, 599] {
        assert!(should_fallback(s));
    }
    for s in [200u16, 304, 404, 400, 499, 600] {
        assert!(!should_fallback(s));
    }
}

#[test]
fn elf_magic() {
    assert!(is_elf(&[0x7f, 0x45, 0x4c, 0x46]));
    assert!(is_elf(&[0x7f, 0x45, 0x4c, 0x46, 0x02]));
    assert!(!is_elf(&[0x7f, 0x45, 0x4c]));
    assert!(!is_elf(&[0x50, 0x4b, 0x03, 0x04]));
    assert!(!is_elf(&[]));
}

#[test]
fn content_disposition_filename() {
    assert_eq!(
        extract_filename("attachment; filename=\"a.tar.gz\""),
        Some("a.tar.gz".to_string())
    );
    assert_eq!(extract_filename("attachment; filename=plain.bin"), Some("plain.bin".to_string()));
    assert_eq!(extract_filename("filename=filename=x"), Some("x".to_string()));
    assert_eq!(extract_filename("attachment"), None);
    assert_eq!(extract_filename(""), None);
    assert_eq!(
        extract_filename("inline; name=x; filename=\"first\"; filename=\"second\""),
        Some("first".to_string())
    );
}

#[test]
fn filename_from_url() {
    assert_eq!(extract_filename_from_url("https://h/F.bin"), Some("F.bin".to_string()));
    assert_eq!(extract_filename_from_url("https://h/a/b/c.txt?x=1#y"), Some("c.txt".to_string()));
    assert_eq!(extract_filename_from_url("https://h/dir/"), Some("dir".to_string()));
    assert_eq!(extract_filename_from_url("https://h/"), None);
    assert_eq!(extract_filename_from_url("https://h"), None);
    assert_eq!(extract_filename_from_url("not a url/name.bin"), Some("name.bin".to_string()));
    assert_eq!(extract_filename_from_url("x/.."), None);
}

#[test]
fn filename_falls_back_to_digest() {
    let name = filename_for_url("https://h/");
    assert_eq!(name, blake3::hash(b"https://h/").to_hex().to_string());
    assert_eq!(name.len(), 64);
    assert_eq!(filename_for_url("https://h/F.bin"), "F.bin");
}

#[test]
fn percent_decoding() {
    assert_eq!(decode_uri("v1.2.3"), "v1.2.3");
    assert_eq!(decode_uri("a%20b"), "a b");
    assert_eq!(decode_uri("%E2%9C%93"), "\u{2713}");
    assert_eq!(decode_uri("%e2%9c%93x%41"), "\u{2713}xA");
    assert_eq!(decode_uri("100%"), "100%");
    assert_eq!(decode_uri("%zz%4"), "%zz%4");
    assert_eq!(decode_uri("%ff"), "\u{fffd}");
    assert_eq!(decode_uri(""), "");
}

#[test]
fn absolute_path() {
    assert_eq!(build_absolute_path("/a/b", "/cwd"), "/a/b");
    assert_eq!(build_absolute_path("a/b", "/cwd"), "/cwd/a/b");
    assert_eq!(build_absolute_path("a", "/cwd/"), "/cwd/a");
    assert_eq!(build_absolute_path("a", ""), "a");
}
